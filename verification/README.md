# pake_online

The checks of the Pake online bootstrap, verified with Verus. The bootstrap
downloads the newest payload of its GitHub release channel, verifies it and
launches it. This crate holds its rules, with contracts: which release and
manifest to trust, which payload to accept, how a download is verified, how
a ZIP payload is checked and unpacked, in which order an install proceeds,
and which builds and markers to keep or follow. Where a rule rests on the
platform's path syntax or on the file system, the caller hands in what the
platform answered and the contract says what holds on every platform.

- `channel`: the embedded release channel (`owner/name`, tag, configuration id, OS).
- `release`: GitHub release assets, the newest-first choice of manifests, asset URLs and manifest bytes.
- `manifest`: the online manifest and its payload, checked against the channel and platform.
- `links`: URL checks (through the `url` crate) and the mainland-China proxy URL.
- `digest`: SHA-256 (through `sha2`) and the streaming payload verifier.
- `transfer`: size-limited response bodies and the proxy/retry rules.
- `install`: the recorded active build, the update plan, the install steps, cleanup, lock age, and the ZIP payload (through `zip`).
- `bootstrap`: the marker that hands a cached payload's launch back to the bootstrap.
- `trace`: the country in a Cloudflare trace.
- `paths`: relative entrypoint paths (through `std::path`).
- `laws`: properties that span several functions.

`app/` is the program around it: environment, file system, HTTP, processes.
