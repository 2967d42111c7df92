use vstd::prelude::*;

use vstd::utf8::{encode_utf8, is_ascii_chars, is_ascii_chars_encode_utf8};

use crate::channel::{channel_outcome, channel_value_char, safe_channel_value, valid_repository, ReleaseChannel};
use crate::digest::{after_chunk, digest_matches, saturated, PayloadProgress};
use crate::install::{
    install_step_after, staging_name, state_fields_valid, survives_cleanup, update_plan, InstallStep,
    UpdatePlan,
};
use crate::links::{is_https_github, is_release_download, url_parse};
use crate::manifest::{artifact_verdict, is_commit_text, is_sha256_text, manifest_verdict, payload_kind_for};
use crate::outcome::Verdict;
use crate::text::{has_prefix, is_hex_text};
use crate::release::{comes_first, is_manifest_order, manifest_bytes_outcome, GithubAsset};
use crate::transfer::{body_after, BodyView};

verus! {

/// The payload download state after `chunks` arrive one by one, or `None`
/// where one of them is refused.
pub open spec fn progress_after_all(p: PayloadProgress, chunks: Seq<Seq<u8>>) -> Option<
    PayloadProgress,
>
    decreases chunks.len(),
{
    if chunks.len() == 0 {
        Some(p)
    } else {
        match after_chunk(p, chunks[0]) {
            Some(q) => progress_after_all(q, chunks.drop_first()),
            None => None,
        }
    }
}

proof fn lemma_progress_after_all(p: PayloadProgress, chunks: Seq<Seq<u8>>)
    requires
        saturated(p.received.len()) <= p.expected_size,
    ensures
        progress_after_all(p, chunks) == if saturated(p.received.len() + chunks.flatten().len())
            <= p.expected_size {
            Some(PayloadProgress { received: p.received + chunks.flatten(), ..p })
        } else {
            None
        },
    decreases chunks.len(),
{
    if chunks.len() == 0 {
        assert(p.received + chunks.flatten() =~= p.received);
    } else {
        let c = chunks[0];
        let rest = chunks.drop_first();
        assert(chunks.flatten() == c + rest.flatten());
        match after_chunk(p, c) {
            Some(q) => {
                lemma_progress_after_all(q, rest);
                assert(q.received + rest.flatten() =~= p.received + chunks.flatten());
            },
            None => {},
        }
    }
}

/// Streaming a payload through `PayloadVerifier` decides as a check of the
/// whole download would: however the bytes are split into chunks, every
/// chunk is taken exactly when the whole fits the announced size, and what
/// `finish` then judges is the concatenation of the chunks.
pub proof fn lemma_streamed_payload_is_whole_payload(
    chunks: Seq<Seq<u8>>,
    expected_size: u64,
    expected_sha256: Seq<char>,
)
    ensures
        progress_after_all(
            PayloadProgress { received: Seq::empty(), expected_size, expected_sha256 },
            chunks,
        ) == if saturated(chunks.flatten().len()) <= expected_size {
            Some(PayloadProgress { received: chunks.flatten(), expected_size, expected_sha256 })
        } else {
            None
        },
{
    let p = PayloadProgress { received: Seq::empty(), expected_size, expected_sha256 };
    lemma_progress_after_all(p, chunks);
    assert(p.received + chunks.flatten() =~= chunks.flatten());
}

/// A size-limited response body after `chunks` arrive one by one, or `None`
/// where one of them is refused.
pub open spec fn body_after_all(b: BodyView, chunks: Seq<Seq<u8>>) -> Option<BodyView>
    decreases chunks.len(),
{
    if chunks.len() == 0 {
        Some(b)
    } else {
        match body_after(b, chunks[0]) {
            Some(c) => body_after_all(c, chunks.drop_first()),
            None => None,
        }
    }
}

proof fn lemma_body_after_all(b: BodyView, chunks: Seq<Seq<u8>>)
    requires
        saturated(b.bytes.len()) <= b.maximum,
    ensures
        body_after_all(b, chunks) == if saturated(b.bytes.len() + chunks.flatten().len())
            <= b.maximum {
            Some(BodyView { bytes: b.bytes + chunks.flatten(), maximum: b.maximum })
        } else {
            None
        },
    decreases chunks.len(),
{
    if chunks.len() == 0 {
        assert(b.bytes + chunks.flatten() =~= b.bytes);
    } else {
        let c = chunks[0];
        let rest = chunks.drop_first();
        assert(chunks.flatten() == c + rest.flatten());
        match body_after(b, c) {
            Some(next) => {
                lemma_body_after_all(next, rest);
                assert(next.bytes + rest.flatten() =~= b.bytes + chunks.flatten());
            },
            None => {},
        }
    }
}

/// A size-limited read holds exactly the concatenation of the chunks it
/// took, and refuses a chunk exactly when the whole body would exceed the
/// limit.
pub proof fn lemma_bounded_read_is_whole_body(chunks: Seq<Seq<u8>>, maximum: u64)
    ensures
        body_after_all(BodyView { bytes: Seq::empty(), maximum }, chunks) == if saturated(
            chunks.flatten().len(),
        ) <= maximum {
            Some(BodyView { bytes: chunks.flatten(), maximum })
        } else {
            None
        },
{
    let b = BodyView { bytes: Seq::empty(), maximum };
    lemma_body_after_all(b, chunks);
    assert(b.bytes + chunks.flatten() =~= chunks.flatten());
}

proof fn lemma_order_head(assets: Seq<GithubAsset>, o1: Seq<usize>, o2: Seq<usize>)
    requires
        o1.len() > 0,
        o2.len() > 0,
        forall|k: int, l: int|
            0 <= k < l < o1.len() ==> comes_first(assets, #[trigger] o1[k] as int, #[trigger] o1[l] as int),
        forall|k: int, l: int|
            0 <= k < l < o2.len() ==> comes_first(assets, #[trigger] o2[k] as int, #[trigger] o2[l] as int),
        forall|x: usize| o1.contains(x) <==> o2.contains(x),
    ensures
        o1[0] == o2[0],
{
    assert(o1.contains(o1[0]));
    assert(o2.contains(o2[0]));
    let j = choose|j: int| 0 <= j < o2.len() && o2[j] == o1[0];
    let i = choose|i: int| 0 <= i < o1.len() && o1[i] == o2[0];
    if o1[0] != o2[0] {
        assert(j > 0);
        assert(i > 0);
        assert(comes_first(assets, o2[0] as int, o2[j] as int));
        assert(comes_first(assets, o1[0] as int, o1[i] as int));
    }
}

proof fn lemma_strict_order_membership(assets: Seq<GithubAsset>, o: Seq<usize>, x: usize)
    requires
        o.len() > 0,
        forall|k: int, l: int|
            0 <= k < l < o.len() ==> comes_first(assets, #[trigger] o[k] as int, #[trigger] o[l] as int),
    ensures
        o.drop_first().contains(x) <==> (o.contains(x) && x != o[0]),
{
    if o.drop_first().contains(x) {
        let k = choose|k: int| 0 <= k < o.drop_first().len() && o.drop_first()[k] == x;
        assert(o[k + 1] == x);
        assert(comes_first(assets, o[0] as int, o[k + 1] as int));
    }
    if o.contains(x) && x != o[0] {
        let k = choose|k: int| 0 <= k < o.len() && o[k] == x;
        assert(o.drop_first()[k - 1] == x);
    }
}

proof fn lemma_sorted_unique(assets: Seq<GithubAsset>, o1: Seq<usize>, o2: Seq<usize>)
    requires
        forall|k: int, l: int|
            0 <= k < l < o1.len() ==> comes_first(assets, #[trigger] o1[k] as int, #[trigger] o1[l] as int),
        forall|k: int, l: int|
            0 <= k < l < o2.len() ==> comes_first(assets, #[trigger] o2[k] as int, #[trigger] o2[l] as int),
        forall|x: usize| o1.contains(x) <==> o2.contains(x),
    ensures
        o1 == o2,
    decreases o1.len(),
{
    if o1.len() == 0 {
        if o2.len() > 0 {
            assert(o2.contains(o2[0]));
        }
        assert(o1 =~= o2);
    } else if o2.len() == 0 {
        assert(o1.contains(o1[0]));
    } else {
        lemma_order_head(assets, o1, o2);
        let t1 = o1.drop_first();
        let t2 = o2.drop_first();
        assert forall|x: usize| t1.contains(x) <==> t2.contains(x) by {
            lemma_strict_order_membership(assets, o1, x);
            lemma_strict_order_membership(assets, o2, x);
        }
        assert forall|k: int, l: int| 0 <= k < l < t1.len() implies comes_first(
            assets,
            #[trigger] t1[k] as int,
            #[trigger] t1[l] as int,
        ) by {
            assert(t1[k] == o1[k + 1] && t1[l] == o1[l + 1]);
        }
        assert forall|k: int, l: int| 0 <= k < l < t2.len() implies comes_first(
            assets,
            #[trigger] t2[k] as int,
            #[trigger] t2[l] as int,
        ) by {
            assert(t2[k] == o2[k + 1] && t2[l] == o2[l + 1]);
        }
        lemma_sorted_unique(assets, t1, t2);
        assert(o1.len() == t1.len() + 1 && o2.len() == t2.len() + 1);
        assert forall|i: int| 0 <= i < o1.len() implies o1[i] == o2[i] by {
            if i > 0 {
                assert(o1[i] == t1[i - 1]);
                assert(o2[i] == t2[i - 1]);
            }
        }
        assert(o1 =~= o2);
    }
}

/// The order of the manifest assets is fully determined: there is exactly
/// one listing of the candidate manifests newest first (ties in position
/// order), so `manifest_assets` has a single possible result.
pub proof fn lemma_manifest_order_is_unique(assets: Seq<GithubAsset>, o1: Seq<usize>, o2: Seq<usize>)
    requires
        is_manifest_order(assets, o1),
        is_manifest_order(assets, o2),
    ensures
        o1 == o2,
{
    assert forall|x: usize| o1.contains(x) <==> o2.contains(x) by {
        if o1.contains(x) {
            let k = choose|k: int| 0 <= k < o1.len() && o1[k] == x;
            assert(o1[k] < assets.len());
        }
        if o2.contains(x) {
            let k = choose|k: int| 0 <= k < o2.len() && o2[k] == x;
            assert(o2[k] < assets.len());
        }
    }
    lemma_sorted_unique(assets, o1, o2);
}

/// A manifest that passes validation binds the bootstrap to its channel:
/// same configuration, repository, release tag and platform, exactly one
/// payload of this platform's format, a payload URL that is the HTTPS
/// `github.com` download of that payload in the channel's release, and an
/// entrypoint that the platform splits into plain names only, so that it
/// stays inside the build's version directory (`validate` adds that such an
/// entrypoint is non-empty, relative and free of `..` on every platform).
pub proof fn lemma_accepted_manifest_stays_in_channel(
    m: crate::manifest::OnlineManifest,
    channel: ReleaseChannel,
    host_os: Seq<char>,
    entrypoint_is_safe: bool,
)
    requires
        manifest_verdict(m, channel, host_os, entrypoint_is_safe) == Verdict::Accepted,
    ensures
        m.config_id@ == channel.config_id@,
        m.repository@ == channel.repository@,
        m.release_tag@ == channel.release_tag@,
        m.platform.os@ == channel.os@,
        m.artifacts@.len() == 1,
        payload_kind_for(host_os) == Some((m.artifacts@[0].format@, m.artifacts@[0].launch_kind@)),
        url_parse(m.artifacts@[0].download_url@) matches Ok(u) && is_release_download(
            u,
            channel.repository@,
            channel.release_tag@,
            m.artifacts@[0].name@,
        ),
        entrypoint_is_safe,
{
}

/// Every payload URL that validation accepts can be routed through the
/// mainland-China proxy: it is an HTTPS `github.com` URL, which is what
/// `github_proxy_url` requires.
pub proof fn lemma_accepted_payload_url_can_be_proxied(
    a: crate::manifest::PayloadArtifact,
    repository: Seq<char>,
    release_tag: Seq<char>,
    host_os: Seq<char>,
    entrypoint_is_safe: bool,
)
    requires
        artifact_verdict(a, repository, release_tag, host_os, entrypoint_is_safe)
            == Verdict::Accepted,
    ensures
        url_parse(a.download_url@) matches Ok(u) && is_https_github(u),
{
}

/// The state recorded for an installed payload is one that a later run
/// accepts: a manifest that passes validation yields a SHA-256 build id, a
/// commit id, a known launch kind and an entrypoint the platform judges safe
/// (`installed_state` copies these fields).
pub proof fn lemma_installed_state_is_accepted_later(
    m: crate::manifest::OnlineManifest,
    channel: ReleaseChannel,
    host_os: Seq<char>,
    entrypoint_is_safe: bool,
)
    requires
        manifest_verdict(m, channel, host_os, entrypoint_is_safe) == Verdict::Accepted,
    ensures
        state_fields_valid(m.artifacts@[0].sha256@, m.source.sha@, m.artifacts@[0].launch_kind@),
        entrypoint_is_safe,
{
}

/// Whether an update plan starts a build in this run.
pub open spec fn plan_launches(plan: UpdatePlan) -> bool {
    match plan {
        UpdatePlan::AlreadyCurrent { launch_cached } => launch_cached,
        UpdatePlan::Install { launch_installed } => launch_installed,
    }
}

/// Each run starts exactly one build: where the cached build was already
/// launched, the plan launches nothing more (a newer build waits for the
/// next start); where it was not, the plan launches one.
pub proof fn lemma_each_run_launches_once(
    current_build: Option<Seq<char>>,
    launched: bool,
    newest: Seq<char>,
)
    requires
        launched ==> current_build is Some,
    ensures
        plan_launches(update_plan(current_build, launched, newest)) == !launched,
{
}

/// Cleanup keeps the newest build and the build that was active before it:
/// both head the list `versions_to_keep` returns.
pub proof fn lemma_kept_builds_survive_cleanup(keep: Seq<String>, newest: Seq<char>, previous: Option<Seq<char>>)
    requires
        keep.len() >= 1,
        keep[0]@ == newest,
        previous matches Some(p) ==> keep.len() == 2 && keep[1]@ == p,
    ensures
        survives_cleanup(newest, keep),
        previous matches Some(p) ==> survives_cleanup(p, keep),
{
    assert(keep[0]@ == newest);
    if let Some(p) = previous {
        assert(keep[1]@ == p);
    }
}

/// Cleanup never removes a build while it is being staged: every staging
/// directory name that `staging_directory_name` gives survives cleanup,
/// whatever list of builds is kept.
pub proof fn lemma_staging_directories_survive_cleanup(
    sha256: Seq<char>,
    process_id: u32,
    keep: Seq<String>,
)
    ensures
        survives_cleanup(staging_name(sha256, process_id), keep),
{
    let name = staging_name(sha256, process_id);
    let head = ".staging-"@;
    assert(name.subrange(0, head.len() as int) =~= head);
}

/// The length checks on digests, commit ids and channel values count
/// characters; `str::len` counts UTF-8 bytes. On every string the two
/// readings decide alike, because a string that passes the character test
/// is ASCII, where bytes and characters are the same in number.
pub proof fn lemma_length_checks_agree_with_byte_lengths(s: Seq<char>)
    ensures
        is_sha256_text(s) == (encode_utf8(s).len() == 64 && is_hex_text(s)),
        is_commit_text(s) == ((encode_utf8(s).len() == 40 || encode_utf8(s).len() == 64)
            && is_hex_text(s)),
        safe_channel_value(s) == (0 < s.len() && encode_utf8(s).len() <= 120 && forall|i: int|
            0 <= i < s.len() ==> #[trigger] channel_value_char(s[i])),
{
    if is_hex_text(s) {
        assert(is_ascii_chars(s)) by {
            assert forall|i: int| 0 <= i < s.len() implies '\0' <= #[trigger] s[i] <= '\u{7f}' by {
                assert(crate::text::is_hex_digit(s[i]));
            }
        }
        is_ascii_chars_encode_utf8(s);
    }
    if forall|i: int| 0 <= i < s.len() ==> #[trigger] channel_value_char(s[i]) {
        assert(is_ascii_chars(s)) by {
            assert forall|i: int| 0 <= i < s.len() implies '\0' <= #[trigger] s[i] <= '\u{7f}' by {
                assert(channel_value_char(s[i]));
            }
        }
        is_ascii_chars_encode_utf8(s);
    }
}

/// The steps an install goes through from `step` when the work of each step
/// reports `events[i]`: whether it succeeded, and whether what it looked for
/// is present.
pub open spec fn install_run(step: InstallStep, events: Seq<(bool, bool)>) -> Seq<InstallStep>
    decreases events.len(),
{
    if events.len() == 0 {
        seq![step]
    } else {
        seq![step] + install_run(
            install_step_after(step, events[0].0, events[0].1),
            events.drop_first(),
        )
    }
}

/// Each install step is reached only from the one before it, and only when
/// that one went well: the payload is activated only after its download was
/// verified, the entrypoint checked only after activation, and the build
/// moved into place only once staging holds the entrypoint (and a broken old
/// build is gone).
pub proof fn lemma_install_steps_keep_their_order(step: InstallStep, succeeded: bool, present: bool)
    ensures
        install_step_after(step, succeeded, present) == InstallStep::DownloadVerified ==> step
            == InstallStep::PrepareStaging && succeeded,
        install_step_after(step, succeeded, present) == InstallStep::Activate ==> step
            == InstallStep::DownloadVerified && succeeded,
        install_step_after(step, succeeded, present) == InstallStep::ConfirmEntrypoint ==> step
            == InstallStep::Activate && succeeded,
        install_step_after(step, succeeded, present) == InstallStep::CheckDestination ==> step
            == InstallStep::ConfirmEntrypoint && present,
        install_step_after(step, succeeded, present) == InstallStep::MoveIntoPlace ==> (step
            == InstallStep::CheckDestination && !present) || (step == InstallStep::ClearDestination
            && succeeded),
        install_step_after(step, succeeded, present) == InstallStep::Installed ==> (step
            == InstallStep::LookForCachedBuild && present) || (step == InstallStep::MoveIntoPlace
            && succeeded) || step == InstallStep::Installed,
{
}

/// In every install run, each time the payload is activated the step just
/// before was the verified download, and it succeeded: nothing is activated
/// that was not verified first.
pub proof fn lemma_install_run_verifies_before_activating(step: InstallStep, events: Seq<(bool, bool)>)
    ensures
        install_run(step, events).len() == events.len() + 1,
        forall|i: int|
            1 <= i < install_run(step, events).len() && #[trigger] install_run(step, events)[i]
                == InstallStep::Activate ==> install_run(step, events)[i - 1]
                == InstallStep::DownloadVerified && events[i - 1].0,
    decreases events.len(),
{
    if events.len() > 0 {
        let next = install_step_after(step, events[0].0, events[0].1);
        let rest = events.drop_first();
        lemma_install_run_verifies_before_activating(next, rest);
        let run = install_run(step, events);
        assert(run == seq![step] + install_run(next, rest));
        assert forall|i: int|
            1 <= i < run.len() && #[trigger] run[i] == InstallStep::Activate implies run[i - 1]
                == InstallStep::DownloadVerified && events[i - 1].0 by {
            if i == 1 {
                assert(run[1] == next);
                lemma_install_steps_keep_their_order(step, events[0].0, events[0].1);
            } else {
                assert(run[i] == install_run(next, rest)[i - 1]);
                assert(run[i - 1] == install_run(next, rest)[i - 2]);
                assert(events[i - 1] == rest[i - 2]);
            }
        }
    }
}

/// Each supported platform runs one payload kind: Windows a zipped
/// executable (`exe.zip`, `executable`), macOS a zipped application bundle
/// (`app.zip`, `appBundle`), Linux an AppImage (`appimage`, `executable`);
/// every other platform is unsupported.
pub proof fn lemma_platform_payload_kinds(os: Seq<char>)
    ensures
        payload_kind_for("windows"@) == Some(("exe.zip"@, "executable"@)),
        payload_kind_for("macos"@) == Some(("app.zip"@, "appBundle"@)),
        payload_kind_for("linux"@) == Some(("appimage"@, "executable"@)),
        os != "windows"@ && os != "macos"@ && os != "linux"@ ==> payload_kind_for(os) is None,
{
    reveal_strlit("windows");
    reveal_strlit("macos");
    reveal_strlit("linux");
    assert("macos"@[0] != "windows"@[0]);
    assert("linux"@[0] != "windows"@[0] && "linux"@[0] != "macos"@[0]);
}

/// A channel that validates has a well-formed repository, a release tag and
/// a configuration id that are each non-empty, at most 120 characters long
/// and made of `[A-Za-z0-9_-]`, and targets the host's operating system. In
/// particular an empty configuration id is always refused.
pub proof fn lemma_valid_channel_has_safe_fields(
    repository: Seq<char>,
    release_tag: Seq<char>,
    config_id: Seq<char>,
    os: Seq<char>,
    host_os: Seq<char>,
)
    ensures
        channel_outcome(repository, release_tag, config_id, os, host_os) is Ok ==> {
            &&& valid_repository(repository)
            &&& 0 < release_tag.len() <= 120
            &&& forall|i: int| 0 <= i < release_tag.len() ==> #[trigger] channel_value_char(release_tag[i])
            &&& 0 < config_id.len() <= 120
            &&& forall|i: int| 0 <= i < config_id.len() ==> #[trigger] channel_value_char(config_id[i])
            &&& os == host_os
        },
        channel_outcome(repository, release_tag, Seq::empty(), os, host_os) is Err,
{
}

/// A downloaded manifest passes its byte check only when it is exactly as
/// long as GitHub reported and, where GitHub reported a digest, hashes to it.
pub proof fn lemma_accepted_manifest_bytes_match_metadata(
    bytes: Seq<u8>,
    size: u64,
    expected_digest: Option<Seq<char>>,
)
    ensures
        manifest_bytes_outcome(bytes, size, expected_digest) is Ok ==> bytes.len() == size
            && (expected_digest matches Some(d) ==> digest_matches(bytes, d)),
        bytes.len() != size ==> manifest_bytes_outcome(bytes, size, expected_digest) is Err,
{
}

/// Cleanup keeps nothing but the listed builds and staging directories: a
/// version directory that survives is named in `keep` or starts with
/// `.staging-`.
pub proof fn lemma_cleanup_keeps_nothing_else(name: Seq<char>, keep: Seq<String>)
    ensures
        survives_cleanup(name, keep) ==> (exists|k: int| 0 <= k < keep.len() && #[trigger] keep[k]@
            == name) || has_prefix(name, ".staging-"@),
        (forall|k: int| 0 <= k < keep.len() ==> #[trigger] keep[k]@ != name) && !has_prefix(
            name,
            ".staging-"@,
        ) ==> !survives_cleanup(name, keep),
{
}

/// An install step whose work succeeded never fails the install: only a
/// failed step, or staging that lacks the entrypoint, leads to `Failed` or
/// `Abandon`. A broken build in the version directory is cleared and staging
/// then moved into place.
pub proof fn lemma_successful_steps_make_progress(step: InstallStep, present: bool)
    ensures
        step != InstallStep::Failed && step != InstallStep::Abandon && !(step
            == InstallStep::ConfirmEntrypoint && !present) ==> install_step_after(step, true, present)
            != InstallStep::Failed && install_step_after(step, true, present) != InstallStep::Abandon,
        step != InstallStep::Installed && step != InstallStep::Failed && step != InstallStep::Abandon
            ==> install_step_after(step, true, present) != step,
        install_step_after(InstallStep::CheckDestination, true, true) == InstallStep::ClearDestination,
        install_step_after(InstallStep::CheckDestination, true, false) == InstallStep::MoveIntoPlace,
        install_step_after(InstallStep::ClearDestination, true, present) == InstallStep::MoveIntoPlace,
        install_step_after(InstallStep::MoveIntoPlace, true, present) == InstallStep::Installed,
{
}

/// When every step's work succeeds and staging holds the entrypoint, an
/// install that starts by preparing staging is installed after at most seven
/// steps, whether or not an old build stood in the version directory.
pub proof fn lemma_successful_install_completes(events: Seq<(bool, bool)>)
    requires
        events.len() == 7,
        forall|i: int| 0 <= i < 7 ==> (#[trigger] events[i]).0,
        events[3].1,
    ensures
        install_run(InstallStep::PrepareStaging, events)[7] == InstallStep::Installed,
{
    reveal_with_fuel(install_run, 8);
    let e = events;
    assert(e[0].0 && e[1].0 && e[2].0 && e[3].0 && e[4].0 && e[5].0 && e[6].0);
    let s1 = install_step_after(InstallStep::PrepareStaging, e[0].0, e[0].1);
    let s2 = install_step_after(s1, e[1].0, e[1].1);
    let s3 = install_step_after(s2, e[2].0, e[2].1);
    let s4 = install_step_after(s3, e[3].0, e[3].1);
    let s5 = install_step_after(s4, e[4].0, e[4].1);
    let s6 = install_step_after(s5, e[5].0, e[5].1);
    let s7 = install_step_after(s6, e[6].0, e[6].1);
    assert(s4 == InstallStep::CheckDestination);
    assert(s7 == InstallStep::Installed);
    let mut k: int = 7;
    let t0 = e;
    let t1 = t0.drop_first();
    let t2 = t1.drop_first();
    let t3 = t2.drop_first();
    let t4 = t3.drop_first();
    let t5 = t4.drop_first();
    let t6 = t5.drop_first();
    let t7 = t6.drop_first();
    assert(t1[0] == e[1] && t2[0] == e[2] && t3[0] == e[3] && t4[0] == e[4] && t5[0] == e[5]
        && t6[0] == e[6]);
    assert(t7.len() == 0);
    assert(install_run(s7, t7) == seq![s7]);
    assert(install_run(s6, t6) == seq![s6] + install_run(s7, t7));
    assert(install_run(s5, t5) == seq![s5] + install_run(s6, t6));
    assert(install_run(s4, t4) == seq![s4] + install_run(s5, t5));
    assert(install_run(s3, t3) == seq![s3] + install_run(s4, t4));
    assert(install_run(s2, t2) == seq![s2] + install_run(s3, t3));
    assert(install_run(s1, t1) == seq![s1] + install_run(s2, t2));
    assert(install_run(InstallStep::PrepareStaging, t0) == seq![InstallStep::PrepareStaging]
        + install_run(s1, t1));
}

} // verus!
