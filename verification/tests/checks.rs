use pake_online::bootstrap::marker_applies;
use pake_online::channel::{is_github_name_character, is_safe_channel_value, ReleaseChannel};
use pake_online::digest::{sha256_hex, PayloadVerifier};
use pake_online::install::{
    activation_for, check_zip_entry_count, check_zip_payload, extract_single_executable, check_zip_member, installed_state, lock_is_stale,
    plan_update, should_keep_version, staging_directory_name, state_is_accepted, state_is_usable,
    versions_to_keep, wait_for_install_again, next_install_step, ActiveState, Activation,
    InstallStep, UpdatePlan,
    MAX_EXPANDED_PAYLOAD_BYTES,
};
use pake_online::links::github_proxy_url;
use pake_online::manifest::{
    payload_kind, OnlineManifest, PayloadArtifact, Platform, SourceBuild, MAX_PAYLOAD_BYTES,
};
use pake_online::paths::is_safe_relative_path;
use pake_online::release::{
    check_manifest_bytes, manifest_digest, validate_release_asset_url, GithubAsset, GithubRelease,
};
use pake_online::text::trimmed;
use pake_online::trace::country_from_cloudflare_trace;
use pake_online::transfer::{manifest_may_use_proxy, retry_directly, BoundedBody};

const ABC_SHA256: &str = "ba7816bf8f01cfea414140de5dae2223b00361a396177a9cb410ff61f20015ad";

fn linux_channel() -> ReleaseChannel {
    ReleaseChannel {
        repository: "owner/repo".into(),
        release_tag: "pake-online-example".into(),
        config_id: "example-linux-1".into(),
        os: "linux".into(),
    }
}

fn linux_artifact() -> PayloadArtifact {
    PayloadArtifact {
        name: "payload.appimage".into(),
        format: "appimage".into(),
        size: 42,
        sha256: "b".repeat(64),
        download_url:
            "https://github.com/owner/repo/releases/download/pake-online-example/payload.appimage"
                .into(),
        entrypoint: "app.AppImage".into(),
        launch_kind: "executable".into(),
    }
}

fn linux_manifest() -> OnlineManifest {
    OnlineManifest {
        schema_version: 2,
        config_id: "example-linux-1".into(),
        repository: "owner/repo".into(),
        release_tag: "pake-online-example".into(),
        source: SourceBuild {
            sha: "c".repeat(64),
        },
        platform: Platform { os: "linux".into() },
        artifacts: vec![linux_artifact()],
    }
}

fn asset(id: u64, name: &str, size: u64) -> GithubAsset {
    GithubAsset {
        id,
        name: name.into(),
        size,
        browser_download_url: format!(
            "https://github.com/owner/repo/releases/download/pake-online-example/{name}"
        ),
        digest: None,
    }
}

#[test]
fn embedded_channel_is_trimmed_then_validated() {
    let channel = ReleaseChannel::embedded(
        "  owner/repo\n",
        "\ttag-1 ",
        " cfg_2 ",
        " linux\u{3000}",
        "linux",
    )
    .unwrap();
    assert_eq!(channel.repository, "owner/repo");
    assert_eq!(channel.release_tag, "tag-1");
    assert_eq!(channel.config_id, "cfg_2");
    assert_eq!(channel.os, "linux");
    assert!(channel.validate("linux").is_ok());
}

#[test]
fn embedded_channel_reports_the_first_failing_rule() {
    assert_eq!(
        ReleaseChannel::embedded("", "tag", "cfg", "linux", "linux").unwrap_err(),
        "The embedded online repository is invalid."
    );
    assert_eq!(
        ReleaseChannel::embedded("owner/repo", "", "cfg", "linux", "linux").unwrap_err(),
        "The embedded online release channel is invalid."
    );
    assert_eq!(
        ReleaseChannel::embedded("owner/repo", "tag", "cfg", "windows", "linux").unwrap_err(),
        "The embedded online channel targets another operating system."
    );
}

#[test]
fn repository_must_be_owner_slash_name() {
    let mut channel = linux_channel();
    for bad in ["owner", "/repo", "owner/", "a/b/c", "own er/repo", "owner//repo", "ow:ner/repo"] {
        channel.repository = bad.into();
        assert!(channel.validate("linux").is_err(), "{bad}");
    }
    for good in ["a/b", "Owner-1/repo.name_x", "x.y/z"] {
        channel.repository = good.into();
        assert!(channel.validate("linux").is_ok(), "{good}");
    }
}

#[test]
fn channel_values_are_bounded_and_plain() {
    assert!(is_safe_channel_value("pake-online_1"));
    assert!(is_safe_channel_value(&"a".repeat(120)));
    assert!(!is_safe_channel_value(&"a".repeat(121)));
    assert!(!is_safe_channel_value(""));
    assert!(!is_safe_channel_value("v1.0"));
    assert!(!is_safe_channel_value("tag/x"));
    assert!(is_github_name_character('.'));
    assert!(!is_github_name_character('/'));
    assert!(!is_github_name_character('é'));
}

#[test]
fn release_api_url_names_the_tag() {
    assert_eq!(
        linux_channel().release_api_url(),
        "https://api.github.com/repos/owner/repo/releases/tags/pake-online-example"
    );
}

#[test]
fn payload_metadata_errors() {
    let channel = linux_channel();
    let metadata = "The online payload metadata is invalid.";
    let mut a = linux_artifact();
    a.name = "dir/payload".into();
    assert_eq!(a.validate(&channel, "linux").unwrap_err(), metadata);
    let mut a = linux_artifact();
    a.name = "dir\\payload".into();
    assert_eq!(a.validate(&channel, "linux").unwrap_err(), metadata);
    let mut a = linux_artifact();
    a.size = 0;
    assert_eq!(a.validate(&channel, "linux").unwrap_err(), metadata);
    let mut a = linux_artifact();
    a.size = MAX_PAYLOAD_BYTES + 1;
    assert_eq!(a.validate(&channel, "linux").unwrap_err(), metadata);
    let mut a = linux_artifact();
    a.size = MAX_PAYLOAD_BYTES;
    assert!(a.validate(&channel, "linux").is_ok());
    let mut a = linux_artifact();
    a.sha256 = "g".repeat(64);
    assert_eq!(a.validate(&channel, "linux").unwrap_err(), metadata);
    let mut a = linux_artifact();
    a.sha256 = "A".repeat(64);
    assert!(a.validate(&channel, "linux").is_ok());
    let mut a = linux_artifact();
    a.entrypoint = "".into();
    assert_eq!(a.validate(&channel, "linux").unwrap_err(), metadata);
    assert_eq!(
        linux_artifact().check(&channel, "linux", false).unwrap_err(),
        metadata
    );
}

#[test]
fn payload_format_and_platform_errors() {
    let channel = linux_channel();
    assert_eq!(
        linux_artifact().validate(&channel, "freebsd").unwrap_err(),
        "This platform is not supported by online mode."
    );
    assert_eq!(
        linux_artifact().validate(&channel, "windows").unwrap_err(),
        "The online payload format does not match this platform."
    );
    assert_eq!(payload_kind("macos"), Some(("app.zip", "appBundle")));
    assert_eq!(payload_kind("plan9"), None);
}

#[test]
fn payload_url_errors() {
    let channel = linux_channel();
    let mut a = linux_artifact();
    a.download_url = "not a url".into();
    assert_eq!(
        a.validate(&channel, "linux").unwrap_err(),
        "The online payload URL is invalid: relative URL without a base"
    );
    let outside = "The online payload points outside its GitHub release.";
    for url in [
        "http://github.com/owner/repo/releases/download/pake-online-example/payload.appimage",
        "https://github.com/owner/repo/releases/download/other-tag/payload.appimage",
        "https://github.com/owner/repo/releases/download/pake-online-example/payload.appimage?x=1",
        "https://github.com/owner/repo/releases/download/pake-online-example/payload.appimage#f",
        "https://example.com/owner/repo/releases/download/pake-online-example/payload.appimage",
    ] {
        let mut a = linux_artifact();
        a.download_url = url.into();
        assert_eq!(a.validate(&channel, "linux").unwrap_err(), outside, "{url}");
    }
}

#[test]
fn manifest_errors_in_order() {
    let channel = linux_channel();
    let mut m = linux_manifest();
    assert!(m.validate(&channel, "linux").is_ok());
    m.schema_version = 37;
    assert_eq!(
        m.validate(&channel, "linux").unwrap_err(),
        "Unsupported online manifest schema: 37."
    );
    let mut m = linux_manifest();
    m.release_tag = "other".into();
    assert_eq!(
        m.validate(&channel, "linux").unwrap_err(),
        "The online manifest belongs to another release channel."
    );
    let mut m = linux_manifest();
    m.source.sha = "c".repeat(41);
    assert_eq!(
        m.validate(&channel, "linux").unwrap_err(),
        "The online manifest has an invalid source commit."
    );
    let mut m = linux_manifest();
    m.source.sha = "c".repeat(40);
    assert!(m.validate(&channel, "linux").is_ok());
    let mut m = linux_manifest();
    m.artifacts.push(linux_artifact());
    assert_eq!(
        m.validate(&channel, "linux").unwrap_err(),
        "The online manifest must contain exactly one payload."
    );
    let mut m = linux_manifest();
    m.artifacts.clear();
    assert!(m.validate(&channel, "linux").is_err());
}

#[test]
fn manifest_assets_are_filtered_and_stably_sorted() {
    let release = GithubRelease {
        assets: vec![
            asset(5, "pake-online-manifest-a.json", 10),
            asset(9, "pake-online-manifest-b.json", 0),
            asset(9, "pake-online-manifest-c.json", 1024 * 1024 + 1),
            asset(7, "payload.appimage", 10),
            asset(5, "pake-online-manifest-d.json", 1024 * 1024),
            asset(8, "pake-online-manifest-e.txt", 10),
            asset(6, "pake-online-manifest-f.json", 1),
        ],
    };
    let names: Vec<&str> = release
        .manifest_assets()
        .iter()
        .map(|a| a.name.as_str())
        .collect();
    assert_eq!(
        names,
        vec![
            "pake-online-manifest-f.json",
            "pake-online-manifest-a.json",
            "pake-online-manifest-d.json"
        ]
    );
    assert_eq!(release.manifest_asset_order(), vec![6, 0, 4]);
    assert!(GithubRelease { assets: vec![] }.manifest_assets().is_empty());
}

#[test]
fn release_asset_urls_stay_in_the_channel() {
    let channel = linux_channel();
    let good = asset(1, "pake-online-manifest-x.json", 10);
    assert!(validate_release_asset_url(&channel, &good).is_ok());
    let mut bad = good;
    bad.browser_download_url = "https://example.invalid/old".into();
    assert_eq!(
        validate_release_asset_url(&channel, &bad).unwrap_err(),
        "The release asset points outside its GitHub channel."
    );
    bad.browser_download_url = "::".into();
    assert_eq!(
        validate_release_asset_url(&channel, &bad).unwrap_err(),
        "The release asset URL is invalid: relative URL without a base"
    );
}

#[test]
fn proxy_url_errors() {
    assert_eq!(
        github_proxy_url("nonsense").unwrap_err(),
        "The GitHub download URL is invalid: relative URL without a base"
    );
    assert_eq!(
        github_proxy_url("https://a:99999/x").unwrap_err(),
        "The GitHub download URL is invalid: invalid port number"
    );
    assert_eq!(
        github_proxy_url("https://example.com/x").unwrap_err(),
        "Only HTTPS github.com downloads may use the proxy."
    );
}

#[test]
fn github_digests_lose_their_prefix() {
    let mut a = asset(1, "pake-online-manifest-x.json", 3);
    assert_eq!(manifest_digest(&a), None);
    assert!(!manifest_may_use_proxy(true, &a));
    a.digest = Some(format!("sha256:{ABC_SHA256}"));
    assert_eq!(manifest_digest(&a), Some(ABC_SHA256));
    assert!(manifest_may_use_proxy(true, &a));
    assert!(!manifest_may_use_proxy(false, &a));
    a.digest = Some("md5:abc".into());
    assert_eq!(manifest_digest(&a), None);
}

#[test]
fn manifest_bytes_are_checked_against_github_metadata() {
    let a = asset(1, "pake-online-manifest-x.json", 3);
    assert!(check_manifest_bytes(b"abc", &a, None).is_ok());
    assert!(check_manifest_bytes(b"abc", &a, Some(ABC_SHA256)).is_ok());
    assert!(check_manifest_bytes(b"abc", &a, Some(&ABC_SHA256.to_uppercase())).is_ok());
    assert_eq!(
        check_manifest_bytes(b"abd", &a, Some(ABC_SHA256)).unwrap_err(),
        "The online manifest failed GitHub digest verification."
    );
    assert_eq!(
        check_manifest_bytes(b"abcd", &a, Some(ABC_SHA256)).unwrap_err(),
        "The online manifest size does not match GitHub metadata."
    );
}

#[test]
fn sha256_hex_is_lower_case() {
    let digest: String = sha256_hex(b"abc").into_iter().collect();
    assert_eq!(digest, ABC_SHA256);
    let empty: String = sha256_hex(b"").into_iter().collect();
    assert_eq!(
        empty,
        "e3b0c44298fc1c149afbf4c8996fb92427ae41e4649b934ca495991b7852b855"
    );
}

#[test]
fn streamed_payload_matches_whole_payload() {
    let mut v = PayloadVerifier::start(Some(3), 3, ABC_SHA256).unwrap();
    assert!(v.accept_chunk(b"a").is_ok());
    assert!(v.accept_chunk(b"").is_ok());
    assert!(v.accept_chunk(b"bc").is_ok());
    assert!(v.finish().is_ok());

    let mut v = PayloadVerifier::start(None, 3, &ABC_SHA256.to_uppercase()).unwrap();
    assert!(v.accept_chunk(b"abc").is_ok());
    assert!(v.finish().is_ok());
}

#[test]
fn payload_size_and_digest_failures() {
    assert_eq!(
        PayloadVerifier::start(Some(4), 3, ABC_SHA256).err().unwrap(),
        "The payload response exceeds the manifest size."
    );
    let mut v = PayloadVerifier::start(None, 3, ABC_SHA256).unwrap();
    assert!(v.accept_chunk(b"ab").is_ok());
    assert_eq!(
        v.accept_chunk(b"cd").unwrap_err(),
        "The payload download exceeded the manifest size."
    );
    assert!(v.accept_chunk(b"c").is_ok());
    assert!(v.finish().is_ok());

    let mut v = PayloadVerifier::start(None, 3, ABC_SHA256).unwrap();
    assert!(v.accept_chunk(b"ab").is_ok());
    assert_eq!(
        v.finish().unwrap_err(),
        "The payload failed size or SHA-256 verification."
    );
    let mut v = PayloadVerifier::start(None, 3, &"0".repeat(64)).unwrap();
    assert!(v.accept_chunk(b"abc").is_ok());
    assert!(v.finish().is_err());
}

#[test]
fn bounded_body_holds_the_chunks_within_its_limit() {
    assert_eq!(
        BoundedBody::start(Some(11), 10).err().unwrap(),
        "The download exceeds its safety limit."
    );
    let mut body = BoundedBody::start(Some(10), 10).unwrap();
    assert!(body.push_chunk(b"hello").is_ok());
    assert!(body.push_chunk(b"world!").is_err());
    assert!(body.push_chunk(b"world").is_ok());
    assert!(body.push_chunk(b"").is_ok());
    assert!(body.push_chunk(b"!").is_err());
    assert_eq!(body.into_bytes(), b"helloworld".to_vec());
}

#[test]
fn cloudflare_trace_edge_cases() {
    assert_eq!(country_from_cloudflare_trace("loc= CN \r\nip=1"), Some("CN"));
    assert_eq!(country_from_cloudflare_trace("loc=USA\nloc=CN"), None);
    assert_eq!(country_from_cloudflare_trace("xloc=CN\nloc=DE"), Some("DE"));
    assert_eq!(country_from_cloudflare_trace("loc\nloc=FR=x"), None);
    assert_eq!(country_from_cloudflare_trace("loc=é"), Some("é"));
    assert_eq!(country_from_cloudflare_trace(""), None);
    assert_eq!(country_from_cloudflare_trace("\n\nloc=JP\n"), Some("JP"));
}

#[test]
fn relative_paths_stay_below_their_directory() {
    assert!(is_safe_relative_path("app.exe"));
    assert!(is_safe_relative_path("Example.app"));
    assert!(is_safe_relative_path("bin/app"));
    assert!(!is_safe_relative_path(""));
    assert!(!is_safe_relative_path("../outside"));
    assert!(!is_safe_relative_path("/etc/passwd"));
    assert!(!is_safe_relative_path("./app"));
    assert!(!is_safe_relative_path("bin/../../app"));
    assert!(!is_safe_relative_path("bin/.."));
    assert!(!is_safe_relative_path(".."));
    assert!(is_safe_relative_path("a..b"));
    assert!(is_safe_relative_path("bin/sub/app"));
    assert!(!is_safe_relative_path("."));
}

fn state(build_id: &str, launch_kind: &str) -> ActiveState {
    ActiveState {
        build_id: build_id.into(),
        source_sha: "d".repeat(40),
        entrypoint: "app.AppImage".into(),
        launch_kind: launch_kind.into(),
    }
}

#[test]
fn recorded_states_are_checked() {
    let build = "e".repeat(64);
    assert!(state_is_usable(&state(&build, "executable"), true));
    assert!(state_is_usable(&state(&build, "appBundle"), true));
    assert!(!state_is_usable(&state(&build, "executable"), false));
    assert!(!state_is_usable(&state(&build, "script"), true));
    assert!(!state_is_usable(&state("e", "executable"), true));
    let mut s = state(&build, "executable");
    s.entrypoint = "../app".into();
    assert!(!state_is_usable(&s, true));
    let escaping = ActiveState {
        build_id: "a".repeat(64),
        source_sha: "b".repeat(40),
        entrypoint: "../app.exe".into(),
        launch_kind: "executable".into(),
    };
    assert!(!state_is_usable(&escaping, true));
}

#[test]
fn installed_state_is_accepted_by_a_later_run() {
    let m = linux_manifest();
    assert!(m.validate(&linux_channel(), "linux").is_ok());
    let s = installed_state(&m);
    assert_eq!(s.build_id, "b".repeat(64));
    assert_eq!(s.source_sha, "c".repeat(64));
    assert_eq!(s.entrypoint, "app.AppImage");
    assert_eq!(s.launch_kind, "executable");
    assert!(state_is_usable(&s, true));
}

#[test]
fn each_run_launches_one_build() {
    let m = linux_manifest();
    let newest = state(&"b".repeat(64), "executable");
    let older = state(&"e".repeat(64), "executable");
    assert_eq!(
        plan_update(Some(&newest), true, &m),
        UpdatePlan::AlreadyCurrent {
            launch_cached: false
        }
    );
    assert_eq!(
        plan_update(Some(&newest), false, &m),
        UpdatePlan::AlreadyCurrent {
            launch_cached: true
        }
    );
    assert_eq!(
        plan_update(Some(&older), true, &m),
        UpdatePlan::Install {
            launch_installed: false
        }
    );
    assert_eq!(
        plan_update(Some(&older), false, &m),
        UpdatePlan::Install {
            launch_installed: true
        }
    );
    assert_eq!(
        plan_update(None, false, &m),
        UpdatePlan::Install {
            launch_installed: true
        }
    );
}

#[test]
fn cleanup_keeps_active_builds_and_staging() {
    let previous = state(&"e".repeat(64), "executable");
    let keep = versions_to_keep("new", Some(&previous));
    assert_eq!(keep, vec!["new".to_string(), "e".repeat(64)]);
    assert!(should_keep_version("new", &keep));
    assert!(should_keep_version(&"e".repeat(64), &keep));
    assert!(should_keep_version(".staging-abc-12", &keep));
    assert!(!should_keep_version("old", &keep));
    assert_eq!(versions_to_keep("only", None), vec!["only".to_string()]);
}

#[test]
fn stale_locks_are_half_an_hour_old() {
    assert!(!lock_is_stale(None));
    assert!(!lock_is_stale(Some(1799)));
    assert!(lock_is_stale(Some(1800)));
}

#[test]
fn activation_follows_launch_kind_and_format() {
    let mut a = linux_artifact();
    assert_eq!(activation_for(&a), Activation::MoveExecutable);
    a.format = "exe.zip".into();
    assert_eq!(activation_for(&a), Activation::ExtractZipExecutable);
    a.launch_kind = "appBundle".into();
    assert_eq!(activation_for(&a), Activation::ExtractBundle);
}

#[test]
fn zip_payload_checks() {
    assert!(check_zip_entry_count(1).is_ok());
    assert_eq!(
        check_zip_entry_count(2).unwrap_err(),
        "The payload ZIP must contain exactly one executable."
    );
    assert!(check_zip_member(Some(true), false, 15).is_ok());
    assert_eq!(
        check_zip_member(None, false, 15).unwrap_err(),
        "The payload ZIP contains an unsafe path."
    );
    let invalid = "The payload ZIP executable metadata is invalid.";
    assert_eq!(check_zip_member(Some(false), false, 15).unwrap_err(), invalid);
    assert_eq!(check_zip_member(Some(true), true, 15).unwrap_err(), invalid);
    assert_eq!(check_zip_member(Some(true), false, 0).unwrap_err(), invalid);
    assert_eq!(
        check_zip_member(Some(true), false, MAX_EXPANDED_PAYLOAD_BYTES + 1).unwrap_err(),
        invalid
    );
}

#[test]
fn only_failed_proxy_downloads_are_retried() {
    assert!(retry_directly(false, true));
    assert!(!retry_directly(true, true));
    assert!(!retry_directly(false, false));
}

#[test]
fn trimming_removes_unicode_white_space() {
    assert_eq!(trimmed("\u{a0} a b \u{2009}\r\n"), "a b");
    assert_eq!(trimmed("   "), "");
    assert_eq!(trimmed("x"), "x");
}

#[test]
fn nested_entrypoints_are_accepted_and_dot_entrypoints_refused() {
    let channel = linux_channel();
    let mut a = linux_artifact();
    a.entrypoint = "usr/bin/app".into();
    assert!(a.validate(&channel, "linux").is_ok());
    a.entrypoint = "./app".into();
    assert_eq!(
        a.validate(&channel, "linux").unwrap_err(),
        "The online payload metadata is invalid."
    );
}

#[test]
fn state_acceptance_rule_takes_the_path_verdict() {
    let s = state(&"e".repeat(64), "executable");
    assert!(state_is_accepted(&s, true, true));
    assert!(!state_is_accepted(&s, false, true));
    assert!(!state_is_accepted(&s, true, false));
}

#[test]
fn staging_directories_are_named_for_cleanup() {
    let sha = "0123456789ab".to_string() + &"f".repeat(52);
    let name = staging_directory_name(&sha, 4711);
    assert_eq!(name, ".staging-0123456789ab-4711");
    assert!(should_keep_version(&name, &vec![]));
}

#[test]
fn first_install_wait_gives_up_after_two_minutes() {
    assert!(wait_for_install_again(0));
    assert!(wait_for_install_again(119));
    assert!(!wait_for_install_again(120));
}

fn zip_archive(entries: &[(&str, &[u8])]) -> Vec<u8> {
    let mut writer = zip::ZipWriter::new(std::io::Cursor::new(Vec::new()));
    for (name, data) in entries {
        writer
            .start_file(*name, zip::write::SimpleFileOptions::default())
            .unwrap();
        std::io::Write::write_all(&mut writer, data).unwrap();
    }
    writer.finish().unwrap().into_inner()
}

#[test]
fn zip_payload_accepts_the_declared_entry_only() {
    let archive = zip_archive(&[("bin/app.exe", b"payload")]);
    assert!(check_zip_payload(&archive, "bin/app.exe").is_ok());
    assert_eq!(
        check_zip_payload(&archive, "app.exe").unwrap_err(),
        "The payload ZIP executable metadata is invalid."
    );
}

#[test]
fn zip_payload_refuses_broken_and_crowded_archives() {
    let invalid = check_zip_payload(b"not a zip archive", "app.exe").unwrap_err();
    assert!(invalid.starts_with("The payload ZIP is invalid: "));
    assert!(invalid.len() > "The payload ZIP is invalid: ".len());
    let two = zip_archive(&[("app.exe", b"a"), ("other.exe", b"b")]);
    assert_eq!(
        check_zip_payload(&two, "app.exe").unwrap_err(),
        "The payload ZIP must contain exactly one executable."
    );
    let none = zip_archive(&[]);
    assert_eq!(
        check_zip_payload(&none, "app.exe").unwrap_err(),
        "The payload ZIP must contain exactly one executable."
    );
}

#[test]
fn zip_payload_refuses_escaping_directory_and_empty_entries() {
    let escaping = zip_archive(&[("../app.exe", b"payload")]);
    assert_eq!(
        check_zip_payload(&escaping, "../app.exe").unwrap_err(),
        "The payload ZIP contains an unsafe path."
    );
    let absolute = zip_archive(&[("/app.exe", b"payload")]);
    assert_eq!(
        check_zip_payload(&absolute, "/app.exe").unwrap_err(),
        "The payload ZIP contains an unsafe path."
    );
    let empty = zip_archive(&[("app.exe", b"")]);
    assert_eq!(
        check_zip_payload(&empty, "app.exe").unwrap_err(),
        "The payload ZIP executable metadata is invalid."
    );
    let directory = zip_archive(&[("app.exe/", b"")]);
    assert_eq!(
        check_zip_payload(&directory, "app.exe/").unwrap_err(),
        "The payload ZIP executable metadata is invalid."
    );
}

#[test]
fn zip_extraction_returns_the_entry_data() {
    let archive = zip_archive(&[("app.exe", b"test executable")]);
    let mut value = linux_artifact();
    value.format = "exe.zip".into();
    value.entrypoint = "app.exe".into();
    assert_eq!(
        extract_single_executable(&value, &archive).unwrap(),
        b"test executable".to_vec()
    );
    value.entrypoint = "other.exe".into();
    assert_eq!(
        extract_single_executable(&value, &archive).unwrap_err(),
        "The payload ZIP executable metadata is invalid."
    );
}

#[test]
fn staging_name_takes_the_first_twelve_characters() {
    assert_eq!(
        staging_directory_name("abcdefghijkl-rest", 7),
        ".staging-abcdefghijkl-7"
    );
    assert_eq!(
        staging_directory_name(ABC_SHA256, 4242),
        ".staging-ba7816bf8f01-4242"
    );
}

#[test]
fn entrypoints_with_repeated_or_trailing_separators_are_safe() {
    assert!(is_safe_relative_path("a/"));
    assert!(is_safe_relative_path("a//b"));
    assert!(is_safe_relative_path("a/./b"));
    assert!(!is_safe_relative_path("./a"));
    assert!(!is_safe_relative_path("a/../../b"));
}

#[test]
fn markers_apply_only_inside_the_versions_tree() {
    assert!(marker_applies(
        "/cache/versions/digest/app.exe",
        "/cache",
        "/cache/bootstrap.exe",
        true
    ));
    assert!(!marker_applies(
        "/cache/unrelated/app.exe",
        "/cache",
        "/cache/bootstrap.exe",
        true
    ));
    assert!(!marker_applies(
        "/cache/versions/digest/app.exe",
        "/cache",
        "bootstrap.exe",
        true
    ));
    assert!(!marker_applies(
        "/cache/versions/digest/app.exe",
        "/cache",
        "/cache/bootstrap.exe",
        false
    ));
}

#[test]
fn install_steps_verify_before_activating() {
    let mut step = InstallStep::LookForCachedBuild;
    let mut seen = Vec::new();
    for (succeeded, present) in [
        (true, false),
        (true, false),
        (true, false),
        (true, false),
        (true, true),
        (true, false),
        (true, false),
    ] {
        step = next_install_step(step, succeeded, present);
        seen.push(step);
    }
    assert_eq!(
        seen,
        vec![
            InstallStep::PrepareStaging,
            InstallStep::DownloadVerified,
            InstallStep::Activate,
            InstallStep::ConfirmEntrypoint,
            InstallStep::CheckDestination,
            InstallStep::MoveIntoPlace,
            InstallStep::Installed,
        ]
    );
    assert_eq!(
        next_install_step(InstallStep::DownloadVerified, false, false),
        InstallStep::Abandon
    );
    assert_eq!(
        next_install_step(InstallStep::LookForCachedBuild, true, true),
        InstallStep::Installed
    );
    assert_eq!(
        next_install_step(InstallStep::PrepareStaging, false, false),
        InstallStep::Failed
    );
    assert_eq!(
        next_install_step(InstallStep::ConfirmEntrypoint, true, false),
        InstallStep::Abandon
    );
}
