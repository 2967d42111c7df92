use std::io::Write;

use pake_online::channel::ReleaseChannel;
use pake_online::install::extract_single_executable;
use pake_online::links::github_proxy_url;
use pake_online::manifest::{
    OnlineManifest, PayloadArtifact, Platform, SourceBuild, MANIFEST_SCHEMA_VERSION,
};
use pake_online::release::{GithubAsset, GithubRelease};
use pake_online::trace::country_from_cloudflare_trace;

/// The operating system these tests run on.
fn current_os() -> &'static str {
    "linux"
}

fn channel() -> ReleaseChannel {
    ReleaseChannel {
        repository: "owner/repo".into(),
        release_tag: "pake-online-example".into(),
        config_id: "example-windows-123".into(),
        os: current_os().into(),
    }
}

fn artifact() -> PayloadArtifact {
    let (format, entrypoint, launch_kind) = match current_os() {
        "windows" => ("exe.zip", "app.exe", "executable"),
        "macos" => ("app.zip", "Example.app", "appBundle"),
        "linux" => ("appimage", "app.AppImage", "executable"),
        _ => unreachable!(),
    };
    PayloadArtifact {
        name: format!("payload.{format}"),
        format: format.into(),
        size: 42,
        sha256: "a".repeat(64),
        download_url: format!(
            "https://github.com/owner/repo/releases/download/pake-online-example/payload.{format}"
        ),
        entrypoint: entrypoint.into(),
        launch_kind: launch_kind.into(),
    }
}

#[test]
fn validates_payload_bound_to_the_release_channel() {
    assert!(artifact().validate(&channel(), current_os()).is_ok());
}

#[test]
fn rejects_cross_repository_and_unsafe_entrypoints() {
    let mut value = artifact();
    value.download_url = value.download_url.replace("owner/repo", "other/repo");
    assert!(value.validate(&channel(), current_os()).is_err());

    let mut value = artifact();
    value.entrypoint = "../outside".into();
    assert!(value.validate(&channel(), current_os()).is_err());
}

#[test]
fn parses_cloudflare_country_without_using_the_locale() {
    assert_eq!(
        country_from_cloudflare_trace("fl=1\nloc=CN\ntls=TLSv1.3"),
        Some("CN")
    );
    assert_eq!(country_from_cloudflare_trace("loc=US"), Some("US"));
    assert_eq!(country_from_cloudflare_trace("ip=192.0.2.1"), None);
}

#[test]
fn proxies_only_https_github_downloads() {
    let source = "https://github.com/yumingyuan2/Pake/releases/download/channel/payload.exe";
    assert_eq!(
        github_proxy_url(source).unwrap(),
        format!("https://v4.gh-proxy.org/{source}")
    );
    assert!(github_proxy_url("https://example.com/payload.exe").is_err());
    assert!(github_proxy_url("http://github.com/owner/repo/payload.exe").is_err());
}

#[test]
fn selects_newest_bounded_manifest_first() {
    let release = GithubRelease {
        assets: vec![
            GithubAsset {
                id: 1,
                name: "pake-online-manifest-old.json".into(),
                size: 10,
                browser_download_url: "https://example.invalid/old".into(),
                digest: None,
            },
            GithubAsset {
                id: 2,
                name: "pake-online-manifest-new.json".into(),
                size: 10,
                browser_download_url: "https://example.invalid/new".into(),
                digest: None,
            },
        ],
    };
    assert_eq!(release.manifest_assets()[0].id, 2);
}

#[test]
fn validates_manifest_channel_and_schema() {
    let mut manifest = OnlineManifest {
        schema_version: MANIFEST_SCHEMA_VERSION,
        config_id: channel().config_id,
        repository: channel().repository,
        release_tag: channel().release_tag,
        source: SourceBuild {
            sha: "1234567890abcdef1234567890abcdef12345678".into(),
        },
        platform: Platform {
            os: current_os().into(),
        },
        artifacts: vec![artifact()],
    };
    assert!(manifest.validate(&channel(), current_os()).is_ok());
    manifest.schema_version += 1;
    assert!(manifest.validate(&channel(), current_os()).is_err());
}

/// A ZIP archive, in memory, of the given entries.
fn zip_of(entries: &[(&str, &[u8])]) -> Vec<u8> {
    let mut writer = zip::ZipWriter::new(std::io::Cursor::new(Vec::new()));
    for (name, data) in entries {
        writer
            .start_file(*name, zip::write::SimpleFileOptions::default())
            .unwrap();
        writer.write_all(data).unwrap();
    }
    writer.finish().unwrap().into_inner()
}

#[test]
fn extracts_only_the_declared_zip_executable() {
    let archive = zip_of(&[("app.exe", b"test executable")]);
    let value = PayloadArtifact {
        format: "exe.zip".into(),
        entrypoint: "app.exe".into(),
        ..artifact()
    };
    let extracted = extract_single_executable(&value, &archive);
    assert!(extracted.is_ok());
    assert_eq!(
        extracted.ok().as_deref(),
        Some(b"test executable".as_slice())
    );
}
