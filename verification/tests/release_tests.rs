use llamafile_kit::errors::PipelineError;
use llamafile_kit::release::{resolve_asset, GithubReleaseAsset, ReleaseAsset, ReleaseManifest};

fn manifest(names: &[(&str, &str)]) -> ReleaseManifest {
    ReleaseManifest {
        assets: names
            .iter()
            .map(|(n, u)| ReleaseAsset {
                name: (*n).to_string(),
                download_url: (*u).to_string(),
            })
            .collect(),
    }
}

#[test]
fn prefix_match_picks_first_matching_asset() {
    let m = manifest(&[
        ("zipalign-linux", "http://host/zipalign-linux"),
        ("llamafile-server-v1", "http://host/llamafile-server-v1"),
    ]);

    let a = resolve_asset(&m, "zipalign").unwrap();
    assert_eq!(a.name, "zipalign-linux");
    assert_eq!(a.download_url, "http://host/zipalign-linux");

    let b = resolve_asset(&m, "llamafile-server").unwrap();
    assert_eq!(b.name, "llamafile-server-v1");
    assert_eq!(b.download_url, "http://host/llamafile-server-v1");
}

#[test]
fn prefix_match_earliest_wins_among_several() {
    let m = manifest(&[
        ("tool-a", "u0"),
        ("tool-b", "u1"),
        ("tool-b-later", "u2"),
    ]);
    let a = resolve_asset(&m, "tool-b").unwrap();
    assert_eq!(a.download_url, "u1");
    let b = resolve_asset(&m, "tool").unwrap();
    assert_eq!(b.download_url, "u0");
}

#[test]
fn prefix_match_no_asset_is_an_error() {
    let m = manifest(&[
        ("zipalign-linux", "u0"),
        ("llamafile-server-v1", "u1"),
    ]);
    let e = resolve_asset(&m, "nonexistent").unwrap_err();
    assert!(matches!(e, PipelineError::AssetNotFound(p) if p == "nonexistent"));
}

#[test]
fn prefix_match_on_empty_manifest_fails() {
    let m = manifest(&[]);
    let e = resolve_asset(&m, "zipalign").unwrap_err();
    assert!(matches!(e, PipelineError::AssetNotFound(_)));
}

#[test]
fn empty_prefix_matches_first_asset() {
    let m = manifest(&[("first", "u0"), ("second", "u1")]);
    let a = resolve_asset(&m, "").unwrap();
    assert_eq!(a.name, "first");
}

#[test]
fn release_asset_prefixes() {
    assert_eq!(GithubReleaseAsset::LlamafileServer.prefix(), "llamafile-server");
    assert_eq!(GithubReleaseAsset::Zipalign.prefix(), "zipalign");
}
