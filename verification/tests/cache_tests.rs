use llamafile_kit::cache::{hf_download_url, ModelSource, Models};
use llamafile_kit::errors::PipelineError;
use llamafile_kit::paths::{file_name_stem, join_path, str_last_segment, str_starts_with};

#[test]
fn default_cache_root() {
    let m = Models::new(None);
    assert_eq!(m.base_dir, "./models/");
    let n = Models::new(Some("/data/models".to_string()));
    assert_eq!(n.base_dir, "/data/models");
}

#[test]
fn local_path_is_returned_unchanged_when_present() {
    let m = Models::new(None);
    let src = ModelSource::LocalPath("/tmp/weights.gguf".to_string());
    let plan = m.plan_resolve(&src, true).unwrap();
    assert_eq!(plan.path, "/tmp/weights.gguf");
    assert!(plan.download.is_none());
}

#[test]
fn absent_local_path_is_not_found() {
    let m = Models::new(None);
    let src = ModelSource::LocalPath("/tmp/missing.gguf".to_string());
    let e = m.plan_resolve(&src, false).unwrap_err();
    assert!(matches!(e, PipelineError::NotFound(p) if p == "/tmp/missing.gguf"));
}

#[test]
fn remote_url_cache_key_is_the_final_segment() {
    let m = Models::new(None);
    let src = ModelSource::RemoteUrl("http://host/dir/weights.gguf".to_string());
    let plan = m.plan_resolve(&src, false).unwrap();
    assert_eq!(plan.path, "./models/weights.gguf");
    let d = plan.download.unwrap();
    assert_eq!(d.url, "http://host/dir/weights.gguf");
    assert_eq!(d.dest, "./models/weights.gguf");
    assert!(d.create_dir.is_none());
    assert!(!d.make_executable);
}

#[test]
fn present_remote_url_is_not_downloaded() {
    let m = Models::new(None);
    let src = ModelSource::RemoteUrl("http://host/dir/weights.gguf".to_string());
    let plan = m.plan_resolve(&src, true).unwrap();
    assert_eq!(plan.path, "./models/weights.gguf");
    assert!(plan.download.is_none());
}

#[test]
fn hosted_file_is_cached_under_repository_and_file() {
    let m = Models::new(Some("cache".to_string()));
    let src = ModelSource::HostedFile("org/repo".to_string(), "weights.gguf".to_string());
    let plan = m.plan_resolve(&src, false).unwrap();
    assert_eq!(plan.path, "cache/org/repo/weights.gguf");
    let d = plan.download.unwrap();
    assert_eq!(
        d.url,
        "https://huggingface.co/org/repo/resolve/main/weights.gguf?download=true"
    );
    assert_eq!(d.dest, "cache/org/repo/weights.gguf");
    assert_eq!(d.create_dir.unwrap(), "cache/org/repo");
    assert!(!d.make_executable);
}

#[test]
fn resolving_twice_downloads_once() {
    let m = Models::new(None);
    let mut present: Vec<String> = Vec::new();

    let url_src = ModelSource::RemoteUrl("http://host/w.gguf".to_string());
    let (path1, downloaded1) = m.resolve_with_state(&url_src, &mut present).unwrap();
    assert!(downloaded1);
    let (path2, downloaded2) = m.resolve_with_state(&url_src, &mut present).unwrap();
    assert!(!downloaded2);
    assert_eq!(path1, path2);
    assert_eq!(present.len(), 1);

    let hf_src = ModelSource::HostedFile("org/repo".to_string(), "w.gguf".to_string());
    let (p1, d1) = m.resolve_with_state(&hf_src, &mut present).unwrap();
    assert!(d1);
    let (p2, d2) = m.resolve_with_state(&hf_src, &mut present).unwrap();
    assert!(!d2);
    assert_eq!(p1, p2);
    assert_eq!(present.len(), 2);
}

#[test]
fn local_paths_are_never_downloaded_even_in_state() {
    let m = Models::new(None);
    let mut present: Vec<String> = vec!["/tmp/here.gguf".to_string()];

    let here = ModelSource::LocalPath("/tmp/here.gguf".to_string());
    let (path, downloaded) = m.resolve_with_state(&here, &mut present).unwrap();
    assert_eq!(path, "/tmp/here.gguf");
    assert!(!downloaded);

    let gone = ModelSource::LocalPath("/tmp/gone.gguf".to_string());
    let e = m.resolve_with_state(&gone, &mut present).unwrap_err();
    assert!(matches!(e, PipelineError::NotFound(p) if p == "/tmp/gone.gguf"));
    assert_eq!(present.len(), 1);
}

#[test]
fn hf_url_template_is_exact() {
    assert_eq!(
        hf_download_url("org/repo", "f.gguf"),
        "https://huggingface.co/org/repo/resolve/main/f.gguf?download=true"
    );
}

#[test]
fn last_segment_edges() {
    assert_eq!(str_last_segment("http://h/a/b.bin"), "b.bin");
    assert_eq!(str_last_segment("nodash"), "nodash");
    assert_eq!(str_last_segment("ends/with/slash/"), "");
    assert_eq!(str_last_segment(""), "");
}

#[test]
fn join_path_edges() {
    assert_eq!(join_path("base", "x"), "base/x");
    assert_eq!(join_path("base/", "x"), "base/x");
    assert_eq!(join_path("base", "/abs"), "/abs");
    assert_eq!(join_path("", "x"), "x");
}

#[test]
fn file_name_stem_edges() {
    assert_eq!(file_name_stem("weights.gguf"), "weights");
    assert_eq!(file_name_stem("archive.tar.gz"), "archive.tar");
    assert_eq!(file_name_stem("noext"), "noext");
    assert_eq!(file_name_stem(".hidden"), ".hidden");
    assert_eq!(file_name_stem("trailing."), "trailing");
}

#[test]
fn starts_with_edges() {
    assert!(str_starts_with("zipalign-linux", "zipalign"));
    assert!(str_starts_with("zipalign", "zipalign"));
    assert!(!str_starts_with("zip", "zipalign"));
    assert!(str_starts_with("anything", ""));
    assert!(!str_starts_with("llamafile-server-v1", "zipalign"));
}
