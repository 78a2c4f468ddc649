use llamafile_kit::errors::PipelineError;
use llamafile_kit::llamafile::{
    args_manifest, ensure_fresh_target, plan_asset_fetch, zipalign_args, zipalign_status,
    LlamafileBuilder, Runner,
};
use llamafile_kit::release::GithubReleaseAsset;

fn builder_with(output_dir: Option<&str>) -> LlamafileBuilder {
    LlamafileBuilder::new(
        "/work".to_string(),
        output_dir.map(|s| s.to_string()),
        None,
        None,
        false,
        false,
    )
}

#[test]
fn builder_derives_binary_paths_from_working_directory() {
    let b = builder_with(None);
    assert_eq!(b.llamafile_path, "/work/llamafile-server");
    assert_eq!(b.zipalign_path, "/work/zipalign");
}

#[test]
fn builder_keeps_provided_paths_only_when_both_are_usable() {
    let b = LlamafileBuilder::new(
        "/work".to_string(),
        None,
        Some("/bin/server".to_string()),
        Some("/bin/zipalign".to_string()),
        true,
        true,
    );
    assert_eq!(b.llamafile_path, "/bin/server");
    assert_eq!(b.zipalign_path, "/bin/zipalign");

    // One usable path alone is not enough: both fall back to the working
    // directory.
    let c = LlamafileBuilder::new(
        "/work".to_string(),
        None,
        Some("/bin/server".to_string()),
        Some("/bin/zipalign".to_string()),
        true,
        false,
    );
    assert_eq!(c.llamafile_path, "/work/llamafile-server");
    assert_eq!(c.zipalign_path, "/work/zipalign");
}

#[test]
fn asset_targets() {
    let b = builder_with(None);
    assert_eq!(
        b.asset_target(&GithubReleaseAsset::LlamafileServer),
        "/work/llamafile-server"
    );
    assert_eq!(b.asset_target(&GithubReleaseAsset::Zipalign), "/work/zipalign");
}

#[test]
fn args_manifest_text_is_exact() {
    assert_eq!(args_manifest("weights.gguf"), "\n-m\nweights.gguf\n--host\n0.0.0.0\n");
}

#[test]
fn zipalign_argument_list_is_exact() {
    let args = zipalign_args("out", "m.gguf", "/work/.args");
    assert_eq!(args, vec!["-j0", "out", "m.gguf", "/work/.args"]);
}

#[test]
fn existing_output_is_never_overwritten() {
    let b = builder_with(None);
    let models = vec!["dir/weights.gguf".to_string()];

    let e = b
        .plan_build(&models, Some("out.llamafile".to_string()), true, true, true, false)
        .unwrap_err();
    assert!(matches!(e, PipelineError::AlreadyExists(p) if p == "out.llamafile"));
}

#[test]
fn existing_args_file_is_never_overwritten() {
    let b = builder_with(None);
    let models = vec!["dir/weights.gguf".to_string()];

    let e = b
        .plan_build(&models, Some("out.llamafile".to_string()), true, true, false, true)
        .unwrap_err();
    assert!(matches!(e, PipelineError::AlreadyExists(p) if p == "/work/.args"));
}

#[test]
fn fresh_target_guard_refuses_occupied_paths() {
    assert!(ensure_fresh_target("p", false).is_ok());
    let e = ensure_fresh_target("p", true).unwrap_err();
    assert!(matches!(e, PipelineError::AlreadyExists(q) if q == "p"));
}

#[test]
fn nonzero_alignment_exit_is_a_build_error() {
    assert!(zipalign_status(true).is_ok());
    let e = zipalign_status(false).unwrap_err();
    assert!(matches!(e, PipelineError::Build(_)));
}

#[test]
fn release_binaries_are_fetched_executable_into_fresh_paths() {
    let f = plan_asset_fetch(&GithubReleaseAsset::LlamafileServer, "./llamafile-server", false)
        .unwrap();
    assert_eq!(f.prefix, "llamafile-server");
    assert_eq!(f.dest, "./llamafile-server");
    assert!(f.make_executable);

    let z = plan_asset_fetch(&GithubReleaseAsset::Zipalign, "/work/zipalign", false).unwrap();
    assert_eq!(z.prefix, "zipalign");

    let e = plan_asset_fetch(&GithubReleaseAsset::Zipalign, "/work/zipalign", true).unwrap_err();
    assert!(matches!(e, PipelineError::AlreadyExists(p) if p == "/work/zipalign"));
}

#[test]
fn build_without_any_output_location_is_refused() {
    let b = builder_with(None);
    let models = vec!["weights.gguf".to_string()];
    let e = b.plan_build(&models, None, true, true, false, false).unwrap_err();
    assert!(matches!(e, PipelineError::Build(_)));
}

#[test]
fn full_plan_is_exact() {
    let b = builder_with(Some("outdir"));
    let models = vec!["dir/weights.gguf".to_string(), "other.gguf".to_string()];
    let plan = b.plan_build(&models, None, false, true, false, false).unwrap();

    assert!(plan.fetch_server);
    assert!(!plan.fetch_zipalign);
    assert_eq!(plan.server_path, "/work/llamafile-server");
    assert_eq!(plan.output_path, "outdir/weights");
    assert_eq!(plan.args_path, "/work/.args");
    assert_eq!(plan.args_content, "\n-m\nweights.gguf\n--host\n0.0.0.0\n");
    assert_eq!(plan.zipalign_path, "/work/zipalign");
    assert_eq!(
        plan.zipalign_args,
        vec!["-j0", "outdir/weights", "dir/weights.gguf", "/work/.args"]
    );
}

#[test]
fn explicit_output_wins_over_output_dir() {
    let b = builder_with(Some("outdir"));
    let models = vec!["weights.gguf".to_string()];
    let plan = b
        .plan_build(&models, Some("explicit.out".to_string()), true, true, false, false)
        .unwrap();
    assert_eq!(plan.output_path, "explicit.out");
}

#[test]
fn runner_requires_an_existing_binary() {
    let e = Runner::new("./llamafile-server".to_string(), false).unwrap_err();
    assert!(matches!(e, PipelineError::NotFound(p) if p == "./llamafile-server"));

    let r = Runner::new("./llamafile-server".to_string(), true).unwrap();
    assert_eq!(r.llama_path, "./llamafile-server");
    assert_eq!(r.run_args("m.gguf"), vec!["-m", "m.gguf"]);
}
