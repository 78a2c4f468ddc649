//! Planning the assembly of a standalone executable: a serving binary,
//! copied byte-for-byte into a fresh output file, an argument manifest
//! written beside it, and one invocation of the external alignment tool that
//! folds the model in.
//!
//! The assembler never overwrites: a build whose output file or manifest
//! file already exists is refused before anything is written.  The caller
//! carries the plan out; every path, the manifest text and the alignment
//! tool's argument list are fixed here, exactly.

use vstd::prelude::*;
use vstd::string::*;

use crate::errors::PipelineError;
use crate::paths::{file_name_stem, join_path, join_spec, last_segment, stem_of, str_last_segment};
use crate::release::GithubReleaseAsset;

verus! {

/// The argument manifest written beside an assembled executable: one
/// argument per line — the model flag with the model's file name, then the
/// host flag with the wildcard interface.
pub open spec fn args_manifest_spec(model_file_name: Seq<char>) -> Seq<char> {
    "\n-m\n"@ + model_file_name + "\n--host\n0.0.0.0\n"@
}

/// Renders the argument manifest for a model file name.
pub fn args_manifest(model_file_name: &str) -> (r: String)
    ensures
        r@ == args_manifest_spec(model_file_name@),
{
    "\n-m\n".to_owned().concat(model_file_name).concat("\n--host\n0.0.0.0\n")
}

/// The alignment tool's argument list: its no-parallelism flag, then the
/// output file, the model file, and the argument manifest.
pub fn zipalign_args(output: &str, model: &str, args_file: &str) -> (r: Vec<String>)
    ensures
        r@.len() == 4,
        r@[0]@ == "-j0"@,
        r@[1]@ == output@,
        r@[2]@ == model@,
        r@[3]@ == args_file@,
{
    let mut v: Vec<String> = Vec::new();
    v.push("-j0".to_owned());
    v.push(output.to_owned());
    v.push(model.to_owned());
    v.push(args_file.to_owned());
    v
}

/// Refuses a target path that is already occupied: the pipeline creates
/// outputs exactly once and never truncates what is there.
pub fn ensure_fresh_target(path: &str, present: bool) -> (r: Result<(), PipelineError>)
    ensures
        r is Ok <==> !present,
        r matches Err(e) ==> (e matches PipelineError::AlreadyExists(p) && p@ == path@),
{
    if present {
        Err(PipelineError::AlreadyExists(path.to_owned()))
    } else {
        Ok(())
    }
}

/// Judges the alignment tool's exit: anything but a successful exit is a
/// fatal build error, with no retry.
pub fn zipalign_status(exited_ok: bool) -> (r: Result<(), PipelineError>)
    ensures
        r is Ok <==> exited_ok,
        r matches Err(e) ==> e is Build,
{
    if exited_ok {
        Ok(())
    } else {
        Err(PipelineError::Build("the alignment tool exited with a failure status".to_owned()))
    }
}

/// One release-binary fetch: the prefix its release asset is resolved by,
/// the path the binary goes to, and that it is made executable there.
#[derive(Debug)]
pub struct AssetFetch {
    /// The asset-name prefix to resolve in the release manifest.
    pub prefix: String,
    /// Where the downloaded binary is written.
    pub dest: String,
    /// Release binaries are always fetched with the executable bit set.
    pub make_executable: bool,
}

/// Decides the fetch of a release binary into `dest`: refused when the
/// path is already occupied (never overwritten); otherwise the asset is
/// resolved by the binary's prefix and downloaded with the executable bit
/// set.
pub fn plan_asset_fetch(asset: &GithubReleaseAsset, dest: &str, present: bool) -> (r: Result<
    AssetFetch,
    PipelineError,
>)
    ensures
        r is Ok <==> !present,
        r matches Err(e) ==> (e matches PipelineError::AlreadyExists(p) && p@ == dest@),
        r matches Ok(f) ==> {
            &&& *asset is LlamafileServer ==> f.prefix@ == "llamafile-server"@
            &&& *asset is Zipalign ==> f.prefix@ == "zipalign"@
            &&& f.dest@ == dest@
            &&& f.make_executable
        },
{
    match ensure_fresh_target(dest, present) {
        Err(e) => Err(e),
        Ok(()) => Ok(
            AssetFetch { prefix: asset.prefix(), dest: dest.to_owned(), make_executable: true },
        ),
    }
}

/// Where an assembled executable goes: the explicitly requested output path
/// when one is given, else the model's stem under the output directory, else
/// nowhere (the build is refused).
pub open spec fn output_path_spec(
    output_dir: Option<String>,
    output: Option<String>,
    model0: Seq<char>,
) -> Seq<char> {
    match output {
        Some(o) => o@,
        None => match output_dir {
            Some(dir) => join_spec(dir@, stem_of(last_segment(model0))),
            None => Seq::empty(),
        },
    }
}

/// Whether any output location is determined at all.
pub open spec fn output_definable(output_dir: Option<String>, output: Option<String>) -> bool {
    output is Some || output_dir is Some
}

/// What a standalone-executable build will do, in order: fetch the serving
/// binary if it is missing, copy it into a fresh executable output file,
/// write the argument manifest into a fresh file beside it, fetch the
/// alignment tool if it is missing, and run the tool with exactly these
/// arguments.
#[derive(Debug)]
pub struct BuildPlan {
    /// Whether the serving binary must first be downloaded to `server_path`.
    pub fetch_server: bool,
    /// The serving binary that the output starts as a copy of.
    pub server_path: String,
    /// The output file; created fresh with executable permission bits.
    pub output_path: String,
    /// The manifest file; created fresh next to the build's working data.
    pub args_path: String,
    /// The manifest's exact text.
    pub args_content: String,
    /// Whether the alignment tool must first be downloaded to
    /// `zipalign_path`.
    pub fetch_zipalign: bool,
    /// The alignment tool to invoke; marked executable before the call.
    pub zipalign_path: String,
    /// The tool's argument list.
    pub zipalign_args: Vec<String>,
}

/// The assembler's fixed locations: a working directory for transient
/// files, an optional directory for named outputs, and where the serving
/// binary and the alignment tool live (or will be downloaded to).
#[derive(Debug)]
pub struct LlamafileBuilder {
    /// The transient working directory; holds the argument manifest and,
    /// when no better paths are known, the two downloaded binaries.
    pub temp_dir: String,
    /// Where outputs named after their model are placed, if given.
    pub output_dir: Option<String>,
    /// The serving binary's path.
    pub llamafile_path: String,
    /// The alignment tool's path.
    pub zipalign_path: String,
}

impl LlamafileBuilder {
    /// Chooses the assembler's paths.  The provided binary paths are used
    /// only when both name existing files (`server_ok`, `zipalign_ok`);
    /// otherwise both binaries live under the working directory, under
    /// their conventional names.
    pub fn new(
        temp_dir: String,
        output_dir: Option<String>,
        llamafile_path: Option<String>,
        zipalign_path: Option<String>,
        server_ok: bool,
        zipalign_ok: bool,
    ) -> (r: LlamafileBuilder)
        requires
            server_ok ==> llamafile_path is Some,
            zipalign_ok ==> zipalign_path is Some,
        ensures
            r.temp_dir@ == temp_dir@,
            r.output_dir == output_dir,
            server_ok && zipalign_ok ==> r.llamafile_path@ == llamafile_path->0@
                && r.zipalign_path@ == zipalign_path->0@,
            !(server_ok && zipalign_ok) ==> r.llamafile_path@ == join_spec(
                temp_dir@,
                "llamafile-server"@,
            ) && r.zipalign_path@ == join_spec(temp_dir@, "zipalign"@),
    {
        if server_ok && zipalign_ok {
            let server = match llamafile_path {
                Some(p) => p,
                None => String::new(),
            };
            let zipalign = match zipalign_path {
                Some(p) => p,
                None => String::new(),
            };
            LlamafileBuilder { temp_dir, output_dir, llamafile_path: server, zipalign_path: zipalign }
        } else {
            let server = join_path(temp_dir.as_str(), "llamafile-server");
            let zipalign = join_path(temp_dir.as_str(), "zipalign");
            LlamafileBuilder { temp_dir, output_dir, llamafile_path: server, zipalign_path: zipalign }
        }
    }

    /// The path an assembled executable will be written to: the requested
    /// output if any, else the model's stem under the output directory;
    /// with neither, the build cannot proceed.
    pub fn get_output_path(&self, model_path: &str, output: Option<String>) -> (r: Result<
        String,
        PipelineError,
    >)
        requires
            output is None && self.output_dir is Some ==> last_segment(model_path@).len() > 0,
        ensures
            r is Ok <==> output_definable(self.output_dir, output),
            r matches Ok(p) ==> p@ == output_path_spec(self.output_dir, output, model_path@),
            r is Err ==> r matches Err(PipelineError::Build(_)),
    {
        match output {
            Some(o) => Ok(o),
            None => match &self.output_dir {
                Some(dir) => {
                    let name = str_last_segment(model_path);
                    let stem = file_name_stem(name.as_str());
                    Ok(join_path(dir.as_str(), stem.as_str()))
                },
                None => Err(
                    PipelineError::Build(
                        "neither an output directory nor an output path was given".to_owned(),
                    ),
                ),
            },
        }
    }

    /// Where a freshly downloaded release asset belongs: the serving
    /// binary's path or the alignment tool's, by the asset asked for.
    pub fn asset_target<'a>(&'a self, asset: &GithubReleaseAsset) -> (r: &'a String)
        ensures
            *asset is LlamafileServer ==> r@ == self.llamafile_path@,
            *asset is Zipalign ==> r@ == self.zipalign_path@,
    {
        match asset {
            GithubReleaseAsset::LlamafileServer => &self.llamafile_path,
            GithubReleaseAsset::Zipalign => &self.zipalign_path,
        }
    }

    /// Decides a whole standalone-executable build.
    ///
    /// Only the first model is wired into the run configuration (the
    /// documented single-model limitation).  The build is refused when no
    /// output location is determined, and — never overwriting — when the
    /// output file or the manifest file already exists.
    pub fn plan_build(
        &self,
        models: &Vec<String>,
        output: Option<String>,
        server_present: bool,
        zipalign_present: bool,
        output_exists: bool,
        args_exists: bool,
    ) -> (r: Result<BuildPlan, PipelineError>)
        requires
            models@.len() > 0,
            output is None && self.output_dir is Some ==> last_segment(models@[0]@).len() > 0,
        ensures
            r is Ok <==> (output_definable(self.output_dir, output) && !output_exists
                && !args_exists),
            !output_definable(self.output_dir, output) ==> r matches Err(
                PipelineError::Build(_),
            ),
            output_definable(self.output_dir, output) && output_exists ==> (r matches Err(
                PipelineError::AlreadyExists(p),
            ) && p@ == output_path_spec(self.output_dir, output, models@[0]@)),
            output_definable(self.output_dir, output) && !output_exists && args_exists ==> (
            r matches Err(PipelineError::AlreadyExists(p)) && p@ == join_spec(
                self.temp_dir@,
                ".args"@,
            )),
            r matches Ok(plan) ==> {
                &&& plan.fetch_server == !server_present
                &&& plan.server_path@ == self.llamafile_path@
                &&& plan.output_path@ == output_path_spec(self.output_dir, output, models@[0]@)
                &&& plan.args_path@ == join_spec(self.temp_dir@, ".args"@)
                &&& plan.args_content@ == args_manifest_spec(last_segment(models@[0]@))
                &&& plan.fetch_zipalign == !zipalign_present
                &&& plan.zipalign_path@ == self.zipalign_path@
                &&& plan.zipalign_args@.len() == 4
                &&& plan.zipalign_args@[0]@ == "-j0"@
                &&& plan.zipalign_args@[1]@ == plan.output_path@
                &&& plan.zipalign_args@[2]@ == models@[0]@
                &&& plan.zipalign_args@[3]@ == plan.args_path@
            },
    {
        let model0 = &models[0];
        let output_path = match self.get_output_path(model0.as_str(), output) {
            Ok(p) => p,
            Err(e) => {
                return Err(e);
            },
        };
        if output_exists {
            return Err(PipelineError::AlreadyExists(output_path));
        }
        let args_path = join_path(self.temp_dir.as_str(), ".args");
        if args_exists {
            return Err(PipelineError::AlreadyExists(args_path));
        }
        let model_name = str_last_segment(model0.as_str());
        let args_content = args_manifest(model_name.as_str());
        let zargs = zipalign_args(output_path.as_str(), model0.as_str(), args_path.as_str());
        Ok(
            BuildPlan {
                fetch_server: !server_present,
                server_path: self.llamafile_path.clone(),
                output_path,
                args_path,
                args_content,
                fetch_zipalign: !zipalign_present,
                zipalign_path: self.zipalign_path.clone(),
                zipalign_args: zargs,
            },
        )
    }
}

/// Runs an assembled or downloaded serving binary against a model.
#[derive(Debug)]
pub struct Runner {
    /// The serving binary to launch.
    pub llama_path: String,
}

impl Runner {
    /// A runner for the binary at `llama_path`; refused when the path does
    /// not exist (`present` is the caller's existence check).
    pub fn new(llama_path: String, present: bool) -> (r: Result<Runner, PipelineError>)
        ensures
            r is Ok <==> present,
            r matches Ok(run) ==> run.llama_path@ == llama_path@,
            r matches Err(e) ==> (e matches PipelineError::NotFound(p) && p@ == llama_path@),
    {
        if present {
            Ok(Runner { llama_path })
        } else {
            Err(PipelineError::NotFound(llama_path))
        }
    }

    /// The argument list the binary is launched with: the model flag and
    /// the model's path.
    pub fn run_args(&self, model_path: &str) -> (r: Vec<String>)
        ensures
            r@.len() == 2,
            r@[0]@ == "-m"@,
            r@[1]@ == model_path@,
    {
        let mut v: Vec<String> = Vec::new();
        v.push("-m".to_owned());
        v.push(model_path.to_owned());
        v
    }
}

} // verus!
