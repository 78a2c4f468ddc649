//! Resolving a logical asset name against a release manifest.
//!
//! A release manifest is the parsed form of the release-hosting API's answer:
//! an ordered list of named assets, each with a download URL.  An asset is
//! chosen by prefix: the first asset whose name starts with the requested
//! prefix wins, and no match at all is an error.

use vstd::prelude::*;
use vstd::string::*;

use crate::errors::PipelineError;
use crate::paths::str_starts_with;

verus! {

/// One asset of a release: its name and where its bytes can be fetched.
#[derive(Debug)]
pub struct ReleaseAsset {
    /// The asset's file name within the release.
    pub name: String,
    /// The URL its content is downloaded from.
    pub download_url: String,
}

/// The latest release of the upstream repository: its assets, in the order
/// the release-hosting API listed them.
#[derive(Debug)]
pub struct ReleaseManifest {
    /// The release's assets.
    pub assets: Vec<ReleaseAsset>,
}

/// The two binaries the pipeline obtains from upstream releases: the serving
/// executable and the alignment tool.  Each names the prefix its release
/// asset is looked up by.
#[derive(Debug, Clone, Copy, PartialEq, Eq)]
pub enum GithubReleaseAsset {
    /// The model-serving binary.
    LlamafileServer,
    /// The alignment tool that rewrites an executable-plus-model bundle.
    Zipalign,
}

impl GithubReleaseAsset {
    /// The prefix this asset is resolved by in a release manifest.
    pub fn prefix(&self) -> (r: String)
        ensures
            *self is LlamafileServer ==> r@ == "llamafile-server"@,
            *self is Zipalign ==> r@ == "zipalign"@,
    {
        match self {
            GithubReleaseAsset::LlamafileServer => "llamafile-server".to_owned(),
            GithubReleaseAsset::Zipalign => "zipalign".to_owned(),
        }
    }
}

/// Whether the asset at index `i` is the one a prefix search for `prefix`
/// selects: its name starts with the prefix, and no earlier asset's does.
pub open spec fn found_at(assets: Seq<ReleaseAsset>, prefix: Seq<char>, i: int) -> bool {
    &&& 0 <= i < assets.len()
    &&& prefix.is_prefix_of(assets[i].name@)
    &&& forall|j: int| 0 <= j < i ==> !prefix.is_prefix_of(#[trigger] assets[j].name@)
}

/// Selects the first asset of `manifest` whose name starts with `prefix`.
///
/// Succeeds exactly when some asset name starts with the prefix, and then
/// returns the earliest such asset; otherwise the prefix is reported in an
/// `AssetNotFound` error.
pub fn resolve_asset<'a>(manifest: &'a ReleaseManifest, prefix: &str) -> (r: Result<
    &'a ReleaseAsset,
    PipelineError,
>)
    ensures
        r is Ok <==> exists|i: int|
            0 <= i < manifest.assets@.len() && prefix@.is_prefix_of(
                #[trigger] manifest.assets@[i].name@,
            ),
        r matches Ok(a) ==> exists|i: int| found_at(manifest.assets@, prefix@, i) && *a
            == manifest.assets@[i],
        r matches Err(e) ==> (e matches PipelineError::AssetNotFound(p) && p@ == prefix@),
{
    let n = manifest.assets.len();
    let mut i: usize = 0;
    while i < n
        invariant
            0 <= i <= n,
            n == manifest.assets@.len(),
            forall|j: int| 0 <= j < i ==> !prefix@.is_prefix_of(#[trigger] manifest.assets@[j].name@),
        decreases n - i,
    {
        let asset = &manifest.assets[i];
        if str_starts_with(asset.name.as_str(), prefix) {
            return Ok(asset);
        }
        i = i + 1;
    }
    Err(PipelineError::AssetNotFound(prefix.to_owned()))
}

} // verus!
