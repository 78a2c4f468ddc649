//! The model cache: mapping a model reference to a local file path,
//! downloading only when the path is not already present.
//!
//! Presence is purely existence-based — a path that exists is never fetched
//! again and its content is not inspected.  The filesystem itself is the
//! caller's side: `plan_resolve` takes the one existence bit the decision
//! needs and returns what to do, and `resolve_with_state` runs the same
//! decision against an explicit in-memory record of present paths, so the
//! caching behaviour is provable and testable without a disk.

use vstd::prelude::*;
use vstd::string::*;

use crate::errors::PipelineError;
use crate::paths::{join_path, join_spec, last_segment, str_last_segment};

verus! {

/// A reference to a model weights file: a path on disk, a plain URL, or a
/// (repository, file name) pair on the model-hosting service.
#[derive(Debug)]
pub enum ModelSource {
    /// An existing local file; never copied or downloaded.
    LocalPath(String),
    /// A remote file, cached under the final segment of its URL.
    RemoteUrl(String),
    /// A file inside a hosted model repository, cached under
    /// `repository/file` below the cache root.
    HostedFile(String, String),
}

/// The local path a source resolves to, under the cache root `base`.
pub open spec fn resolve_path_spec(base: Seq<char>, source: ModelSource) -> Seq<char> {
    match source {
        ModelSource::LocalPath(p) => p@,
        ModelSource::RemoteUrl(u) => join_spec(base, last_segment(u@)),
        ModelSource::HostedFile(repo, file) => join_spec(join_spec(base, repo@), file@),
    }
}

/// The URL a cache miss downloads from.  A hosted file's URL is templated
/// from its repository and file name.
pub open spec fn download_url_spec(source: ModelSource) -> Seq<char> {
    match source {
        ModelSource::LocalPath(p) => p@,
        ModelSource::RemoteUrl(u) => u@,
        ModelSource::HostedFile(repo, file) => "https://huggingface.co/"@ + repo@
            + "/resolve/main/"@ + file@ + "?download=true"@,
    }
}

/// The directory a cache miss must create first, if any: only a hosted
/// file needs its repository subdirectory.
pub open spec fn create_dir_spec(base: Seq<char>, source: ModelSource) -> Option<Seq<char>> {
    match source {
        ModelSource::HostedFile(repo, file) => Some(join_spec(base, repo@)),
        _ => None,
    }
}

/// Whether resolving `source` against the set `cache` of present paths
/// issues a download: only a non-local source whose target path is absent.
pub open spec fn resolve_downloads_in(
    cache: Set<Seq<char>>,
    base: Seq<char>,
    source: ModelSource,
) -> bool {
    !(source is LocalPath) && !cache.contains(resolve_path_spec(base, source))
}

/// The set of present paths after a resolve: the target path is present,
/// whether it was found or just downloaded.
pub open spec fn cache_after(cache: Set<Seq<char>>, base: Seq<char>, source: ModelSource) -> Set<
    Seq<char>,
> {
    cache.insert(resolve_path_spec(base, source))
}

/// Resolving the same source twice against an unmodified cache root issues
/// at most one download: after the first resolve the target path is present,
/// so the second resolve downloads nothing — and both return the same path,
/// which does not depend on presence at all.
pub proof fn lemma_resolve_idempotent(cache: Set<Seq<char>>, base: Seq<char>, source: ModelSource)
    ensures
        !resolve_downloads_in(cache_after(cache, base, source), base, source),
        cache_after(cache, base, source).contains(resolve_path_spec(base, source)),
{
}

/// The downloading half of a resolve plan: fetch `url` into `dest`, after
/// creating `create_dir` when one is named.
#[derive(Debug)]
pub struct DownloadStep {
    /// Where the bytes come from.
    pub url: String,
    /// The cache path the bytes are written to.
    pub dest: String,
    /// A directory to create (recursively) before writing, if any.
    pub create_dir: Option<String>,
    /// Whether the file is marked executable; model weights never are.
    pub make_executable: bool,
}

/// What a resolve decided: the local path the model will be at, and the
/// download to perform first if the path is not already present.
#[derive(Debug)]
pub struct ResolvePlan {
    /// The path the caller will find the model at once the plan has run.
    pub path: String,
    /// The fetch a cache miss requires; `None` when the path is present.
    pub download: Option<DownloadStep>,
}

/// The model cache: a root directory that cached files live under.
#[derive(Debug)]
pub struct Models {
    /// The cache root.  Created (recursively) by the caller if absent.
    pub base_dir: String,
}

impl Models {
    /// A cache rooted at `base_dir`, or at the conventional `./models/`
    /// when none is given.
    pub fn new(base_dir: Option<String>) -> (r: Models)
        ensures
            base_dir matches Some(d) ==> r.base_dir@ == d@,
            base_dir is None ==> r.base_dir@ == "./models/"@,
    {
        match base_dir {
            Some(d) => Models { base_dir: d },
            None => Models { base_dir: "./models/".to_owned() },
        }
    }

    /// Decides how to resolve `source`, given whether its target path is
    /// already present.
    ///
    /// A local path is returned as it is, and is an error when absent; any
    /// other source resolves to its cache path, with a download step exactly
    /// when the path is absent.
    pub fn plan_resolve(&self, source: &ModelSource, present: bool) -> (r: Result<
        ResolvePlan,
        PipelineError,
    >)
        ensures
            r is Ok <==> (present || !(*source is LocalPath)),
            r matches Err(e) ==> (e matches PipelineError::NotFound(q) && q@ == resolve_path_spec(
                self.base_dir@,
                *source,
            )),
            r matches Ok(plan) ==> plan.path@ == resolve_path_spec(self.base_dir@, *source),
            r matches Ok(plan) ==> (plan.download is Some <==> (!present && !(*source
                is LocalPath))),
            r matches Ok(plan) ==> (plan.download matches Some(d) ==> {
                &&& d.url@ == download_url_spec(*source)
                &&& d.dest@ == resolve_path_spec(self.base_dir@, *source)
                &&& !d.make_executable
                &&& match create_dir_spec(self.base_dir@, *source) {
                    Some(dir) => d.create_dir matches Some(cd) && cd@ == dir,
                    None => d.create_dir is None,
                }
            }),
    {
        match source {
            ModelSource::LocalPath(p) => {
                if present {
                    Ok(ResolvePlan { path: p.clone(), download: None })
                } else {
                    Err(PipelineError::NotFound(p.clone()))
                }
            },
            ModelSource::RemoteUrl(u) => {
                let key = str_last_segment(u.as_str());
                let path = join_path(self.base_dir.as_str(), key.as_str());
                if present {
                    Ok(ResolvePlan { path, download: None })
                } else {
                    let dest = path.clone();
                    Ok(
                        ResolvePlan {
                            path,
                            download: Some(
                                DownloadStep {
                                    url: u.clone(),
                                    dest,
                                    create_dir: None,
                                    make_executable: false,
                                },
                            ),
                        },
                    )
                }
            },
            ModelSource::HostedFile(repo, file) => {
                let dir = join_path(self.base_dir.as_str(), repo.as_str());
                let path = join_path(dir.as_str(), file.as_str());
                if present {
                    Ok(ResolvePlan { path, download: None })
                } else {
                    let url = hf_download_url(repo.as_str(), file.as_str());
                    let dest = path.clone();
                    Ok(
                        ResolvePlan {
                            path,
                            download: Some(
                                DownloadStep {
                                    url,
                                    dest,
                                    create_dir: Some(dir),
                                    make_executable: false,
                                },
                            ),
                        },
                    )
                }
            },
        }
    }

    /// Resolves `source` against an explicit record of present paths — the
    /// in-memory stand-in for the cache root's directory listing.
    ///
    /// Returns the resolved path together with whether a download was
    /// issued, and records a downloaded path as now present.  Two resolves
    /// of the same source in a row therefore download at most once, and
    /// return the same path.
    pub fn resolve_with_state(&self, source: &ModelSource, present_paths: &mut Vec<String>) -> (r:
        Result<(String, bool), PipelineError>)
        ensures
            r is Ok <==> (!(*source is LocalPath) || old(present_paths).deep_view().contains(
                resolve_path_spec(self.base_dir@, *source),
            )),
            r matches Ok(pair) ==> pair.0@ == resolve_path_spec(self.base_dir@, *source),
            r matches Ok(pair) ==> pair.1 == (!(*source is LocalPath) && !old(
                present_paths,
            ).deep_view().contains(resolve_path_spec(self.base_dir@, *source))),
            r matches Ok(pair) && pair.1 ==> final(present_paths).deep_view()
                == old(present_paths).deep_view().push(
                resolve_path_spec(self.base_dir@, *source),
            ),
            r matches Ok(pair) && !pair.1 ==> *final(present_paths) == *old(present_paths),
            r is Err ==> *final(present_paths) == *old(present_paths),
    {
        let ghost base = self.base_dir@;
        let ghost paths0 = present_paths.deep_view();
        let target = match source {
            ModelSource::LocalPath(p) => p.clone(),
            ModelSource::RemoteUrl(u) => {
                let key = str_last_segment(u.as_str());
                join_path(self.base_dir.as_str(), key.as_str())
            },
            ModelSource::HostedFile(repo, file) => {
                let dir = join_path(self.base_dir.as_str(), repo.as_str());
                join_path(dir.as_str(), file.as_str())
            },
        };
        proof {
            assert(target@ == resolve_path_spec(base, *source));
        }
        let present = contains_string(present_paths, &target);
        match source {
            ModelSource::LocalPath(_) => {
                if present {
                    Ok((target, false))
                } else {
                    Err(PipelineError::NotFound(target))
                }
            },
            _ => {
                if present {
                    Ok((target, false))
                } else {
                    present_paths.push(target.clone());
                    proof {
                        assert(present_paths.deep_view() =~= paths0.push(target@));
                    }
                    Ok((target, true))
                }
            },
        }
    }
}

/// The templated URL a hosted model file is downloaded from.
pub fn hf_download_url(repo: &str, file: &str) -> (r: String)
    ensures
        r@ == "https://huggingface.co/"@ + repo@ + "/resolve/main/"@ + file@ + "?download=true"@,
{
    "https://huggingface.co/".to_owned().concat(repo).concat("/resolve/main/").concat(file).concat(
        "?download=true",
    )
}

/// Whether `x`'s characters equal some element of `v`.
pub fn contains_string(v: &Vec<String>, x: &String) -> (r: bool)
    ensures
        r == v.deep_view().contains(x@),
{
    let n = v.len();
    let mut i: usize = 0;
    while i < n
        invariant
            0 <= i <= n,
            n == v@.len(),
            forall|k: int| 0 <= k < i ==> v.deep_view()[k] != x@,
        decreases n - i,
    {
        if v[i].eq(x) {
            proof {
                assert(v.deep_view()[i as int] == x@);
            }
            return true;
        }
        i = i + 1;
    }
    proof {
        if v.deep_view().contains(x@) {
            let k = choose|k: int| 0 <= k < v.deep_view().len() && v.deep_view()[k] == x@;
            assert(v.deep_view()[k] == x@);
        }
    }
    false
}

} // verus!
