//! The trusted boundary to the archive writer: a tar stream compressed with
//! gzip, built in memory.
//!
//! The builder is opaque to the verifier; what it holds is named by
//! `targz_entries` (the ordered file entries appended so far, each a path,
//! content bytes and mode bits) and `targz_level` (the compression level it
//! was opened with).  `targz_bytes` names the closed archive's bytes, which
//! are a function of the level and the entries alone: the tar headers are
//! written with zeroed metadata, and the gzip header is written with a zero
//! timestamp and a fixed operating-system byte, so nothing else flows into
//! the output.

use vstd::prelude::*;

verus! {

/// Whether some character of `s` is the NUL character, which the archive
/// writer refuses in an entry name.
pub open spec fn has_nul(s: Seq<char>) -> bool {
    exists|k: int| 0 <= k < s.len() && #[trigger] s[k] == '\0'
}

/// Whether some `/`-separated component of `s` is exactly `..`, which the
/// archive writer refuses in an entry name.
pub open spec fn has_dotdot_component(s: Seq<char>) -> bool {
    exists|k: int|
        {
            &&& 0 <= k
            &&& k + 2 <= s.len()
            &&& #[trigger] s[k] == '.'
            &&& s[k + 1] == '.'
            &&& (k == 0 || s[k - 1] == '/')
            &&& (k + 2 == s.len() || s[k + 2] == '/')
        }
}

/// A name the archive writer is sure to accept: non-empty, relative, with
/// no NUL character and no `..` component.  (The writer also accepts some
/// names outside this set: one too long for the plain header field is
/// stored through a long-name record that checks only the name's leading
/// bytes, so acceptance is promised, never pinned exactly.)
pub open spec fn ok_entry_name(s: Seq<char>) -> bool {
    &&& s.len() > 0
    &&& s[0] != '/'
    &&& !has_nul(s)
    &&& !has_dotdot_component(s)
}

/// An in-memory gzip-compressed tar stream being written.  The verifier
/// sees nothing inside; `targz_entries` and `targz_level` name what it
/// holds.
#[verifier::external_body]
pub struct ContextArchive {
    inner: tar::Builder<flate2::write::GzEncoder<Vec<u8>>>,
}

/// The file entries appended to the archive so far, in order: in-archive
/// path, content, and mode bits.
pub uninterp spec fn targz_entries(b: ContextArchive) -> Seq<(Seq<char>, Seq<u8>, u32)>;

/// The compression level the archive was opened with.
pub uninterp spec fn targz_level(b: ContextArchive) -> u32;

/// The bytes of the closed archive holding exactly these entries at this
/// compression level.
pub uninterp spec fn targz_bytes(level: u32, entries: Seq<(Seq<char>, Seq<u8>, u32)>) -> Seq<u8>;

/// Relies on tar::Builder::new over flate2::write::GzEncoder::new: a fresh
/// in-memory compressed tar stream with no entries, at the given level.
#[verifier::external_body]
pub(crate) fn targz_new(level: u32) -> (b: ContextArchive)
    requires
        level <= 9,
    ensures
        targz_entries(b) == Seq::<(Seq<char>, Seq<u8>, u32)>::empty(),
        targz_level(b) == level,
{
    ContextArchive {
        inner: tar::Builder::new(
            flate2::write::GzEncoder::new(Vec::new(), flate2::Compression::new(level)),
        ),
    }
}

/// Relies on tar::Header (new_gnu, set_size, set_mode, set_cksum) and
/// tar::Builder::append_data: appends one file entry with the given
/// in-archive path, content and mode, leaving all other header fields
/// zeroed.  Writing into the in-memory buffer cannot fail, and the writer's
/// name checks (no NUL, no `..` component, relative, non-empty) run before
/// anything is written, so every `ok_entry_name` name is accepted; a name
/// that only fits a long-name record is checked on its leading bytes alone,
/// so some names outside `ok_entry_name` are accepted too.
#[verifier::external_body]
pub(crate) fn targz_append(b: &mut ContextArchive, name: &str, data: &Vec<u8>, mode: u32) -> (r:
    Result<(), String>)
    ensures
        targz_level(*final(b)) == targz_level(*old(b)),
        ok_entry_name(name@) ==> r is Ok,
        r is Ok ==> targz_entries(*final(b)) == targz_entries(*old(b)).push((name@, data@, mode)),
{
    let mut header = tar::Header::new_gnu();
    header.set_size(data.len() as u64);
    header.set_mode(mode);
    header.set_cksum();
    match b.inner.append_data(&mut header, name, data.as_slice()) {
        Ok(()) => Ok(()),
        Err(e) => Err(e.to_string()),
    }
}

/// Relies on tar::Builder::into_inner and flate2::write::GzEncoder::finish:
/// closes the archive and hands back the compressed bytes, determined by
/// the level and the entries.  Both steps only write trailing blocks into
/// the in-memory buffer, which cannot fail.
#[verifier::external_body]
pub(crate) fn targz_finish(b: ContextArchive) -> (r: Result<Vec<u8>, String>)
    ensures
        r is Ok,
        r matches Ok(bytes) ==> bytes@ == targz_bytes(targz_level(b), targz_entries(b)),
{
    match b.inner.into_inner() {
        Ok(encoder) => match encoder.finish() {
            Ok(bytes) => Ok(bytes),
            Err(e) => Err(e.to_string()),
        },
        Err(e) => Err(e.to_string()),
    }
}

} // verus!
