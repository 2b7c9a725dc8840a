//! File selection: which files of a directory walk are pending, that is,
//! still to be re-encoded. A file is pending when it is a regular file,
//! its extension is on the allow-list, and its probed codec is not already
//! the target codec. A failed probe counts as an unknown codec, so the
//! file stays pending rather than being skipped.

use vstd::prelude::*;
use crate::paths::path_extension;
use crate::text::str_eq;

verus! {

/// The codec every file is converted to.
pub open spec fn target_codec() -> Seq<char> {
    "hevc"@
}

/// The file extensions the scanner considers at all.
pub open spec fn ext_allowed_spec(e: Seq<char>) -> bool {
    ||| e == "mkv"@
    ||| e == "avi"@
    ||| e == "mp4"@
    ||| e == "mov"@
    ||| e == "wmv"@
    ||| e == "flv"@
    ||| e == "m4v"@
    ||| e == "webm"@
    ||| e == "3gp"@
}

/// Whether `e` is on the extension allow-list.
pub fn ext_allowed(e: &str) -> (r: bool)
    ensures
        r == ext_allowed_spec(e@),
{
    str_eq(e, "mkv") || str_eq(e, "avi") || str_eq(e, "mp4") || str_eq(e, "mov") || str_eq(
        e,
        "wmv",
    ) || str_eq(e, "flv") || str_eq(e, "m4v") || str_eq(e, "webm") || str_eq(e, "3gp")
}

/// The outcome of probing one file's codec.
pub enum CodecProbe {
    /// The probe ran and reported this codec name.
    Detected(String),
    /// The probe could not be run or reported an error.
    Failed,
}

/// The codec a probe outcome stands for: a failed probe counts as the
/// empty, unknown codec.
pub open spec fn effective_codec_spec(p: CodecProbe) -> Seq<char> {
    match p {
        CodecProbe::Detected(s) => s@,
        CodecProbe::Failed => Seq::empty(),
    }
}

/// The codec name a probe outcome stands for.
pub fn effective_codec(p: &CodecProbe) -> (r: &str)
    ensures
        r@ == effective_codec_spec(*p),
{
    match p {
        CodecProbe::Detected(s) => s.as_str(),
        CodecProbe::Failed => {
            let r = "";
            proof {
                reveal_strlit("");
                assert(r@ =~= Seq::<char>::empty());
            }
            r
        },
    }
}

/// One entry of a directory walk, with its probe outcome.
pub struct ScanEntry {
    /// The entry's path.
    pub path: String,
    /// Whether the entry is a regular file.
    pub is_file: bool,
    /// The outcome of probing the entry, if it was probed.
    pub probe: CodecProbe,
}

/// Whether a walk entry is worth probing: a regular file with an
/// allow-listed extension.
pub open spec fn needs_probe_spec(path: Seq<char>, is_file: bool) -> bool {
    is_file && match path_extension(path) {
        Some(x) => ext_allowed_spec(x),
        None => false,
    }
}

/// Decides whether a walk entry should have its codec probed.
pub fn needs_probe(path: &str, is_file: bool) -> (r: bool)
    ensures
        r == needs_probe_spec(path@, is_file),
{
    if !is_file {
        return false;
    }
    let name = crate::paths::file_name(path);
    match crate::paths::extension(name) {
        Some(x) => ext_allowed(x),
        None => false,
    }
}

/// Whether an entry is pending: worth probing, and its effective codec is
/// not already the target.
pub open spec fn is_pending_spec(e: ScanEntry) -> bool {
    needs_probe_spec(e.path@, e.is_file) && effective_codec_spec(e.probe) != target_codec()
}

/// Decides whether one walk entry still needs re-encoding.
pub fn is_pending(e: &ScanEntry) -> (r: bool)
    ensures
        r == is_pending_spec(*e),
{
    if !needs_probe(e.path.as_str(), e.is_file) {
        return false;
    }
    let codec = effective_codec(&e.probe);
    !str_eq(codec, "hevc")
}

/// The paths of the pending entries, in walk order.
pub open spec fn pending_paths_spec(s: Seq<ScanEntry>) -> Seq<Seq<char>>
    decreases s.len(),
{
    if s.len() == 0 {
        Seq::empty()
    } else {
        pending_paths_spec(s.drop_last()) + if is_pending_spec(s.last()) {
            seq![s.last().path@]
        } else {
            Seq::empty()
        }
    }
}

/// Filters a directory walk down to the files still to be re-encoded,
/// keeping their order.
pub fn find_pending_files(entries: &Vec<ScanEntry>) -> (r: Vec<String>)
    ensures
        r@.map_values(|s: String| s@) == pending_paths_spec(entries@),
{
    let mut out: Vec<String> = Vec::new();
    let mut i: usize = 0;
    while i < entries.len()
        invariant
            i <= entries@.len(),
            out@.map_values(|s: String| s@) == pending_paths_spec(entries@.subrange(0, i as int)),
        decreases entries@.len() - i,
    {
        let ghost prefix = entries@.subrange(0, i as int);
        let ghost old_out = out@;
        let e = &entries[i];
        if is_pending(e) {
            out.push(e.path.clone());
        }
        proof {
            let ext = entries@.subrange(0, i as int + 1);
            assert(ext.drop_last() =~= prefix);
            assert(ext.last() == entries@[i as int]);
            assert(out@.map_values(|s: String| s@) =~= pending_paths_spec(ext));
        }
        i += 1;
    }
    proof {
        assert(entries@.subrange(0, entries@.len() as int) =~= entries@);
    }
    out
}

/// Law: an entry whose extension is outside the allow-list is never
/// pending, whatever its probe outcome.
pub proof fn lemma_disallowed_extension_excluded(e: ScanEntry)
    requires
        !(path_extension(e.path@) matches Some(x) && ext_allowed_spec(x)),
    ensures
        !is_pending_spec(e),
{
}

/// Law: an entry whose detected codec is already the target codec is
/// never pending.
pub proof fn lemma_target_codec_excluded(e: ScanEntry)
    requires
        effective_codec_spec(e.probe) == target_codec(),
    ensures
        !is_pending_spec(e),
{
}

/// Law: a failed probe does not exclude a file — an entry that is a
/// regular file with an allow-listed extension stays pending.
pub proof fn lemma_probe_failure_still_pending(e: ScanEntry)
    requires
        e.probe is Failed,
        e.is_file,
        path_extension(e.path@) matches Some(x) && ext_allowed_spec(x),
    ensures
        is_pending_spec(e),
{
    reveal_strlit("hevc");
    assert(effective_codec_spec(e.probe).len() == 0);
    assert(target_codec().len() == 4);
}

/// Law: every path in the scan result comes from a pending entry.
pub proof fn lemma_scan_only_pending(entries: Seq<ScanEntry>, p: Seq<char>)
    requires
        pending_paths_spec(entries).contains(p),
    ensures
        exists|i: int|
            0 <= i < entries.len() && entries[i].path@ == p && is_pending_spec(entries[i]),
    decreases entries.len(),
{
    if entries.len() > 0 {
        if is_pending_spec(entries.last()) && entries.last().path@ == p {
            assert(entries[entries.len() - 1].path@ == p && is_pending_spec(
                entries[entries.len() - 1],
            ));
        } else {
            assert(pending_paths_spec(entries.drop_last()).contains(p));
            lemma_scan_only_pending(entries.drop_last(), p);
            let i = choose|i: int|
                0 <= i < entries.drop_last().len() && entries.drop_last()[i].path@ == p
                    && is_pending_spec(entries.drop_last()[i]);
            assert(entries[i].path@ == p && is_pending_spec(entries[i]));
        }
    }
}

/// Law: every pending entry's path is in the scan result.
pub proof fn lemma_pending_included(entries: Seq<ScanEntry>, i: int)
    requires
        0 <= i < entries.len(),
        is_pending_spec(entries[i]),
    ensures
        pending_paths_spec(entries).contains(entries[i].path@),
    decreases entries.len(),
{
    if i == entries.len() - 1 {
        let tail = seq![entries.last().path@];
        assert(pending_paths_spec(entries)[pending_paths_spec(entries.drop_last()).len() as int]
            == entries[i].path@);
    } else {
        lemma_pending_included(entries.drop_last(), i);
        assert(entries.drop_last()[i] == entries[i]);
        let k = choose|k: int|
            0 <= k < pending_paths_spec(entries.drop_last()).len() && pending_paths_spec(
                entries.drop_last(),
            )[k] == entries[i].path@;
        assert(pending_paths_spec(entries)[k] == entries[i].path@);
    }
}

} // verus!
