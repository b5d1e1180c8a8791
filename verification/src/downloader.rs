//! The download core: size-gated format selection, output-file discovery,
//! the output naming template, and the cleanup model.

use vstd::prelude::*;
use crate::models::{DownloadError, YtDlpFormat, YtDlpVideoInfo};
use crate::utils::{sanitize_filename, sanitize_seq, str_eq};

verus! {

/// Read-only per-process configuration: where downloads land and how large a
/// produced file may be.
pub struct Downloader {
    pub download_path: String,
    pub max_file_size: u64,
}

/// A format entry that can be size-gated: its size is known, nonzero and
/// within the budget. Entries with unknown size are never selected, because
/// they cannot be shown to respect the budget.
pub open spec fn format_fits(f: YtDlpFormat, max: u64) -> bool {
    f.filesize matches Some(s) && 0 < s <= max
}

/// The entry offers the canonical (most broadly compatible) container.
pub open spec fn canonical_container(f: YtDlpFormat) -> bool {
    f.ext@ == "mp4"@
}

pub open spec fn canonical_fit(f: YtDlpFormat, max: u64) -> bool {
    canonical_container(f) && format_fits(f, max)
}

/// The selection policy, as a relation on the index chosen: the first
/// canonical entry within budget if any exists, otherwise the first entry of
/// any container within budget.
pub open spec fn selects(formats: Seq<YtDlpFormat>, max: u64, i: int) -> bool {
    0 <= i < formats.len() && if exists|j: int|
        0 <= j < formats.len() && canonical_fit(#[trigger] formats[j], max) {
        canonical_fit(formats[i], max) && forall|j: int|
            0 <= j < i ==> !canonical_fit(#[trigger] formats[j], max)
    } else {
        format_fits(formats[i], max) && forall|j: int|
            0 <= j < i ==> !format_fits(#[trigger] formats[j], max)
    }
}

/// Entry `i` of a scanned directory is the one the locator picks: its
/// modification time is positive, no later entry beats it, and it is the
/// first to attain the maximum.
pub open spec fn latest_at(entries: Seq<DirEntryInfo>, i: int) -> bool {
    &&& 0 <= i < entries.len()
    &&& entries[i].modified_nanos > 0
    &&& forall|j: int| 0 <= j < i ==> #[trigger] entries[j].modified_nanos
        < entries[i].modified_nanos
    &&& forall|j: int| 0 <= j < entries.len() ==> #[trigger] entries[j].modified_nanos
        <= entries[i].modified_nanos
}

/// One entry of the output directory as the scanner reports it: its path and
/// its modification time in nanoseconds since the epoch.
#[derive(Debug)]
pub struct DirEntryInfo {
    pub path: String,
    pub modified_nanos: u64,
}

/// Picks the most recently modified entry from a directory scan, the first
/// such entry when several share the maximal time. Entries dated exactly at
/// the epoch are treated as absent; an empty or all-epoch scan means the
/// produced file could not be found.
///
/// Known limitation: when concurrent downloads share one output directory,
/// the newest entry may belong to another request. Give each request its
/// own directory, or serialize the download-then-locate pair.
pub fn locate_latest(entries: &Vec<DirEntryInfo>) -> (r: Result<String, DownloadError>)
    ensures
        match r {
            Ok(p) => exists|i: int| latest_at(entries@, i) && p@ == #[trigger] entries@[i].path@,
            Err(e) => e is OutputNotFound && forall|i: int|
                0 <= i < entries@.len() ==> #[trigger] entries@[i].modified_nanos == 0,
        },
        (r is Ok) <==> exists|i: int|
            0 <= i < entries@.len() && #[trigger] entries@[i].modified_nanos > 0,
{
    let n = entries.len();
    let mut best: Option<usize> = None;
    let mut best_time: u64 = 0;
    let mut i: usize = 0;
    while i < n
        invariant
            i <= n,
            n == entries@.len(),
            match best {
                Some(b) => {
                    &&& b < i
                    &&& entries@[b as int].modified_nanos == best_time
                    &&& best_time > 0
                    &&& forall|j: int| 0 <= j < b ==> #[trigger] entries@[j].modified_nanos
                        < best_time
                    &&& forall|j: int| 0 <= j < i ==> #[trigger] entries@[j].modified_nanos
                        <= best_time
                },
                None => best_time == 0 && forall|j: int|
                    0 <= j < i ==> #[trigger] entries@[j].modified_nanos == 0,
            },
        decreases n - i,
    {
        let m = entries[i].modified_nanos;
        if m > best_time {
            best = Some(i);
            best_time = m;
        }
        i += 1;
    }
    match best {
        Some(b) => {
            let p = entries[b].path.clone();
            proof {
                assert(latest_at(entries@, b as int) && p@ == entries@[b as int].path@);
            }
            Ok(p)
        },
        None => Err(DownloadError::OutputNotFound),
    }
}

/// Position `i` holds the last path separator of `p`.
pub open spec fn is_last_slash(p: Seq<char>, i: int) -> bool {
    0 <= i < p.len() && p[i] == '/' && forall|j: int| i < j < p.len() ==> p[j] != '/'
}

/// The file-name component of a path: what follows the last `/`, or the
/// whole path when it has none.
pub open spec fn spec_basename(p: Seq<char>) -> Seq<char> {
    if exists|i: int| is_last_slash(p, i) {
        p.subrange((choose|i: int| is_last_slash(p, i)) + 1, p.len() as int)
    } else {
        p
    }
}

/// Extracts the file-name component of a path.
pub fn basename(path: &str) -> (r: String)
    ensures
        r@ == spec_basename(path@),
{
    let n = path.unicode_len();
    let mut i: usize = n;
    while i > 0
        invariant
            i <= n,
            n == path@.len(),
            forall|j: int| i <= j < n ==> path@[j] != '/',
        decreases i,
    {
        if path.get_char(i - 1) == '/' {
            let tail = path.substring_char(i, n);
            proof {
                let k = i - 1;
                assert(is_last_slash(path@, k));
                let c = choose|m: int| is_last_slash(path@, m);
                if c != k {
                    if c < k {
                        assert(path@[k as int] != '/');
                    } else {
                        assert(path@[c] != '/');
                    }
                }
                assert(c == k);
            }
            return String::from_str(tail);
        }
        i -= 1;
    }
    proof {
        if exists|m: int| is_last_slash(path@, m) {
            let c = choose|m: int| is_last_slash(path@, m);
            assert(path@[c] != '/');
        }
    }
    String::from_str(path)
}

/// The naming template handed to the external tool: the configured output
/// directory, the sanitized title, and the tool's extension placeholder.
pub open spec fn spec_output_template(dir: Seq<char>, title: Seq<char>) -> Seq<char> {
    dir + "/"@ + sanitize_seq(title) + ".%(ext)s"@
}

/// What remains of a directory, modeled as the set of its paths, after a
/// path is deleted.
pub open spec fn after_cleanup(files: Set<Seq<char>>, path: Seq<char>) -> Set<Seq<char>> {
    files.remove(path)
}

/// Cleanup is idempotent: deleting a path twice leaves the directory exactly
/// as one delete does, and deleting an absent path changes nothing.
pub proof fn lemma_cleanup_idempotent(files: Set<Seq<char>>, path: Seq<char>)
    ensures
        after_cleanup(after_cleanup(files, path), path) == after_cleanup(files, path),
        !files.contains(path) ==> after_cleanup(files, path) == files,
{
    assert(after_cleanup(after_cleanup(files, path), path) =~= after_cleanup(files, path));
    if !files.contains(path) {
        assert(after_cleanup(files, path) =~= files);
    }
}

impl Downloader {
    /// A downloader configured with an output directory and a size cap. The
    /// directory itself is created by the caller.
    pub fn new(download_path: String, max_file_size: u64) -> (r: Self)
        ensures
            r.download_path == download_path,
            r.max_file_size == max_file_size,
    {
        Downloader { download_path, max_file_size }
    }

    /// Picks a format within the size budget: the first canonical-container
    /// entry with a known, nonzero size within budget; failing that, the
    /// first entry of any container that fits; failing that, the request is
    /// not downloadable.
    pub fn choose_best_format(&self, info: &YtDlpVideoInfo) -> (r: Result<String, DownloadError>)
        ensures
            match r {
                Ok(id) => exists|i: int|
                    #[trigger] selects(info.formats@, self.max_file_size, i) && id@
                        == info.formats@[i].format_id@,
                Err(e) => e is NoSuitableFormat && forall|i: int|
                    0 <= i < info.formats@.len() ==> !format_fits(
                        #[trigger] info.formats@[i],
                        self.max_file_size,
                    ),
            },
            (r is Ok) <==> exists|i: int|
                0 <= i < info.formats@.len() && format_fits(
                    #[trigger] info.formats@[i],
                    self.max_file_size,
                ),
    {
        let n = info.formats.len();
        let mut i: usize = 0;
        while i < n
            invariant
                i <= n,
                n == info.formats@.len(),
                forall|j: int| 0 <= j < i ==> !canonical_fit(
                    #[trigger] info.formats@[j],
                    self.max_file_size,
                ),
            decreases n - i,
        {
            let f = &info.formats[i];
            if str_eq(f.ext.as_str(), "mp4") {
                if let Some(size) = f.filesize {
                    if size <= self.max_file_size && size > 0 {
                        proof {
                            assert(canonical_fit(info.formats@[i as int], self.max_file_size));
                            assert(selects(info.formats@, self.max_file_size, i as int));
                        }
                        return Ok(f.format_id.clone());
                    }
                }
            }
            i += 1;
        }
        let mut k: usize = 0;
        while k < n
            invariant
                k <= n,
                n == info.formats@.len(),
                forall|j: int| 0 <= j < n ==> !canonical_fit(
                    #[trigger] info.formats@[j],
                    self.max_file_size,
                ),
                forall|j: int| 0 <= j < k ==> !format_fits(
                    #[trigger] info.formats@[j],
                    self.max_file_size,
                ),
            decreases n - k,
        {
            let f = &info.formats[k];
            if let Some(size) = f.filesize {
                if size <= self.max_file_size && size > 0 {
                    proof {
                        assert(format_fits(info.formats@[k as int], self.max_file_size));
                        assert(selects(info.formats@, self.max_file_size, k as int));
                    }
                    return Ok(f.format_id.clone());
                }
            }
            k += 1;
        }
        Err(DownloadError::NoSuitableFormat)
    }

    /// Builds the output naming template for one download from the video's
    /// title.
    pub fn output_template(&self, title: &str) -> (r: String)
        ensures
            r@ == spec_output_template(self.download_path@, title@),
    {
        let sanitized = sanitize_filename(title);
        let mut out = self.download_path.clone();
        out.append("/");
        out.append(sanitized.as_str());
        out.append(".%(ext)s");
        out
    }
}

/// The selection law for well-supplied format lists: whenever some canonical
/// entry fits the budget, the selected entry is canonical, fits, and is the
/// first canonical fit in list order.
pub proof fn lemma_selection_prefers_canonical(formats: Seq<YtDlpFormat>, max: u64, i: int)
    requires
        selects(formats, max, i),
        exists|j: int| 0 <= j < formats.len() && canonical_fit(#[trigger] formats[j], max),
    ensures
        canonical_fit(formats[i], max),
        forall|j: int| 0 <= j < i ==> !canonical_fit(#[trigger] formats[j], max),
{
}

/// The rejection law: when no entry fits the budget (unknown and zero sizes
/// included), no index is selected at all.
pub proof fn lemma_selection_rejects_unfit(formats: Seq<YtDlpFormat>, max: u64)
    requires
        forall|i: int| 0 <= i < formats.len() ==> !format_fits(#[trigger] formats[i], max),
    ensures
        forall|i: int| !selects(formats, max, i),
{
    assert forall|i: int| !selects(formats, max, i) by {
        if selects(formats, max, i) {
            assert(format_fits(formats[i], max));
        }
    }
}

} // verus!
