//! The data model of the pipeline: per-entry metadata, the scan
//! configuration, the scan result with its aggregate invariant, and the
//! analysis output.

use vstd::prelude::*;
use crate::filter::default_patterns_ok;
use crate::text::clamp_u64;

verus! {

/// Metadata of one visited filesystem entry.
#[derive(Clone, Debug)]
pub struct FileInfo {
    pub path: String,
    pub name: String,
    /// Size in bytes.
    pub size: u64,
    pub is_dir: bool,
    /// The characters after the final component's last `.`, or empty.
    pub extension: String,
    /// Modification time, epoch seconds; 0 when unavailable.
    pub modified_time: u64,
    /// Creation time, epoch seconds; 0 when unavailable.
    pub created_time: u64,
}

/// The mathematical shadow of a `FileInfo`: strings as char sequences.
pub ghost struct FileInfoView {
    pub path: Seq<char>,
    pub name: Seq<char>,
    pub size: u64,
    pub is_dir: bool,
    pub extension: Seq<char>,
    pub modified_time: u64,
    pub created_time: u64,
}

impl View for FileInfo {
    type V = FileInfoView;

    open spec fn view(&self) -> FileInfoView {
        FileInfoView {
            path: self.path@,
            name: self.name@,
            size: self.size,
            is_dir: self.is_dir,
            extension: self.extension@,
            modified_time: self.modified_time,
            created_time: self.created_time,
        }
    }
}

/// The views of a sequence of entries.
pub open spec fn views_of(s: Seq<FileInfo>) -> Seq<FileInfoView> {
    s.map_values(|f: FileInfo| f@)
}

/// How a scan is to run.
#[derive(Clone, Debug)]
pub struct ScanConfig {
    /// The root of the tree to walk.
    pub path: String,
    /// Bound on the depth, the root itself being at depth 0; `None` is unbounded.
    pub max_depth: Option<usize>,
    /// Substrings whose presence in an entry's name or path excludes it.
    pub ignore_patterns: Vec<String>,
    /// Whether per-entry work is spread over a worker pool.
    pub parallel: bool,
    /// Whether symbolic links are followed.
    pub follow_links: bool,
}

impl Default for ScanConfig {
    /// The default scan: the current directory, unbounded depth, the
    /// full default ignore set, parallel execution, links not followed.
    fn default() -> (r: Self)
        ensures
            r.path@ == "."@,
            r.max_depth is None,
            default_patterns_ok(r.ignore_patterns@),
            r.parallel,
            !r.follow_links,
    {
        let mut pats: Vec<String> = Vec::new();
        pats.push("node_modules".to_owned());
        pats.push("bower_components".to_owned());
        pats.push("vendor".to_owned());
        pats.push("packages".to_owned());
        pats.push("target".to_owned());
        pats.push("build".to_owned());
        pats.push("dist".to_owned());
        pats.push("out".to_owned());
        pats.push(".next".to_owned());
        pats.push(".nuxt".to_owned());
        pats.push(".git".to_owned());
        pats.push(".svn".to_owned());
        pats.push(".hg".to_owned());
        pats.push(".idea".to_owned());
        pats.push(".vscode".to_owned());
        pats.push(".vs".to_owned());
        pats.push("tmp".to_owned());
        pats.push("temp".to_owned());
        pats.push(".cache".to_owned());
        pats.push(".DS_Store".to_owned());
        pats.push("Thumbs.db".to_owned());
        pats.push("desktop.ini".to_owned());
        ScanConfig {
            path: ".".to_owned(),
            max_depth: None,
            ignore_patterns: pats,
            parallel: true,
            follow_links: false,
        }
    }
}

/// What a scan returns: the surviving entries and their aggregates.
#[derive(Clone, Debug)]
pub struct ScanResult {
    pub files: Vec<FileInfo>,
    /// Number of non-directory entries in `files`.
    pub file_count: usize,
    /// Number of directory entries in `files`.
    pub dir_count: usize,
    /// Sum of the sizes of the non-directory entries, saturating at `u64::MAX`.
    pub total_size: u64,
    /// Wall-clock time the scan took, in milliseconds.
    pub duration_ms: u64,
}

/// Number of non-directory entries.
pub open spec fn count_files(s: Seq<FileInfoView>) -> int
    decreases s.len(),
{
    if s.len() == 0 {
        0
    } else {
        count_files(s.drop_last()) + if s.last().is_dir {
            0int
        } else {
            1int
        }
    }
}

/// Number of directory entries.
pub open spec fn count_dirs(s: Seq<FileInfoView>) -> int
    decreases s.len(),
{
    if s.len() == 0 {
        0
    } else {
        count_dirs(s.drop_last()) + if s.last().is_dir {
            1int
        } else {
            0int
        }
    }
}

/// Sum of the sizes of the non-directory entries, as an unbounded integer.
pub open spec fn size_sum(s: Seq<FileInfoView>) -> int
    decreases s.len(),
{
    if s.len() == 0 {
        0
    } else {
        size_sum(s.drop_last()) + if s.last().is_dir {
            0int
        } else {
            s.last().size as int
        }
    }
}

/// The aggregate invariant of a scan result: the counts partition the
/// entry list and the total size is the (saturating) sum of file sizes.
pub open spec fn scan_result_wf(r: ScanResult) -> bool {
    &&& r.file_count as int == count_files(views_of(r.files@))
    &&& r.dir_count as int == count_dirs(views_of(r.files@))
    &&& r.total_size as int == clamp_u64(size_sum(views_of(r.files@)))
}

/// Every entry is a file or a directory, so the two counts always add up
/// to the length of the entry list.
pub proof fn lemma_counts_partition(s: Seq<FileInfoView>)
    ensures
        count_files(s) + count_dirs(s) == s.len(),
        count_files(s) >= 0,
        count_dirs(s) >= 0,
        size_sum(s) >= 0,
    decreases s.len(),
{
    if s.len() > 0 {
        lemma_counts_partition(s.drop_last());
    }
}

/// In every well-formed scan result, `file_count + dir_count` equals the
/// number of collected entries.
pub proof fn lemma_scan_result_partition(r: ScanResult)
    requires
        scan_result_wf(r),
    ensures
        r.file_count + r.dir_count == r.files@.len(),
{
    lemma_counts_partition(views_of(r.files@));
}

/// The aggregates of a well-formed scan result are a function of the
/// collected entries alone: scans that collect the same entries — a
/// repeated scan of an unchanged tree, or a sequential and a parallel
/// scan over the same tree — agree on all three aggregates.
pub proof fn lemma_scan_agreement(r1: ScanResult, r2: ScanResult)
    requires
        scan_result_wf(r1),
        scan_result_wf(r2),
        views_of(r1.files@) == views_of(r2.files@),
    ensures
        r1.file_count == r2.file_count,
        r1.dir_count == r2.dir_count,
        r1.total_size == r2.total_size,
{
}

/// Removing the entry at any index takes exactly that entry's
/// contribution out of each aggregate.
proof fn lemma_counts_remove(s: Seq<FileInfoView>, j: int)
    requires
        0 <= j < s.len(),
    ensures
        count_files(s) == count_files(s.remove(j)) + if s[j].is_dir {
            0int
        } else {
            1int
        },
        count_dirs(s) == count_dirs(s.remove(j)) + if s[j].is_dir {
            1int
        } else {
            0int
        },
        size_sum(s) == size_sum(s.remove(j)) + if s[j].is_dir {
            0int
        } else {
            s[j].size as int
        },
    decreases s.len(),
{
    if j == s.len() - 1 {
        assert(s.remove(j) =~= s.drop_last());
    } else {
        let t = s.drop_last();
        lemma_counts_remove(t, j);
        assert(s.remove(j).drop_last() =~= t.remove(j));
        assert(s.remove(j).last() == s.last());
    }
}

/// The three aggregates do not depend on the order of the entries: any
/// two entry lists that are permutations of each other — as the lists
/// two scan modes collect may be — have equal counts and size sums.
pub proof fn lemma_counts_permutation(s1: Seq<FileInfoView>, s2: Seq<FileInfoView>)
    requires
        s1.to_multiset() == s2.to_multiset(),
    ensures
        count_files(s1) == count_files(s2),
        count_dirs(s1) == count_dirs(s2),
        size_sum(s1) == size_sum(s2),
    decreases s1.len(),
{
    s1.to_multiset_ensures();
    s2.to_multiset_ensures();
    if s1.len() == 0 {
        assert(s2.len() == 0);
    } else {
        let last = s1.len() - 1;
        let x = s1[last];
        assert(s1.contains(x));
        assert(s2.to_multiset().count(x) > 0);
        assert(s2.contains(x));
        let j = choose|j: int| 0 <= j < s2.len() && s2[j] == x;
        lemma_counts_remove(s1, last);
        lemma_counts_remove(s2, j);
        assert(s1.remove(last).to_multiset() =~= s2.remove(j).to_multiset());
        lemma_counts_permutation(s1.remove(last), s2.remove(j));
    }
}

/// Like `lemma_scan_agreement`, but up to order: two well-formed scan
/// results whose entry lists are permutations of each other still agree
/// on `file_count`, `dir_count`, and `total_size`.
pub proof fn lemma_scan_agreement_unordered(r1: ScanResult, r2: ScanResult)
    requires
        scan_result_wf(r1),
        scan_result_wf(r2),
        views_of(r1.files@).to_multiset() == views_of(r2.files@).to_multiset(),
    ensures
        r1.file_count == r2.file_count,
        r1.dir_count == r2.dir_count,
        r1.total_size == r2.total_size,
{
    lemma_counts_permutation(views_of(r1.files@), views_of(r2.files@));
}

/// Aggregate of one language in a breakdown.
#[derive(Clone, Debug)]
pub struct LanguageStat {
    pub language: String,
    /// Number of non-directory entries of this language.
    pub file_count: usize,
    /// Their total size in bytes, saturating at `u64::MAX`.
    pub total_size: u64,
    /// Share of all language-classified bytes, in hundredths of a
    /// percent (0 to 10000).
    pub percentage_hundredths: u64,
}

/// The aggregate characterization of a file list.
#[derive(Clone, Debug)]
pub struct ProjectAnalysis {
    /// Ecosystem label, or "Unknown".
    pub project_type: String,
    /// Per-language breakdown, largest total size first.
    pub language_stats: Vec<LanguageStat>,
    /// Paths of dependency manifests and lockfiles, in input order.
    pub dependency_files: Vec<String>,
    /// Paths of configuration files, in input order.
    pub config_files: Vec<String>,
    /// Size-derived estimate of the lines of source code; a heuristic
    /// (one line per 40 bytes), not a count.
    pub estimated_lines: u64,
}

} // verus!
