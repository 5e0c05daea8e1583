//! The scanner: walk a rooted directory tree, drop the entries an ignore
//! pattern matches, extract per-entry metadata, and aggregate counts and
//! sizes — sequentially or with the per-entry work spread over a worker
//! pool. The traversal itself is an outside call whose outcome depends on
//! the disk; everything computed from its output is verified.

use vstd::prelude::*;
use vstd::string::StringExecFns;
use rayon::iter::{IntoParallelIterator, ParallelIterator};
use crate::model::{
    FileInfo, FileInfoView, views_of, ScanConfig, ScanResult, scan_result_wf, count_files,
    count_dirs, size_sum, lemma_counts_partition, lemma_scan_agreement,
};
use crate::text::{
    has_substring, spec_ext_str, sep_count, contains_str, path_extension_or_empty, clamp_u64,
    sat_add_u64, sat_sub_u64,
};

verus! {

/// Raw metadata of one traversed entry, before filtering.
pub struct RawEntry {
    pub path: String,
    pub name: String,
    pub size: u64,
    pub is_dir: bool,
    pub modified_time: u64,
    pub created_time: u64,
}

/// The mathematical shadow of a `RawEntry`.
pub ghost struct EntryView {
    pub path: Seq<char>,
    pub name: Seq<char>,
    pub size: u64,
    pub is_dir: bool,
    pub modified_time: u64,
    pub created_time: u64,
}

impl View for RawEntry {
    type V = EntryView;

    open spec fn view(&self) -> EntryView {
        EntryView {
            path: self.path@,
            name: self.name@,
            size: self.size,
            is_dir: self.is_dir,
            modified_time: self.modified_time,
            created_time: self.created_time,
        }
    }
}

/// The views of a sequence of raw entries.
pub open spec fn entry_views(s: Seq<RawEntry>) -> Seq<EntryView> {
    s.map_values(|e: RawEntry| e@)
}

/// Some ignore pattern occurs in the entry's name or in its path.
pub open spec fn spec_should_ignore(
    name: Seq<char>,
    path: Seq<char>,
    patterns: Seq<String>,
) -> bool {
    exists|i: int|
        0 <= i < patterns.len() && (has_substring(name, patterns[i]@) || has_substring(
            path,
            patterns[i]@,
        ))
}

fn should_ignore(name: &str, path: &str, patterns: &Vec<String>) -> (r: bool)
    ensures
        r == spec_should_ignore(name@, path@, patterns@),
{
    let mut i: usize = 0;
    while i < patterns.len()
        invariant
            i <= patterns@.len(),
            forall|j: int|
                0 <= j < i ==> !has_substring(name@, patterns@[j]@) && !has_substring(
                    path@,
                    patterns@[j]@,
                ),
        decreases patterns@.len() - i,
    {
        if contains_str(name, patterns[i].as_str()) || contains_str(path, patterns[i].as_str()) {
            return true;
        }
        i += 1;
    }
    false
}

/// What one raw entry contributes to the scan: nothing when an ignore
/// pattern matches, otherwise its metadata with the extension derived
/// from the entry's name.
pub open spec fn spec_entry_info(e: EntryView, patterns: Seq<String>) -> Option<FileInfoView> {
    if spec_should_ignore(e.name, e.path, patterns) {
        None
    } else {
        Some(
            FileInfoView {
                path: e.path,
                name: e.name,
                size: e.size,
                is_dir: e.is_dir,
                extension: spec_ext_str(e.name),
                modified_time: e.modified_time,
                created_time: e.created_time,
            },
        )
    }
}

/// The surviving entries of a traversal, in traversal order.
pub open spec fn scan_files(entries: Seq<EntryView>, patterns: Seq<String>) -> Seq<FileInfoView>
    decreases entries.len(),
{
    if entries.len() == 0 {
        Seq::empty()
    } else {
        scan_files(entries.drop_last(), patterns) + match spec_entry_info(
            entries.last(),
            patterns,
        ) {
            Some(v) => seq![v],
            None => Seq::empty(),
        }
    }
}

/// Every surviving entry is untouched by the ignore patterns and carries
/// the extension of its own name.
pub proof fn lemma_scan_files_survivors(entries: Seq<EntryView>, patterns: Seq<String>)
    ensures
        forall|j: int|
            0 <= j < scan_files(entries, patterns).len() ==> {
                let f = #[trigger] scan_files(entries, patterns)[j];
                !spec_should_ignore(f.name, f.path, patterns) && f.extension == spec_ext_str(f.name)
            },
    decreases entries.len(),
{
    if entries.len() > 0 {
        lemma_scan_files_survivors(entries.drop_last(), patterns);
        let s = scan_files(entries, patterns);
        let prev = scan_files(entries.drop_last(), patterns);
        assert forall|j: int|
            0 <= j < s.len() implies {
            let f = #[trigger] s[j];
            !spec_should_ignore(f.name, f.path, patterns) && f.extension == spec_ext_str(f.name)
        } by {
            if j < prev.len() {
                assert(s[j] == prev[j]);
            } else {
                let v = spec_entry_info(entries.last(), patterns)->Some_0;
                assert(s[j] == v);
            }
        }
    }
}

/// A surviving entry's path is one of the traversal's paths, so any
/// bound on the separator counts of the traversal output carries over.
pub proof fn lemma_scan_files_depth(entries: Seq<EntryView>, patterns: Seq<String>, bound: int)
    requires
        forall|i: int| 0 <= i < entries.len() ==> sep_count((#[trigger] entries[i]).path) <= bound,
    ensures
        forall|j: int|
            0 <= j < scan_files(entries, patterns).len() ==> sep_count(
                (#[trigger] scan_files(entries, patterns)[j]).path,
            ) <= bound,
    decreases entries.len(),
{
    if entries.len() > 0 {
        lemma_scan_files_depth(entries.drop_last(), patterns, bound);
        let s = scan_files(entries, patterns);
        let prev = scan_files(entries.drop_last(), patterns);
        assert forall|j: int| 0 <= j < s.len() implies sep_count((#[trigger] s[j]).path)
            <= bound by {
            if j < prev.len() {
                assert(s[j] == prev[j]);
            } else {
                let v = spec_entry_info(entries.last(), patterns)->Some_0;
                assert(s[j] == v);
            }
        }
    }
}

/// Convert one raw entry, or drop it when an ignore pattern matches.
fn entry_file_info(e: &RawEntry, patterns: &Vec<String>) -> (r: Option<FileInfo>)
    ensures
        match r {
            Some(f) => spec_entry_info(e@, patterns@) == Some(f@),
            None => spec_entry_info(e@, patterns@) is None,
        },
{
    if should_ignore(e.name.as_str(), e.path.as_str(), patterns) {
        None
    } else {
        Some(
            FileInfo {
                path: e.path.clone(),
                name: e.name.clone(),
                size: e.size,
                is_dir: e.is_dir,
                extension: path_extension_or_empty(e.name.as_str()),
                modified_time: e.modified_time,
                created_time: e.created_time,
            },
        )
    }
}

/// Filter and convert a traversal's raw entries, in order.
fn collect_entries(entries: &Vec<RawEntry>, patterns: &Vec<String>) -> (r: Vec<FileInfo>)
    ensures
        views_of(r@) == scan_files(entry_views(entries@), patterns@),
{
    let ghost es = entry_views(entries@);
    let mut r: Vec<FileInfo> = Vec::new();
    let mut i: usize = 0;
    while i < entries.len()
        invariant
            i <= entries@.len(),
            es == entry_views(entries@),
            es.len() == entries@.len(),
            views_of(r@) == scan_files(es.take(i as int), patterns@),
        decreases entries@.len() - i,
    {
        proof {
            assert(es.take(i + 1).drop_last() =~= es.take(i as int));
            assert(es.take(i + 1).last() == es[i as int]);
        }
        let ghost before = r@;
        match entry_file_info(&entries[i], patterns) {
            Some(f) => {
                r.push(f);
                proof {
                    assert(views_of(r@) =~= views_of(before).push(r@.last()@));
                }
            },
            None => {},
        }
        proof {
            assert(views_of(r@) =~= scan_files(es.take(i + 1), patterns@));
        }
        i += 1;
    }
    proof {
        assert(es.take(entries@.len() as int) =~= es);
    }
    r
}

/// Compute the aggregates of a collected entry list: non-directory
/// count, directory count, and the saturating sum of file sizes.
fn tally(files: &Vec<FileInfo>) -> (r: (usize, usize, u64))
    ensures
        r.0 as int == count_files(views_of(files@)),
        r.1 as int == count_dirs(views_of(files@)),
        r.2 as int == clamp_u64(size_sum(views_of(files@))),
{
    let ghost vs = views_of(files@);
    let mut fc: usize = 0;
    let mut dc: usize = 0;
    let mut ts: u64 = 0;
    let mut i: usize = 0;
    while i < files.len()
        invariant
            i <= files@.len(),
            vs == views_of(files@),
            vs.len() == files@.len(),
            fc as int == count_files(vs.take(i as int)),
            dc as int == count_dirs(vs.take(i as int)),
            fc + dc == i,
            ts as int == clamp_u64(size_sum(vs.take(i as int))),
        decreases files@.len() - i,
    {
        proof {
            assert(vs.take(i + 1).drop_last() =~= vs.take(i as int));
            assert(vs.take(i + 1).last() == vs[i as int]);
            lemma_counts_partition(vs.take(i as int));
        }
        if files[i].is_dir {
            dc += 1;
        } else {
            fc += 1;
            ts = sat_add_u64(ts, files[i].size);
        }
        i += 1;
    }
    proof {
        assert(vs.take(files@.len() as int) =~= vs);
    }
    (fc, dc, ts)
}

#[verifier::external_type_specification]
#[verifier::external_body]
pub struct ExDirEntry(walkdir::DirEntry);

/// Relies on `walkdir::DirEntry` and `std::fs::Metadata`: the entry's
/// path, file name, size, directory flag, and timestamps as the
/// filesystem reports them; `None` when the metadata cannot be read.
#[verifier::external_body]
fn entry_to_raw(e: &walkdir::DirEntry) -> (r: Option<RawEntry>)
{
    let md = e.metadata().ok()?;
    let epoch = |t: std::io::Result<std::time::SystemTime>|
        t.ok()
            .and_then(|m| m.duration_since(std::time::UNIX_EPOCH).ok())
            .map(|d| d.as_secs())
            .unwrap_or(0);
    Some(RawEntry {
        path: e.path().to_string_lossy().to_string(),
        name: e.file_name().to_string_lossy().to_string(),
        size: md.len(),
        is_dir: md.is_dir(),
        modified_time: epoch(md.modified()),
        created_time: epoch(md.created()),
    })
}

/// Relies on `walkdir::WalkDir`: yields the root and every reachable
/// descendant, following symbolic links only when asked; entries that
/// cannot be read are dropped. With `max_depth` set, walkdir does not
/// descend past that many levels below the root (the root is depth 0),
/// and an entry's path is the root joined with one `/`-separated
/// component per level, so its separator count exceeds the root's by at
/// most the depth bound. What else comes back depends on the disk.
#[verifier::external_body]
fn walk_entries(root: &str, max_depth: &Option<usize>, follow_links: bool) -> (r: Vec<RawEntry>)
    ensures
        match *max_depth {
            Some(d) => forall|i: int|
                0 <= i < r@.len() ==> sep_count((#[trigger] r@[i]).path@) <= sep_count(root@) + d,
            None => true,
        },
{
    let mut w = walkdir::WalkDir::new(root).follow_links(follow_links);
    if let Some(d) = *max_depth {
        w = w.max_depth(d);
    }
    w.into_iter().filter_map(|e| e.ok()).filter_map(|e| entry_to_raw(&e)).collect()
}

/// Relies on rayon's parallel iterators: `into_par_iter` on a vector
/// distributes its elements over the worker pool, `filter_map` applies
/// the closure — a verified function of this library — to every element,
/// and `collect` into a `Vec` keeps the elements in input order, so the
/// output equals the sequential filter-map of the same list.
#[verifier::external_body]
fn par_entry_infos(entries: Vec<RawEntry>, patterns: &Vec<String>) -> (r: Vec<FileInfo>)
    ensures
        views_of(r@) == scan_files(entry_views(entries@), patterns@),
{
    entries.into_par_iter().filter_map(|e| entry_file_info(&e, patterns)).collect()
}

/// Relies on `std::path::Path::exists`; the answer depends on the disk.
#[verifier::external_body]
fn path_exists(p: &str) -> (r: bool)
{
    std::path::Path::new(p).exists()
}

/// Relies on `std::time::SystemTime`: the wall clock now, as
/// milliseconds since the epoch; 0 when the clock is before the epoch.
#[verifier::external_body]
fn now_unix_millis() -> (r: u64)
{
    std::time::SystemTime::now()
        .duration_since(std::time::UNIX_EPOCH)
        .map(|d| d.as_millis() as u64)
        .unwrap_or(0)
}

/// What both scan modes promise of every outcome: a well-formed result
/// whose entries are the filtered image of some traversal output, each
/// untouched by the ignore patterns, carrying its name's extension, and
/// lying within the configured depth of the root (measured in path
/// separators). Or the path-not-found error. Whether the error occurs
/// depends on the disk, so success cannot be promised here.
pub open spec fn scan_output_ok(config: ScanConfig, r: Result<ScanResult, String>) -> bool {
    match r {
        Ok(res) => {
            &&& scan_result_wf(res)
            &&& exists|raw: Seq<EntryView>|
                views_of(res.files@) == scan_files(raw, config.ignore_patterns@)
            &&& forall|i: int|
                0 <= i < res.files@.len() ==> {
                    let f = #[trigger] views_of(res.files@)[i];
                    !spec_should_ignore(f.name, f.path, config.ignore_patterns@) && f.extension
                        == spec_ext_str(f.name)
                }
            &&& match config.max_depth {
                Some(d) => forall|i: int|
                    0 <= i < res.files@.len() ==> sep_count(
                        (#[trigger] views_of(res.files@)[i]).path,
                    ) <= sep_count(config.path@) + d,
                None => true,
            }
        },
        Err(m) => m@ == "Path does not exist: "@ + config.path@,
    }
}

/// Scan the tree rooted at `config.path` in one thread: walk it, drop
/// the entries matching an ignore pattern, and aggregate the rest in
/// traversal order. Fails only when the root does not exist.
pub fn scan_directory_sync(config: ScanConfig) -> (r: Result<ScanResult, String>)
    ensures
        scan_output_ok(config, r),
{
    let start = now_unix_millis();
    if !path_exists(config.path.as_str()) {
        let mut m = "Path does not exist: ".to_owned();
        m.append(config.path.as_str());
        return Err(m);
    }
    let raw = walk_entries(config.path.as_str(), &config.max_depth, config.follow_links);
    let files = collect_entries(&raw, &config.ignore_patterns);
    let t = tally(&files);
    let end = now_unix_millis();
    proof {
        let raws = entry_views(raw@);
        assert(views_of(files@) == scan_files(raws, config.ignore_patterns@));
        lemma_scan_files_survivors(raws, config.ignore_patterns@);
        if config.max_depth is Some {
            let d = config.max_depth->0;
            assert forall|i: int|
                0 <= i < raws.len() implies sep_count((#[trigger] raws[i]).path) <= sep_count(
                config.path@,
            ) + d by {
                assert(raws[i] == raw@[i]@);
            }
            lemma_scan_files_depth(raws, config.ignore_patterns@, sep_count(config.path@) + d);
        }
    }
    Ok(
        ScanResult {
            files,
            file_count: t.0,
            dir_count: t.1,
            total_size: t.2,
            duration_ms: sat_sub_u64(end, start),
        },
    )
}

/// Scan the tree rooted at `config.path` with the per-entry filtering
/// and conversion spread over a worker pool; the collected entries and
/// all aggregates equal those of a sequential scan over the same
/// traversal output. Fails only when the root does not exist.
pub fn scan_directory_parallel(config: ScanConfig) -> (r: Result<ScanResult, String>)
    ensures
        scan_output_ok(config, r),
{
    let start = now_unix_millis();
    if !path_exists(config.path.as_str()) {
        let mut m = "Path does not exist: ".to_owned();
        m.append(config.path.as_str());
        return Err(m);
    }
    let raw = walk_entries(config.path.as_str(), &config.max_depth, config.follow_links);
    let ghost raws = entry_views(raw@);
    proof {
        if config.max_depth is Some {
            let d = config.max_depth->0;
            assert forall|i: int|
                0 <= i < raws.len() implies sep_count((#[trigger] raws[i]).path) <= sep_count(
                config.path@,
            ) + d by {
                assert(raws[i] == raw@[i]@);
            }
        }
    }
    let files = par_entry_infos(raw, &config.ignore_patterns);
    let t = tally(&files);
    let end = now_unix_millis();
    proof {
        assert(views_of(files@) == scan_files(raws, config.ignore_patterns@));
        lemma_scan_files_survivors(raws, config.ignore_patterns@);
        if config.max_depth is Some {
            let d = config.max_depth->0;
            lemma_scan_files_depth(raws, config.ignore_patterns@, sep_count(config.path@) + d);
        }
    }
    Ok(
        ScanResult {
            files,
            file_count: t.0,
            dir_count: t.1,
            total_size: t.2,
            duration_ms: sat_sub_u64(end, start),
        },
    )
}

/// Mode equivalence: a sequential and a parallel scan that saw the same
/// traversal output — an unchanged tree — collect the same entries and
/// so report identical `file_count`, `dir_count`, and `total_size`.
pub proof fn lemma_mode_equivalence(
    r1: ScanResult,
    r2: ScanResult,
    raw: Seq<EntryView>,
    patterns: Seq<String>,
)
    requires
        scan_result_wf(r1),
        scan_result_wf(r2),
        views_of(r1.files@) == scan_files(raw, patterns),
        views_of(r2.files@) == scan_files(raw, patterns),
    ensures
        r1.file_count == r2.file_count,
        r1.dir_count == r2.dir_count,
        r1.total_size == r2.total_size,
{
    lemma_scan_agreement(r1, r2);
}

} // verus!
