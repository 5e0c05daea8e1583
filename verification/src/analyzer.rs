//! The project analyzer: a pure, total function from a file list to an
//! aggregate characterization — ecosystem label, per-language breakdown,
//! dependency and config manifests, and an estimated line count.

use vstd::prelude::*;
use vstd::arithmetic::div_mod::{lemma_div_is_ordered, lemma_div_by_multiple};
use vstd::arithmetic::mul::lemma_mul_inequality;
use crate::classify::{
    spec_marker_type, marker_project_type, fallback_ext_at, fallback_label_at, fallback_ext_name,
    fallback_label_name, spec_language_of, language_of_ext, language_at, language_name_at,
    lemma_languages_distinct, spec_is_source, is_source_code, N_FALLBACK_EXTS, N_LANGUAGES,
};
use crate::model::{FileInfo, FileInfoView, views_of, LanguageStat, ProjectAnalysis};
use crate::text::{clamp_u64, sat_add_u64, str_eq, has_prefix, has_suffix, starts_with_str,
    ends_with_str};

verus! {

/// The ecosystem of the first entry whose name is a marker file, if any.
pub open spec fn first_marker(files: Seq<FileInfoView>) -> Option<Seq<char>>
    decreases files.len(),
{
    if files.len() == 0 {
        None
    } else if spec_marker_type(files[0].name) is Some {
        spec_marker_type(files[0].name)
    } else {
        first_marker(files.drop_first())
    }
}

/// How many non-directory entries carry the given extension.
pub open spec fn ext_count(files: Seq<FileInfoView>, e: Seq<char>) -> int
    decreases files.len(),
{
    if files.len() == 0 {
        0
    } else {
        ext_count(files.drop_last(), e) + if !files.last().is_dir && files.last().extension
            == e {
            1int
        } else {
            0int
        }
    }
}

/// Index and count of the most frequent extension among the first `k`
/// entries of the fallback table; strict improvement only, so the
/// earliest extension of the table wins ties. Index -1 when every count
/// is zero.
pub open spec fn best_fallback(files: Seq<FileInfoView>, k: int) -> (int, int)
    decreases k,
{
    if k <= 0 {
        (-1int, 0int)
    } else {
        let prev = best_fallback(files, k - 1);
        let c = ext_count(files, fallback_ext_at(k - 1));
        if c > prev.1 {
            (k - 1, c)
        } else {
            prev
        }
    }
}

/// The detected project type: the first marker file wins; otherwise the
/// fallback table's most frequent extension; otherwise "Unknown".
pub open spec fn spec_detect(files: Seq<FileInfoView>) -> Seq<char> {
    match first_marker(files) {
        Some(t) => t,
        None => {
            let best = best_fallback(files, N_FALLBACK_EXTS as int);
            if best.0 >= 0 {
                fallback_label_at(best.0)
            } else {
                "Unknown"@
            }
        },
    }
}

/// Count the non-directory entries with the given extension.
fn count_ext(files: &Vec<FileInfo>, e: &str) -> (c: usize)
    ensures
        c as int == ext_count(views_of(files@), e@),
        c <= files@.len(),
{
    let ghost vs = views_of(files@);
    let mut c: usize = 0;
    let mut j: usize = 0;
    while j < files.len()
        invariant
            j <= files@.len(),
            vs == views_of(files@),
            vs.len() == files@.len(),
            c as int == ext_count(vs.take(j as int), e@),
            c <= j,
        decreases files@.len() - j,
    {
        proof {
            assert(vs.take(j + 1).drop_last() =~= vs.take(j as int));
            assert(vs.take(j + 1).last() == vs[j as int]);
        }
        let f = &files[j];
        if !f.is_dir && str_eq(f.extension.as_str(), e) {
            c += 1;
        }
        j += 1;
    }
    proof {
        assert(vs.take(files@.len() as int) =~= vs);
    }
    c
}

/// Detect the project ecosystem of a file list: scan in input order for
/// a marker file; failing that, take the fallback table's most frequent
/// extension (earliest table entry on ties); failing that, "Unknown".
pub fn detect_project_type(files: &Vec<FileInfo>) -> (r: String)
    ensures
        r@ == spec_detect(views_of(files@)),
{
    let ghost vs = views_of(files@);
    proof {
        assert(vs.skip(0) =~= vs);
    }
    let mut i: usize = 0;
    while i < files.len()
        invariant
            i <= files@.len(),
            vs == views_of(files@),
            vs.len() == files@.len(),
            first_marker(vs) == first_marker(vs.skip(i as int)),
        decreases files@.len() - i,
    {
        proof {
            assert(vs.skip(i as int)[0] == vs[i as int]);
            assert(vs.skip(i as int).drop_first() =~= vs.skip(i + 1));
        }
        match marker_project_type(files[i].name.as_str()) {
            Some(t) => {
                return t.to_owned();
            },
            None => {},
        }
        i += 1;
    }
    proof {
        assert(vs.skip(files@.len() as int).len() == 0);
    }
    let mut best_idx: usize = 0;
    let mut best_cnt: usize = 0;
    let mut have_best = false;
    let mut k: usize = 0;
    while k < N_FALLBACK_EXTS
        invariant
            k <= N_FALLBACK_EXTS,
            vs == views_of(files@),
            first_marker(vs) is None,
            !have_best ==> best_fallback(vs, k as int) == (-1int, 0int) && best_cnt == 0,
            have_best ==> best_fallback(vs, k as int) == (best_idx as int, best_cnt as int)
                && best_idx < k,
            best_cnt > 0 ==> have_best,
        decreases N_FALLBACK_EXTS - k,
    {
        let c = count_ext(files, fallback_ext_name(k));
        if c > best_cnt {
            best_idx = k;
            best_cnt = c;
            have_best = true;
        }
        k += 1;
    }
    if have_best {
        fallback_label_name(best_idx).to_owned()
    } else {
        "Unknown".to_owned()
    }
}

/// How many non-directory entries the registry maps to this language.
pub open spec fn lang_count(files: Seq<FileInfoView>, l: Seq<char>) -> int
    decreases files.len(),
{
    if files.len() == 0 {
        0
    } else {
        lang_count(files.drop_last(), l) + if !files.last().is_dir && spec_language_of(
            files.last().extension,
        ) == Some(l) {
            1int
        } else {
            0int
        }
    }
}

/// Total size of the non-directory entries of this language.
pub open spec fn lang_size(files: Seq<FileInfoView>, l: Seq<char>) -> int
    decreases files.len(),
{
    if files.len() == 0 {
        0
    } else {
        lang_size(files.drop_last(), l) + if !files.last().is_dir && spec_language_of(
            files.last().extension,
        ) == Some(l) {
            files.last().size as int
        } else {
            0int
        }
    }
}

/// Total size of all non-directory entries of any registry language.
pub open spec fn tracked_size(files: Seq<FileInfoView>) -> int
    decreases files.len(),
{
    if files.len() == 0 {
        0
    } else {
        tracked_size(files.drop_last()) + if !files.last().is_dir && spec_language_of(
            files.last().extension,
        ) is Some {
            files.last().size as int
        } else {
            0int
        }
    }
}

/// Share in hundredths of a percent; 0 when nothing is tracked.
pub open spec fn spec_pct(sz: int, total: int) -> int {
    if total > 0 {
        sz * 10000 / total
    } else {
        0
    }
}

pub proof fn lemma_lang_sums(files: Seq<FileInfoView>, l: Seq<char>)
    ensures
        0 <= lang_count(files, l) <= files.len(),
        0 <= lang_size(files, l) <= tracked_size(files),
        0 <= tracked_size(files),
    decreases files.len(),
{
    if files.len() > 0 {
        lemma_lang_sums(files.drop_last(), l);
    }
}

/// The string is one of the first `k` labels of the language registry.
pub open spec fn lang_below(l: Seq<char>, k: int) -> bool {
    exists|k2: int| 0 <= k2 < k && l == language_at(k2)
}

/// Some element of the breakdown is for this language.
pub open spec fn has_lang(r: Seq<LanguageStat>, l: Seq<char>) -> bool {
    exists|i: int| 0 <= i < r.len() && r[i].language@ == l
}

/// The first label stands strictly before the second in the registry.
pub open spec fn registry_precedes(l1: Seq<char>, l2: Seq<char>) -> bool {
    exists|k1: int, k2: int|
        0 <= k1 < k2 < N_LANGUAGES && l1 == language_at(k1) && l2 == language_at(k2)
}

proof fn lemma_lang_below_widen(l: Seq<char>, k: int)
    requires
        lang_below(l, k),
    ensures
        lang_below(l, k + 1),
{
    let k2 = choose|k2: int| 0 <= k2 < k && l == language_at(k2);
    assert(0 <= k2 < k + 1 && l == language_at(k2));
}

proof fn lemma_lang_below_ne(l: Seq<char>, k: int)
    requires
        lang_below(l, k),
        0 <= k < N_LANGUAGES,
    ensures
        l != language_at(k),
{
    let k2 = choose|k2: int| 0 <= k2 < k && l == language_at(k2);
    lemma_languages_distinct();
    assert(language_at(k2) != language_at(k));
}

proof fn lemma_has_lang_insert(
    old_r: Seq<LanguageStat>,
    new_r: Seq<LanguageStat>,
    stat: LanguageStat,
    p: int,
    l: Seq<char>,
)
    requires
        0 <= p <= old_r.len(),
        new_r == old_r.insert(p, stat),
        has_lang(old_r, l),
    ensures
        has_lang(new_r, l),
{
    old_r.insert_ensures(p, stat);
    let i = choose|i: int| 0 <= i < old_r.len() && old_r[i].language@ == l;
    if i < p {
        assert(new_r[i].language@ == l);
    } else {
        assert(new_r[i + 1].language@ == l);
    }
}

/// One entry of a correct language breakdown for `files`.
pub open spec fn lang_stat_ok(files: Seq<FileInfoView>, st: LanguageStat) -> bool {
    &&& lang_below(st.language@, N_LANGUAGES as int)
    &&& st.file_count > 0
    &&& st.file_count as int == lang_count(files, st.language@)
    &&& st.total_size as int == clamp_u64(lang_size(files, st.language@))
    &&& st.percentage_hundredths as int == spec_pct(
        clamp_u64(lang_size(files, st.language@)),
        clamp_u64(tracked_size(files)),
    )
}

/// A correct language breakdown: every element is the exact aggregate of
/// a registry language with at least one file, every such language
/// appears exactly once, and the list is ordered by descending size,
/// with equal sizes in registry order.
pub open spec fn lang_stats_ok(files: Seq<FileInfoView>, r: Seq<LanguageStat>) -> bool {
    &&& forall|i: int| 0 <= i < r.len() ==> lang_stat_ok(files, #[trigger] r[i])
    &&& forall|k: int|
        0 <= k < N_LANGUAGES && lang_count(files, #[trigger] language_at(k)) > 0 ==> has_lang(
            r,
            language_at(k),
        )
    &&& forall|i: int, j: int| 0 <= i < j < r.len() ==> r[i].language@ != r[j].language@
    &&& forall|i: int, j: int| 0 <= i < j < r.len() ==> r[i].total_size >= r[j].total_size
    &&& forall|i: int, j: int|
        0 <= i < j < r.len() && r[i].total_size == r[j].total_size ==> registry_precedes(
            r[i].language@,
            r[j].language@,
        )
}

/// Count and total size of the non-directory entries of one language.
fn lang_tally(files: &Vec<FileInfo>, lang: &str) -> (r: (usize, u64))
    ensures
        r.0 as int == lang_count(views_of(files@), lang@),
        r.1 as int == clamp_u64(lang_size(views_of(files@), lang@)),
{
    let ghost vs = views_of(files@);
    let mut cnt: usize = 0;
    let mut sz: u64 = 0;
    let mut j: usize = 0;
    while j < files.len()
        invariant
            j <= files@.len(),
            vs == views_of(files@),
            vs.len() == files@.len(),
            cnt as int == lang_count(vs.take(j as int), lang@),
            cnt <= j,
            sz as int == clamp_u64(lang_size(vs.take(j as int), lang@)),
        decreases files@.len() - j,
    {
        proof {
            assert(vs.take(j + 1).drop_last() =~= vs.take(j as int));
            assert(vs.take(j + 1).last() == vs[j as int]);
            lemma_lang_sums(vs.take(j as int), lang@);
        }
        let f = &files[j];
        if !f.is_dir {
            match language_of_ext(f.extension.as_str()) {
                Some(l) => {
                    if str_eq(l, lang) {
                        cnt += 1;
                        sz = sat_add_u64(sz, f.size);
                    }
                },
                None => {},
            }
        }
        j += 1;
    }
    proof {
        assert(vs.take(files@.len() as int) =~= vs);
    }
    (cnt, sz)
}

/// Total size of all language-classified, non-directory entries.
fn tracked_tally(files: &Vec<FileInfo>) -> (r: u64)
    ensures
        r as int == clamp_u64(tracked_size(views_of(files@))),
{
    let ghost vs = views_of(files@);
    let mut sz: u64 = 0;
    let mut j: usize = 0;
    while j < files.len()
        invariant
            j <= files@.len(),
            vs == views_of(files@),
            vs.len() == files@.len(),
            sz as int == clamp_u64(tracked_size(vs.take(j as int))),
        decreases files@.len() - j,
    {
        proof {
            assert(vs.take(j + 1).drop_last() =~= vs.take(j as int));
            assert(vs.take(j + 1).last() == vs[j as int]);
            lemma_lang_sums(vs.take(j as int), Seq::empty());
        }
        let f = &files[j];
        if !f.is_dir {
            match language_of_ext(f.extension.as_str()) {
                Some(_) => {
                    sz = sat_add_u64(sz, f.size);
                },
                None => {},
            }
        }
        j += 1;
    }
    proof {
        assert(vs.take(files@.len() as int) =~= vs);
    }
    sz
}

/// Ordered by weakly descending total size.
pub open spec fn sorted_desc(s: Seq<LanguageStat>) -> bool {
    forall|i: int, j: int| 0 <= i < j < s.len() ==> s[i].total_size >= s[j].total_size
}

/// Insert a statistic in front of the first smaller element, keeping the
/// list sorted; existing elements keep their relative order, and ties on
/// size stay in front of the new element.
fn insert_sorted(r: &mut Vec<LanguageStat>, stat: LanguageStat) -> (pos: usize)
    requires
        sorted_desc(old(r)@),
    ensures
        pos <= old(r)@.len(),
        final(r)@ == old(r)@.insert(pos as int, stat),
        forall|j: int| 0 <= j < pos ==> old(r)@[j].total_size >= stat.total_size,
        forall|j: int| pos <= j < old(r)@.len() ==> old(r)@[j].total_size < stat.total_size,
        sorted_desc(final(r)@),
{
    let ghost old_r = r@;
    let mut pos: usize = 0;
    while pos < r.len() && r[pos].total_size >= stat.total_size
        invariant
            pos <= r@.len(),
            r@ == old_r,
            forall|j: int| 0 <= j < pos ==> r@[j].total_size >= stat.total_size,
        decreases r@.len() - pos,
    {
        pos += 1;
    }
    proof {
        assert forall|j: int|
            pos <= j < old_r.len() implies old_r[j].total_size < stat.total_size by {
            assert(old_r[pos as int].total_size >= old_r[j].total_size);
        }
        old_r.insert_ensures(pos as int, stat);
    }
    r.insert(pos, stat);
    proof {
        let new_r = r@;
        assert(new_r == old_r.insert(pos as int, stat));
        assert forall|i: int, j: int|
            0 <= i < j < new_r.len() implies new_r[i].total_size >= new_r[j].total_size by {
            assert(sorted_desc(old_r));
            if j < pos {
                assert(new_r[i] == old_r[i] && new_r[j] == old_r[j]);
            } else if i < pos && j == pos {
                assert(new_r[i] == old_r[i] && new_r[j] == stat);
            } else if i < pos && j > pos {
                assert(new_r[i] == old_r[i] && new_r[j] == old_r[j - 1]);
                assert(old_r[i].total_size >= old_r[j - 1].total_size);
            } else if i == pos && j > pos {
                assert(new_r[i] == stat && new_r[j] == old_r[j - 1]);
                assert(old_r[pos as int].total_size < stat.total_size);
                assert(old_r[pos as int].total_size >= old_r[j - 1].total_size);
            } else {
                assert(new_r[i] == old_r[i - 1] && new_r[j] == old_r[j - 1]);
            }
        }
    }
    pos
}

/// After inserting the statistic of the `k`-th registry language into a
/// breakdown of the first `k` languages, the list is a breakdown of the
/// first `k + 1`.
proof fn lemma_breakdown_step(
    vs: Seq<FileInfoView>,
    old_r: Seq<LanguageStat>,
    new_r: Seq<LanguageStat>,
    stat: LanguageStat,
    p: int,
    k: int,
)
    requires
        0 <= k < N_LANGUAGES,
        0 <= p <= old_r.len(),
        new_r == old_r.insert(p, stat),
        stat.language@ == language_at(k),
        lang_stat_ok(vs, stat),
        forall|i: int| 0 <= i < old_r.len() ==> lang_stat_ok(vs, #[trigger] old_r[i]),
        forall|i: int| 0 <= i < old_r.len() ==> lang_below(#[trigger] old_r[i].language@, k),
        forall|k2: int|
            0 <= k2 < k && lang_count(vs, #[trigger] language_at(k2)) > 0 ==> has_lang(
                old_r,
                language_at(k2),
            ),
        forall|i: int, j: int| 0 <= i < j < old_r.len() ==> old_r[i].language@ != old_r[j].language@,
        forall|i: int, j: int|
            0 <= i < j < old_r.len() && old_r[i].total_size == old_r[j].total_size
                ==> registry_precedes(old_r[i].language@, old_r[j].language@),
        forall|j: int| 0 <= j < p ==> old_r[j].total_size >= stat.total_size,
        forall|j: int| p <= j < old_r.len() ==> old_r[j].total_size < stat.total_size,
    ensures
        forall|i: int| 0 <= i < new_r.len() ==> lang_stat_ok(vs, #[trigger] new_r[i]),
        forall|i: int| 0 <= i < new_r.len() ==> lang_below(#[trigger] new_r[i].language@, k + 1),
        forall|k2: int|
            0 <= k2 < k + 1 && lang_count(vs, #[trigger] language_at(k2)) > 0 ==> has_lang(
                new_r,
                language_at(k2),
            ),
        forall|i: int, j: int| 0 <= i < j < new_r.len() ==> new_r[i].language@ != new_r[j].language@,
        forall|i: int, j: int|
            0 <= i < j < new_r.len() && new_r[i].total_size == new_r[j].total_size
                ==> registry_precedes(new_r[i].language@, new_r[j].language@),
{
    old_r.insert_ensures(p, stat);
    assert(lang_below(stat.language@, k + 1));
    assert forall|i: int|
        0 <= i < new_r.len() implies lang_stat_ok(vs, #[trigger] new_r[i]) && lang_below(
        new_r[i].language@,
        k + 1,
    ) by {
        if i < p {
            assert(new_r[i] == old_r[i]);
            lemma_lang_below_widen(old_r[i].language@, k);
        } else if i == p {
            assert(new_r[i] == stat);
        } else {
            assert(new_r[i] == old_r[i - 1]);
            lemma_lang_below_widen(old_r[i - 1].language@, k);
        }
    }
    assert forall|k2: int|
        0 <= k2 < k + 1 && lang_count(vs, #[trigger] language_at(k2)) > 0 implies has_lang(
        new_r,
        language_at(k2),
    ) by {
        if k2 == k {
            assert(new_r[p].language@ == language_at(k));
        } else {
            lemma_has_lang_insert(old_r, new_r, stat, p, language_at(k2));
        }
    }
    assert forall|i: int, j: int|
        0 <= i < j < new_r.len() implies new_r[i].language@ != new_r[j].language@ by {
        if j < p {
            assert(new_r[i] == old_r[i] && new_r[j] == old_r[j]);
        } else if i < p && j == p {
            assert(new_r[i] == old_r[i] && new_r[j] == stat);
            lemma_lang_below_ne(old_r[i].language@, k);
        } else if i < p && j > p {
            assert(new_r[i] == old_r[i] && new_r[j] == old_r[j - 1]);
        } else if i == p && j > p {
            assert(new_r[i] == stat && new_r[j] == old_r[j - 1]);
            lemma_lang_below_ne(old_r[j - 1].language@, k);
        } else {
            assert(new_r[i] == old_r[i - 1] && new_r[j] == old_r[j - 1]);
        }
    }
    assert forall|i: int, j: int|
        0 <= i < j < new_r.len() && new_r[i].total_size == new_r[j].total_size
            implies registry_precedes(new_r[i].language@, new_r[j].language@) by {
        if j < p {
            assert(new_r[i] == old_r[i] && new_r[j] == old_r[j]);
        } else if i < p && j == p {
            // an old element tied with the new one: its registry index
            // is below k, the new element's index
            assert(new_r[i] == old_r[i] && new_r[j] == stat);
            let k2 = choose|k2: int| 0 <= k2 < k && old_r[i].language@ == language_at(k2);
            assert(0 <= k2 < k < N_LANGUAGES && new_r[i].language@ == language_at(k2)
                && new_r[j].language@ == language_at(k));
        } else if i < p && j > p {
            // sizes differ across the insertion point, so no tie
            assert(new_r[i] == old_r[i] && new_r[j] == old_r[j - 1]);
            assert(old_r[j - 1].total_size < stat.total_size);
        } else if i == p && j > p {
            assert(new_r[i] == stat && new_r[j] == old_r[j - 1]);
            assert(old_r[j - 1].total_size < stat.total_size);
        } else {
            assert(new_r[i] == old_r[i - 1] && new_r[j] == old_r[j - 1]);
        }
    }
}

/// The share of `sz` in `total`, in hundredths of a percent.
fn pct_of(sz: u64, total: u64) -> (r: u64)
    requires
        sz <= total,
    ensures
        r as int == spec_pct(sz as int, total as int),
{
    if total > 0 {
        proof {
            lemma_mul_inequality(sz as int, total as int, 10000);
            lemma_div_is_ordered(sz as int * 10000, total as int * 10000, total as int);
            lemma_div_by_multiple(10000, total as int);
        }
        (((sz as u128) * 10000) / (total as u128)) as u64
    } else {
        0
    }
}

/// Build the per-language breakdown of a file list: for every registry
/// language with at least one file, its exact count, saturating total
/// size, and share of all tracked bytes in hundredths of a percent;
/// ordered by descending total size, registry order breaking ties.
pub fn analyze_languages(files: &Vec<FileInfo>) -> (r: Vec<LanguageStat>)
    ensures
        lang_stats_ok(views_of(files@), r@),
{
    let ghost vs = views_of(files@);
    let total = tracked_tally(files);
    let mut r: Vec<LanguageStat> = Vec::new();
    let mut k: usize = 0;
    while k < N_LANGUAGES
        invariant
            k <= N_LANGUAGES,
            vs == views_of(files@),
            total as int == clamp_u64(tracked_size(vs)),
            forall|i: int| 0 <= i < r@.len() ==> lang_stat_ok(vs, #[trigger] r@[i]),
            forall|i: int| 0 <= i < r@.len() ==> lang_below(#[trigger] r@[i].language@, k as int),
            forall|k2: int|
                0 <= k2 < k && lang_count(vs, #[trigger] language_at(k2)) > 0 ==> has_lang(
                    r@,
                    language_at(k2),
                ),
            forall|i: int, j: int| 0 <= i < j < r@.len() ==> r@[i].language@ != r@[j].language@,
            sorted_desc(r@),
            forall|i: int, j: int|
                0 <= i < j < r@.len() && r@[i].total_size == r@[j].total_size
                    ==> registry_precedes(r@[i].language@, r@[j].language@),
        decreases N_LANGUAGES - k,
    {
        let lang = language_name_at(k);
        let tally = lang_tally(files, lang);
        let cnt = tally.0;
        let sz = tally.1;
        if cnt > 0 {
            proof {
                lemma_lang_sums(vs, lang@);
            }
            let pct: u64 = pct_of(sz, total);
            let stat = LanguageStat {
                language: lang.to_owned(),
                file_count: cnt,
                total_size: sz,
                percentage_hundredths: pct,
            };
            let ghost old_r = r@;
            proof {
                assert(lang_below(stat.language@, N_LANGUAGES as int));
                assert(lang_stat_ok(vs, stat));
            }
            let pos = insert_sorted(&mut r, stat);
            proof {
                lemma_breakdown_step(vs, old_r, r@, stat, pos as int, k as int);
            }
        } else {
            proof {
                // a language with no files never enters the list, so
                // completeness extends to it vacuously
                assert(lang_count(vs, language_at(k as int)) == 0);
                assert forall|i: int|
                    0 <= i < r@.len() implies lang_below(#[trigger] r@[i].language@, k + 1) by {
                    lemma_lang_below_widen(r@[i].language@, k as int);
                }
            }
        }
        k += 1;
    }
    r
}

/// Registry order is asymmetric: a label that precedes another is not
/// preceded by it.
proof fn lemma_registry_antisym(l1: Seq<char>, l2: Seq<char>)
    requires
        registry_precedes(l1, l2),
    ensures
        !registry_precedes(l2, l1),
{
    lemma_languages_distinct();
    if registry_precedes(l2, l1) {
        let (k1, k2) = choose|k1: int, k2: int|
            0 <= k1 < k2 < N_LANGUAGES && l1 == language_at(k1) && l2 == language_at(k2);
        let (k3, k4) = choose|k3: int, k4: int|
            0 <= k3 < k4 < N_LANGUAGES && l2 == language_at(k3) && l1 == language_at(k4);
        // labels determine their registry index, so the two orders clash
        assert(k1 == k4);
        assert(k2 == k3);
    }
}

/// The language of any breakdown element appears in every other correct
/// breakdown of the same files.
proof fn lemma_match(
    files: Seq<FileInfoView>,
    ra: Seq<LanguageStat>,
    rb: Seq<LanguageStat>,
    i: int,
) -> (j: int)
    requires
        lang_stats_ok(files, ra),
        lang_stats_ok(files, rb),
        0 <= i < ra.len(),
    ensures
        0 <= j < rb.len(),
        rb[j].language@ == ra[i].language@,
{
    let k = choose|k: int| 0 <= k < N_LANGUAGES && ra[i].language@ == language_at(k);
    assert(lang_count(files, language_at(k)) > 0);
    assert(has_lang(rb, language_at(k)));
    choose|j: int| 0 <= j < rb.len() && rb[j].language@ == ra[i].language@
}

/// Two correct breakdowns list the same language at every index.
proof fn lemma_langs_agree_at(
    files: Seq<FileInfoView>,
    r1: Seq<LanguageStat>,
    r2: Seq<LanguageStat>,
    i: int,
)
    requires
        lang_stats_ok(files, r1),
        lang_stats_ok(files, r2),
        0 <= i < r1.len(),
    ensures
        i < r2.len(),
        r2[i].language@ == r1[i].language@,
    decreases i,
{
    assert forall|i2: int|
        0 <= i2 < i implies i2 < r2.len() && r2[i2].language@ == r1[i2].language@ by {
        lemma_langs_agree_at(files, r1, r2, i2);
    }
    let j = lemma_match(files, r1, r2, i);
    if j < i {
        // the prefixes agree, so a match below i would duplicate a
        // language inside r1
        assert(r2[j].language@ == r1[j].language@);
        assert(false);
    }
    if r2[i].language@ != r1[i].language@ {
        let j2 = lemma_match(files, r2, r1, i);
        if j2 < i {
            assert(r1[j2].language@ == r2[j2].language@);
            assert(false);
        }
        assert(j > i);
        assert(j2 > i);
        // matched elements carry the same total size, so all four
        // elements are tied
        assert(r2[j].total_size == r1[i].total_size);
        assert(r1[j2].total_size == r2[i].total_size);
        assert(r2[i].total_size >= r2[j].total_size);
        assert(r1[i].total_size >= r1[j2].total_size);
        assert(r1[i].total_size == r1[j2].total_size);
        assert(r2[i].total_size == r2[j].total_size);
        // and the two tie-break clauses order their languages both ways
        assert(registry_precedes(r1[i].language@, r1[j2].language@));
        assert(registry_precedes(r2[i].language@, r2[j].language@));
        lemma_registry_antisym(r1[i].language@, r2[i].language@);
    }
}

/// The breakdown predicate determines the breakdown: any two lists that
/// satisfy it for the same files agree in length and element by element
/// (strings compared by content). In particular, the breakdown inside
/// `analyze_project` and the output of `analyze_languages` agree.
pub proof fn lemma_breakdown_unique(
    files: Seq<FileInfoView>,
    r1: Seq<LanguageStat>,
    r2: Seq<LanguageStat>,
)
    requires
        lang_stats_ok(files, r1),
        lang_stats_ok(files, r2),
    ensures
        r1.len() == r2.len(),
        forall|i: int|
            0 <= i < r1.len() ==> {
                &&& (#[trigger] r1[i]).language@ == r2[i].language@
                &&& r1[i].file_count == r2[i].file_count
                &&& r1[i].total_size == r2[i].total_size
                &&& r1[i].percentage_hundredths == r2[i].percentage_hundredths
            },
{
    if r1.len() > r2.len() {
        lemma_langs_agree_at(files, r1, r2, r2.len() as int);
    }
    if r2.len() > r1.len() {
        lemma_langs_agree_at(files, r2, r1, r1.len() as int);
    }
    assert forall|i: int|
        0 <= i < r1.len() implies {
        &&& (#[trigger] r1[i]).language@ == r2[i].language@
        &&& r1[i].file_count == r2[i].file_count
        &&& r1[i].total_size == r2[i].total_size
        &&& r1[i].percentage_hundredths == r2[i].percentage_hundredths
    } by {
        lemma_langs_agree_at(files, r1, r2, i);
        assert(lang_stat_ok(files, r1[i]));
        assert(lang_stat_ok(files, r2[i]));
    }
}

pub open spec fn spec_is_dep_name(n: Seq<char>) -> bool {
    ||| n == "package.json"@
    ||| n == "package-lock.json"@
    ||| n == "yarn.lock"@
    ||| n == "pnpm-lock.yaml"@
    ||| n == "Cargo.toml"@
    ||| n == "Cargo.lock"@
    ||| n == "pubspec.yaml"@
    ||| n == "pubspec.lock"@
    ||| n == "requirements.txt"@
    ||| n == "Pipfile"@
    ||| n == "go.mod"@
    ||| n == "go.sum"@
    ||| n == "Gemfile"@
    ||| n == "Gemfile.lock"@
    ||| n == "composer.json"@
    ||| n == "composer.lock"@
}

/// Whether the name is a known dependency manifest or lockfile.
fn is_dep_name(n: &str) -> (r: bool)
    ensures
        r == spec_is_dep_name(n@),
{
    str_eq(n, "package.json") || str_eq(n, "package-lock.json") || str_eq(n, "yarn.lock")
        || str_eq(n, "pnpm-lock.yaml") || str_eq(n, "Cargo.toml") || str_eq(n, "Cargo.lock")
        || str_eq(n, "pubspec.yaml") || str_eq(n, "pubspec.lock") || str_eq(n, "requirements.txt")
        || str_eq(n, "Pipfile") || str_eq(n, "go.mod") || str_eq(n, "go.sum") || str_eq(
        n,
        "Gemfile",
    ) || str_eq(n, "Gemfile.lock") || str_eq(n, "composer.json") || str_eq(n, "composer.lock")
}

/// The views of a sequence of strings.
pub open spec fn str_views(s: Seq<String>) -> Seq<Seq<char>> {
    s.map_values(|x: String| x@)
}

/// Paths of the non-directory entries whose name is a dependency file.
pub open spec fn spec_dep_files(files: Seq<FileInfoView>) -> Seq<Seq<char>>
    decreases files.len(),
{
    if files.len() == 0 {
        Seq::empty()
    } else {
        spec_dep_files(files.drop_last()) + if !files.last().is_dir && spec_is_dep_name(
            files.last().name,
        ) {
            seq![files.last().path]
        } else {
            Seq::empty()
        }
    }
}

/// Collect the paths of dependency manifests and lockfiles, in input order.
pub fn find_dependency_files(files: &Vec<FileInfo>) -> (r: Vec<String>)
    ensures
        str_views(r@) == spec_dep_files(views_of(files@)),
{
    let ghost vs = views_of(files@);
    let mut r: Vec<String> = Vec::new();
    let mut i: usize = 0;
    while i < files.len()
        invariant
            i <= files@.len(),
            vs == views_of(files@),
            vs.len() == files@.len(),
            str_views(r@) == spec_dep_files(vs.take(i as int)),
        decreases files@.len() - i,
    {
        proof {
            assert(vs.take(i + 1).drop_last() =~= vs.take(i as int));
            assert(vs.take(i + 1).last() == vs[i as int]);
        }
        let f = &files[i];
        if !f.is_dir && is_dep_name(f.name.as_str()) {
            let ghost before = r@;
            r.push(f.path.clone());
            proof {
                assert(str_views(r@) =~= str_views(before).push(f.path@));
            }
        }
        i += 1;
    }
    proof {
        assert(vs.take(files@.len() as int) =~= vs);
    }
    r
}

/// A config entry for the analyzer: a dotfile, one of a fixed list of
/// names, or a `.config.js` / `.config.ts` suffix.
pub open spec fn spec_is_config_entry(n: Seq<char>) -> bool {
    ||| n == ".gitignore"@
    ||| n == ".env"@
    ||| n == "tsconfig.json"@
    ||| n == "webpack.config.js"@
    ||| n == "vite.config.js"@
    ||| n == "rollup.config.js"@
    ||| n == "babel.config.js"@
    ||| n == ".eslintrc"@
    ||| n == ".prettierrc"@
    ||| n == "Dockerfile"@
    ||| n == "docker-compose.yml"@
    ||| n == "nginx.conf"@
    ||| has_prefix(n, "."@)
    ||| has_suffix(n, ".config.js"@)
    ||| has_suffix(n, ".config.ts"@)
}

fn is_config_entry(n: &str) -> (r: bool)
    ensures
        r == spec_is_config_entry(n@),
{
    str_eq(n, ".gitignore") || str_eq(n, ".env") || str_eq(n, "tsconfig.json") || str_eq(
        n,
        "webpack.config.js",
    ) || str_eq(n, "vite.config.js") || str_eq(n, "rollup.config.js") || str_eq(
        n,
        "babel.config.js",
    ) || str_eq(n, ".eslintrc") || str_eq(n, ".prettierrc") || str_eq(n, "Dockerfile") || str_eq(
        n,
        "docker-compose.yml",
    ) || str_eq(n, "nginx.conf") || starts_with_str(n, ".") || ends_with_str(n, ".config.js")
        || ends_with_str(n, ".config.ts")
}

/// Paths of the non-directory entries that are config files.
pub open spec fn spec_config_files(files: Seq<FileInfoView>) -> Seq<Seq<char>>
    decreases files.len(),
{
    if files.len() == 0 {
        Seq::empty()
    } else {
        spec_config_files(files.drop_last()) + if !files.last().is_dir && spec_is_config_entry(
            files.last().name,
        ) {
            seq![files.last().path]
        } else {
            Seq::empty()
        }
    }
}

/// Collect the paths of configuration files, in input order.
pub fn find_config_files(files: &Vec<FileInfo>) -> (r: Vec<String>)
    ensures
        str_views(r@) == spec_config_files(views_of(files@)),
{
    let ghost vs = views_of(files@);
    let mut r: Vec<String> = Vec::new();
    let mut i: usize = 0;
    while i < files.len()
        invariant
            i <= files@.len(),
            vs == views_of(files@),
            vs.len() == files@.len(),
            str_views(r@) == spec_config_files(vs.take(i as int)),
        decreases files@.len() - i,
    {
        proof {
            assert(vs.take(i + 1).drop_last() =~= vs.take(i as int));
            assert(vs.take(i + 1).last() == vs[i as int]);
        }
        let f = &files[i];
        if !f.is_dir && is_config_entry(f.name.as_str()) {
            let ghost before = r@;
            r.push(f.path.clone());
            proof {
                assert(str_views(r@) =~= str_views(before).push(f.path@));
            }
        }
        i += 1;
    }
    proof {
        assert(vs.take(files@.len() as int) =~= vs);
    }
    r
}

/// Estimated lines over the source-code entries, at one line per 40
/// bytes, as an unbounded integer.
pub open spec fn spec_est_lines(files: Seq<FileInfoView>) -> int
    decreases files.len(),
{
    if files.len() == 0 {
        0
    } else {
        spec_est_lines(files.drop_last()) + if !files.last().is_dir && spec_is_source(
            files.last().extension,
        ) {
            files.last().size as int / 40
        } else {
            0int
        }
    }
}

pub proof fn lemma_est_lines_nonneg(files: Seq<FileInfoView>)
    ensures
        spec_est_lines(files) >= 0,
    decreases files.len(),
{
    if files.len() > 0 {
        lemma_est_lines_nonneg(files.drop_last());
    }
}

/// Estimate the lines of source code in a file list: the sum of
/// `size / 40` over the non-directory source-code entries, saturating
/// at `u64::MAX`. A heuristic, not a count.
pub fn estimate_lines_of_code(files: &Vec<FileInfo>) -> (r: u64)
    ensures
        r as int == clamp_u64(spec_est_lines(views_of(files@))),
{
    let ghost vs = views_of(files@);
    let mut est: u64 = 0;
    let mut i: usize = 0;
    while i < files.len()
        invariant
            i <= files@.len(),
            vs == views_of(files@),
            vs.len() == files@.len(),
            est as int == clamp_u64(spec_est_lines(vs.take(i as int))),
        decreases files@.len() - i,
    {
        proof {
            assert(vs.take(i + 1).drop_last() =~= vs.take(i as int));
            assert(vs.take(i + 1).last() == vs[i as int]);
            lemma_est_lines_nonneg(vs.take(i as int));
        }
        let f = &files[i];
        if !f.is_dir && is_source_code(f.extension.as_str()) {
            est = sat_add_u64(est, f.size / 40);
        }
        i += 1;
    }
    proof {
        assert(vs.take(files@.len() as int) =~= vs);
    }
    est
}

/// Analyze a file list: project type, language breakdown, dependency
/// and config manifests, and the estimated line count. Pure and total —
/// an empty list yields "Unknown", empty collections, and 0 lines.
pub fn analyze_project(files: &Vec<FileInfo>) -> (r: ProjectAnalysis)
    ensures
        r.project_type@ == spec_detect(views_of(files@)),
        lang_stats_ok(views_of(files@), r.language_stats@),
        str_views(r.dependency_files@) == spec_dep_files(views_of(files@)),
        str_views(r.config_files@) == spec_config_files(views_of(files@)),
        r.estimated_lines as int == clamp_u64(spec_est_lines(views_of(files@))),
{
    let project_type = detect_project_type(files);
    let language_stats = analyze_languages(files);
    let dependency_files = find_dependency_files(files);
    let config_files = find_config_files(files);
    let estimated_lines = estimate_lines_of_code(files);
    ProjectAnalysis { project_type, language_stats, dependency_files, config_files, estimated_lines }
}

pub proof fn lemma_best_fallback_empty(k: int)
    ensures
        best_fallback(Seq::empty(), k) == (-1int, 0int),
    decreases k,
{
    if k > 0 {
        lemma_best_fallback_empty(k - 1);
    }
}

/// On an empty file list the analysis is degenerate: project type
/// "Unknown", no language statistics, no dependency or config files,
/// and zero estimated lines.
pub proof fn lemma_analyze_empty(r: Seq<LanguageStat>)
    ensures
        spec_detect(Seq::empty()) == "Unknown"@,
        spec_dep_files(Seq::empty()) == Seq::<Seq<char>>::empty(),
        spec_config_files(Seq::empty()) == Seq::<Seq<char>>::empty(),
        spec_est_lines(Seq::empty()) == 0,
        lang_stats_ok(Seq::empty(), r) ==> r.len() == 0,
{
    lemma_best_fallback_empty(N_FALLBACK_EXTS as int);
    if lang_stats_ok(Seq::empty(), r) && r.len() > 0 {
        assert(lang_stat_ok(Seq::empty(), r[0]));
        assert(lang_count(Seq::empty(), r[0].language@) == 0);
    }
}

} // verus!
