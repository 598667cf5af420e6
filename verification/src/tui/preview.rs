//! Line diff between the saved settings text and the edited one, and the
//! scroll offset that brings the first change into view.
use vstd::prelude::*;
use crate::text::{str_chars, str_eq, string_from_range};

verus! {

/// One line of a diff.
#[derive(Debug, Clone, PartialEq, Eq)]
pub enum DiffLine {
    Same(String),
    Added(String),
    Removed(String),
}

/// A diff line as a mathematical value.
pub enum DiffEntry {
    Same(Seq<char>),
    Added(Seq<char>),
    Removed(Seq<char>),
}

impl View for DiffLine {
    type V = DiffEntry;

    open spec fn view(&self) -> DiffEntry {
        match self {
            DiffLine::Same(s) => DiffEntry::Same(s@),
            DiffLine::Added(s) => DiffEntry::Added(s@),
            DiffLine::Removed(s) => DiffEntry::Removed(s@),
        }
    }
}

pub open spec fn diff_view(d: Seq<DiffLine>) -> Seq<DiffEntry> {
    d.map_values(|l: DiffLine| l@)
}

pub open spec fn strings_view(v: Seq<String>) -> Seq<Seq<char>> {
    v.map_values(|s: String| s@)
}

// ---------------------------------------------------------------- lines

/// Index of the first `'\n'` at or after `from`, or the length when there
/// is none.
pub open spec fn newline_at(s: Seq<char>, from: int) -> int
    decreases s.len() - from,
{
    if from >= s.len() {
        s.len() as int
    } else if s[from] == '\n' {
        from
    } else {
        newline_at(s, from + 1)
    }
}

/// The next newline at or after `from` is one, and none comes before it.
pub proof fn lemma_newline_at_bounds(s: Seq<char>, from: int)
    requires
        0 <= from <= s.len(),
    ensures
        from <= newline_at(s, from) <= s.len(),
        newline_at(s, from) < s.len() ==> s[newline_at(s, from)] == '\n',
        forall|k: int| from <= k < newline_at(s, from) ==> s[k] != '\n',
    decreases s.len() - from,
{
    if from < s.len() && s[from] != '\n' {
        lemma_newline_at_bounds(s, from + 1);
    }
}

/// A line ended by `"\r\n"` loses its carriage return.
pub open spec fn strip_cr(l: Seq<char>) -> Seq<char> {
    if l.len() > 0 && l.last() == '\r' {
        l.drop_last()
    } else {
        l
    }
}

/// The lines of `s[start..]`, as `str::lines` yields them: split at `'\n'`,
/// a `'\r'` just before a `'\n'` dropped, no empty line after a final
/// line ending.
pub open spec fn lines_from(s: Seq<char>, start: int) -> Seq<Seq<char>>
    decreases s.len() - start,
{
    if start < 0 || start >= s.len() {
        Seq::empty()
    } else {
        let e = newline_at(s, start);
        proof {
            lemma_newline_at_bounds(s, start);
        }
        if e >= s.len() {
            seq![s.subrange(start, s.len() as int)]
        } else {
            seq![strip_cr(s.subrange(start, e))] + lines_from(s, e + 1)
        }
    }
}

pub open spec fn lines_of(s: Seq<char>) -> Seq<Seq<char>> {
    lines_from(s, 0)
}

/// The lines of a text (`str::lines`).
pub fn split_lines(text: &str) -> (r: Vec<String>)
    ensures
        strings_view(r@) == lines_of(text@),
{
    let cs = str_chars(text);
    let n = cs.len();
    let mut out: Vec<String> = Vec::new();
    let mut start: usize = 0;
    proof {
        assert(strings_view(out@) =~= Seq::<Seq<char>>::empty());
        assert(Seq::<Seq<char>>::empty() + lines_from(cs@, 0) =~= lines_from(cs@, 0));
    }
    while start < n
        invariant
            start <= n,
            n == cs@.len(),
            cs@ == text@,
            strings_view(out@) + lines_from(cs@, start as int) == lines_of(cs@),
        decreases n - start,
    {
        let mut e = start;
        while e < n && cs[e] != '\n'
            invariant
                start <= e <= n,
                n == cs@.len(),
                newline_at(cs@, start as int) == newline_at(cs@, e as int),
            decreases n - e,
        {
            e = e + 1;
        }
        proof {
            lemma_newline_at_bounds(cs@, start as int);
        }
        let ghost old_out = out@;
        if e == n {
            let line = string_from_range(cs.as_slice(), start, n);
            out.push(line);
            proof {
                assert(strings_view(out@) =~= strings_view(old_out).push(line@));
                assert(lines_from(cs@, n as int) =~= Seq::<Seq<char>>::empty());
                assert(strings_view(out@) + lines_from(cs@, n as int) =~= strings_view(old_out)
                    + lines_from(cs@, start as int));
            }
            start = n;
        } else {
            let mut stop = e;
            if stop > start && cs[stop - 1] == '\r' {
                stop = stop - 1;
            }
            let line = string_from_range(cs.as_slice(), start, stop);
            proof {
                let l = cs@.subrange(start as int, e as int);
                if e > start && cs@[e - 1] == '\r' {
                    assert(l.drop_last() =~= cs@.subrange(start as int, stop as int));
                } else {
                    assert(l =~= cs@.subrange(start as int, stop as int));
                }
                assert(line@ == strip_cr(l));
            }
            out.push(line);
            proof {
                assert(strings_view(out@) =~= strings_view(old_out).push(line@));
                assert(strings_view(out@) + lines_from(cs@, e + 1) =~= strings_view(old_out)
                    + lines_from(cs@, start as int));
            }
            start = e + 1;
        }
    }
    proof {
        assert(lines_from(cs@, start as int) =~= Seq::<Seq<char>>::empty());
        assert(strings_view(out@) =~= strings_view(out@) + lines_from(cs@, start as int));
    }
    out
}

// ---------------------------------------------------------------- diff

/// Length of a longest common subsequence of two sequences of lines.
pub open spec fn lcs_len(a: Seq<Seq<char>>, b: Seq<Seq<char>>) -> nat
    decreases a.len() + b.len(),
{
    if a.len() == 0 || b.len() == 0 {
        0
    } else if a.last() == b.last() {
        lcs_len(a.drop_last(), b.drop_last()) + 1
    } else {
        let x = lcs_len(a.drop_last(), b);
        let y = lcs_len(a, b.drop_last());
        if x >= y {
            x
        } else {
            y
        }
    }
}

/// The diff read back from the longest-common-subsequence table, from the
/// last lines towards the first: equal last lines are kept; otherwise the
/// new text's last line is taken as added when dropping it loses no common
/// line compared with dropping the old text's last line, else the old
/// text's last line is taken as removed.
pub open spec fn diff_of(a: Seq<Seq<char>>, b: Seq<Seq<char>>) -> Seq<DiffEntry>
    decreases a.len() + b.len(),
{
    if a.len() == 0 {
        b.map_values(|l: Seq<char>| DiffEntry::Added(l))
    } else if b.len() == 0 {
        a.map_values(|l: Seq<char>| DiffEntry::Removed(l))
    } else if a.last() == b.last() {
        diff_of(a.drop_last(), b.drop_last()).push(DiffEntry::Same(a.last()))
    } else if lcs_len(a, b.drop_last()) >= lcs_len(a.drop_last(), b) {
        diff_of(a, b.drop_last()).push(DiffEntry::Added(b.last()))
    } else {
        diff_of(a.drop_last(), b).push(DiffEntry::Removed(a.last()))
    }
}

/// The lines of the old text that a diff shows (unchanged and removed).
pub open spec fn old_side(d: Seq<DiffEntry>) -> Seq<Seq<char>>
    decreases d.len(),
{
    if d.len() == 0 {
        Seq::empty()
    } else {
        let rest = old_side(d.drop_last());
        match d.last() {
            DiffEntry::Same(l) => rest.push(l),
            DiffEntry::Removed(l) => rest.push(l),
            DiffEntry::Added(_) => rest,
        }
    }
}

/// The lines of the new text that a diff shows (unchanged and added).
pub open spec fn new_side(d: Seq<DiffEntry>) -> Seq<Seq<char>>
    decreases d.len(),
{
    if d.len() == 0 {
        Seq::empty()
    } else {
        let rest = new_side(d.drop_last());
        match d.last() {
            DiffEntry::Same(l) => rest.push(l),
            DiffEntry::Added(l) => rest.push(l),
            DiffEntry::Removed(_) => rest,
        }
    }
}

/// How many lines a diff keeps unchanged.
pub open spec fn same_count(d: Seq<DiffEntry>) -> nat
    decreases d.len(),
{
    if d.len() == 0 {
        0
    } else {
        same_count(d.drop_last()) + if d.last() is Same {
            1nat
        } else {
            0nat
        }
    }
}

/// A common subsequence is no longer than either text.
pub proof fn lemma_lcs_len_bounded(a: Seq<Seq<char>>, b: Seq<Seq<char>>)
    ensures
        lcs_len(a, b) <= a.len(),
        lcs_len(a, b) <= b.len(),
    decreases a.len() + b.len(),
{
    if a.len() > 0 && b.len() > 0 {
        lemma_lcs_len_bounded(a.drop_last(), b.drop_last());
        lemma_lcs_len_bounded(a.drop_last(), b);
        lemma_lcs_len_bounded(a, b.drop_last());
    }
}

proof fn lemma_all_added(b: Seq<Seq<char>>)
    ensures
        old_side(b.map_values(|l: Seq<char>| DiffEntry::Added(l))) == Seq::<Seq<char>>::empty(),
        new_side(b.map_values(|l: Seq<char>| DiffEntry::Added(l))) == b,
        same_count(b.map_values(|l: Seq<char>| DiffEntry::Added(l))) == 0,
    decreases b.len(),
{
    let d = b.map_values(|l: Seq<char>| DiffEntry::Added(l));
    if b.len() > 0 {
        lemma_all_added(b.drop_last());
        assert(d.drop_last() =~= b.drop_last().map_values(|l: Seq<char>| DiffEntry::Added(l)));
        assert(b.drop_last().push(b.last()) =~= b);
    } else {
        assert(b =~= Seq::<Seq<char>>::empty());
    }
}

proof fn lemma_all_removed(a: Seq<Seq<char>>)
    ensures
        old_side(a.map_values(|l: Seq<char>| DiffEntry::Removed(l))) == a,
        new_side(a.map_values(|l: Seq<char>| DiffEntry::Removed(l))) == Seq::<Seq<char>>::empty(),
        same_count(a.map_values(|l: Seq<char>| DiffEntry::Removed(l))) == 0,
    decreases a.len(),
{
    let d = a.map_values(|l: Seq<char>| DiffEntry::Removed(l));
    if a.len() > 0 {
        lemma_all_removed(a.drop_last());
        assert(d.drop_last() =~= a.drop_last().map_values(|l: Seq<char>| DiffEntry::Removed(l)));
        assert(a.drop_last().push(a.last()) =~= a);
    } else {
        assert(a =~= Seq::<Seq<char>>::empty());
    }
}

/// The diff of two texts reproduces both of them: its unchanged and
/// removed lines, in order, are the old text; its unchanged and added
/// lines are the new text; and it keeps a longest common subsequence of
/// the two unchanged.
pub proof fn lemma_diff_reproduces_both_texts(a: Seq<Seq<char>>, b: Seq<Seq<char>>)
    ensures
        old_side(diff_of(a, b)) == a,
        new_side(diff_of(a, b)) == b,
        same_count(diff_of(a, b)) == lcs_len(a, b),
    decreases a.len() + b.len(),
{
    if a.len() == 0 {
        lemma_all_added(b);
        assert(a =~= Seq::<Seq<char>>::empty());
    } else if b.len() == 0 {
        lemma_all_removed(a);
        assert(b =~= Seq::<Seq<char>>::empty());
    } else {
        assert(a.drop_last().push(a.last()) =~= a);
        assert(b.drop_last().push(b.last()) =~= b);
        if a.last() == b.last() {
            lemma_diff_reproduces_both_texts(a.drop_last(), b.drop_last());
            let d = diff_of(a.drop_last(), b.drop_last()).push(DiffEntry::Same(a.last()));
            assert(d.drop_last() =~= diff_of(a.drop_last(), b.drop_last()));
        } else if lcs_len(a, b.drop_last()) >= lcs_len(a.drop_last(), b) {
            lemma_diff_reproduces_both_texts(a, b.drop_last());
            let d = diff_of(a, b.drop_last()).push(DiffEntry::Added(b.last()));
            assert(d.drop_last() =~= diff_of(a, b.drop_last()));
        } else {
            lemma_diff_reproduces_both_texts(a.drop_last(), b);
            let d = diff_of(a.drop_last(), b).push(DiffEntry::Removed(a.last()));
            assert(d.drop_last() =~= diff_of(a.drop_last(), b));
        }
    }
}

/// A text compared with itself: every line is unchanged.
pub proof fn lemma_diff_of_identical(a: Seq<Seq<char>>)
    ensures
        diff_of(a, a) == a.map_values(|l: Seq<char>| DiffEntry::Same(l)),
    decreases a.len(),
{
    if a.len() > 0 {
        lemma_diff_of_identical(a.drop_last());
        assert(a.map_values(|l: Seq<char>| DiffEntry::Same(l)) =~= a.drop_last().map_values(
            |l: Seq<char>| DiffEntry::Same(l),
        ).push(DiffEntry::Same(a.last())));
    } else {
        assert(diff_of(a, a) =~= a.map_values(|l: Seq<char>| DiffEntry::Same(l)));
    }
}

/// Rows `0..rows` of the table hold the common-subsequence lengths of the
/// prefixes.
pub open spec fn table_holds(
    table: Seq<Vec<usize>>,
    a: Seq<Seq<char>>,
    b: Seq<Seq<char>>,
    rows: int,
) -> bool {
    &&& table.len() == rows
    &&& forall|ii: int| 0 <= ii < rows ==> (#[trigger] table[ii])@.len() == b.len() + 1
    &&& forall|ii: int, jj: int|
        0 <= ii < rows && 0 <= jj <= b.len() ==> #[trigger] table[ii]@[jj] == lcs_len(
            a.take(ii),
            b.take(jj),
        )
}

proof fn lemma_reverse_push(s: Seq<DiffEntry>, x: DiffEntry)
    ensures
        s.push(x).reverse() == seq![x] + s.reverse(),
{
    let l = s.push(x).reverse();
    let r = seq![x] + s.reverse();
    assert(l.len() == r.len());
    assert forall|k: int| 0 <= k < l.len() implies l[k] == r[k] by {
        if k == 0 {
        } else {
            assert(r[k] == s.reverse()[k - 1]);
        }
    }
    assert(l =~= r);
}

proof fn lemma_diff_empty_old(b: Seq<Seq<char>>)
    requires
        b.len() > 0,
    ensures
        diff_of(Seq::empty(), b) == diff_of(Seq::empty(), b.drop_last()).push(
            DiffEntry::Added(b.last()),
        ),
{
    assert(b.map_values(|l: Seq<char>| DiffEntry::Added(l)) =~= b.drop_last().map_values(
        |l: Seq<char>| DiffEntry::Added(l),
    ).push(DiffEntry::Added(b.last())));
}

proof fn lemma_diff_empty_new(a: Seq<Seq<char>>)
    requires
        a.len() > 0,
    ensures
        diff_of(a, Seq::empty()) == diff_of(a.drop_last(), Seq::empty()).push(
            DiffEntry::Removed(a.last()),
        ),
{
    assert(a.map_values(|l: Seq<char>| DiffEntry::Removed(l)) =~= a.drop_last().map_values(
        |l: Seq<char>| DiffEntry::Removed(l),
    ).push(DiffEntry::Removed(a.last())));
    if a.len() == 1 {
        assert(diff_of(a.drop_last(), Seq::empty()) =~= Seq::<DiffEntry>::empty());
        assert(a.drop_last().map_values(|l: Seq<char>| DiffEntry::Removed(l)) =~= Seq::<
            DiffEntry,
        >::empty());
    }
}

/// Line diff of two texts (`str::lines` of each), by longest common
/// subsequence.
pub fn line_diff(original: &str, current: &str) -> (r: Vec<DiffLine>)
    ensures
        diff_view(r@) == diff_of(lines_of(original@), lines_of(current@)),
{
    let a = split_lines(original);
    let b = split_lines(current);
    let n = a.len();
    let m = b.len();
    let ghost la = strings_view(a@);
    let ghost lb = strings_view(b@);
    let mut table: Vec<Vec<usize>> = Vec::new();
    let mut row0: Vec<usize> = Vec::new();
    row0.push(0);
    let mut j: usize = 0;
    while j < m
        invariant
            j <= m,
            row0@.len() == j + 1,
            forall|jj: int| 0 <= jj <= j ==> row0@[jj] == 0,
        decreases m - j,
    {
        row0.push(0);
        j = j + 1;
    }
    table.push(row0);
    proof {
        assert forall|ii: int, jj: int| 0 <= ii < 1 && 0 <= jj <= lb.len() implies #[trigger] table@[ii]@[jj]
            == lcs_len(la.take(ii), lb.take(jj)) by {
            assert(la.take(0).len() == 0);
        }
    }
    let mut i: usize = 0;
    while i < n
        invariant
            i <= n,
            n == a@.len(),
            m == b@.len(),
            la == strings_view(a@),
            lb == strings_view(b@),
            table_holds(table@, la, lb, i + 1),
        decreases n - i,
    {
        let mut cur: Vec<usize> = Vec::new();
        cur.push(0);
        proof {
            assert(lb.take(0).len() == 0);
        }
        let mut j: usize = 0;
        while j < m
            invariant
                i < n,
                j <= m,
                n == a@.len(),
                m == b@.len(),
                la == strings_view(a@),
                lb == strings_view(b@),
                table_holds(table@, la, lb, i + 1),
                cur@.len() == j + 1,
                forall|jj: int| 0 <= jj <= j ==> cur@[jj] == lcs_len(la.take(i + 1), lb.take(jj)),
            decreases m - j,
        {
            let ghost ai = la.take(i as int);
            let ghost ai1 = la.take(i + 1);
            let ghost bj = lb.take(j as int);
            let ghost bj1 = lb.take(j + 1);
            proof {
                assert(ai1.drop_last() =~= ai);
                assert(bj1.drop_last() =~= bj);
                assert(ai1.last() == a@[i as int]@);
                assert(bj1.last() == b@[j as int]@);
                lemma_lcs_len_bounded(ai, bj);
                assert(table@[i as int]@[j as int] == lcs_len(ai, bj));
                assert(table@[i as int]@[j + 1] == lcs_len(ai, bj1));
            }
            let v: usize;
            if str_eq(a[i].as_str(), b[j].as_str()) {
                v = table[i][j] + 1;
            } else {
                let x = table[i][j + 1];
                let y = cur[j];
                v = if x >= y {
                    x
                } else {
                    y
                };
            }
            cur.push(v);
            j = j + 1;
        }
        let ghost old_table = table@;
        table.push(cur);
        proof {
            assert forall|ii: int, jj: int| 0 <= ii < i + 2 && 0 <= jj <= lb.len() implies #[trigger] table@[ii]@[jj]
                == lcs_len(la.take(ii), lb.take(jj)) by {
                if ii < i + 1 {
                    assert(table@[ii] == old_table[ii]);
                }
            }
        }
        i = i + 1;
    }
    // Read the table back from the bottom-right corner.
    let mut rev: Vec<DiffLine> = Vec::new();
    let mut i: usize = n;
    let mut j: usize = m;
    proof {
        assert(la.take(n as int) =~= la);
        assert(lb.take(m as int) =~= lb);
        assert(diff_view(rev@).reverse() =~= Seq::<DiffEntry>::empty());
        assert(diff_of(la, lb) =~= diff_of(la.take(i as int), lb.take(j as int)) + diff_view(
            rev@,
        ).reverse());
    }
    while i > 0 && j > 0
        invariant
            i <= n,
            j <= m,
            n == a@.len(),
            m == b@.len(),
            la == strings_view(a@),
            lb == strings_view(b@),
            table_holds(table@, la, lb, n + 1),
            diff_of(la, lb) == diff_of(la.take(i as int), lb.take(j as int)) + diff_view(
                rev@,
            ).reverse(),
        decreases i + j,
    {
        let ghost ai = la.take(i as int);
        let ghost bj = lb.take(j as int);
        let ghost old_rev = rev@;
        proof {
            assert(ai.drop_last() =~= la.take(i - 1));
            assert(bj.drop_last() =~= lb.take(j - 1));
            assert(ai.last() == a@[i - 1]@);
            assert(bj.last() == b@[j - 1]@);
            assert(table@[i as int]@[j - 1] == lcs_len(ai, lb.take(j - 1)));
            assert(table@[i - 1]@[j as int] == lcs_len(la.take(i - 1), bj));
        }
        let line: DiffLine;
        if str_eq(a[i - 1].as_str(), b[j - 1].as_str()) {
            line = DiffLine::Same(a[i - 1].clone());
            i = i - 1;
            j = j - 1;
        } else if table[i][j - 1] >= table[i - 1][j] {
            line = DiffLine::Added(b[j - 1].clone());
            j = j - 1;
        } else {
            line = DiffLine::Removed(a[i - 1].clone());
            i = i - 1;
        }
        rev.push(line);
        proof {
            assert(diff_view(rev@) =~= diff_view(old_rev).push(line@));
            lemma_reverse_push(diff_view(old_rev), line@);
            let d = diff_of(la.take(i as int), lb.take(j as int));
            assert(d.push(line@) + diff_view(old_rev).reverse() =~= d + (seq![line@]
                + diff_view(old_rev).reverse()));
        }
    }
    while i > 0
        invariant
            i <= n,
            i > 0 ==> j == 0,
            j <= m,
            n == a@.len(),
            m == b@.len(),
            la == strings_view(a@),
            lb == strings_view(b@),
            diff_of(la, lb) == diff_of(la.take(i as int), lb.take(j as int)) + diff_view(
                rev@,
            ).reverse(),
        decreases i,
    {
        let ghost old_rev = rev@;
        let line = DiffLine::Removed(a[i - 1].clone());
        proof {
            let ai = la.take(i as int);
            assert(ai.drop_last() =~= la.take(i - 1));
            assert(lb.take(0) =~= Seq::<Seq<char>>::empty());
            lemma_diff_empty_new(ai);
        }
        rev.push(line);
        i = i - 1;
        proof {
            assert(diff_view(rev@) =~= diff_view(old_rev).push(line@));
            lemma_reverse_push(diff_view(old_rev), line@);
            let d = diff_of(la.take(i as int), lb.take(j as int));
            assert(d.push(line@) + diff_view(old_rev).reverse() =~= d + (seq![line@]
                + diff_view(old_rev).reverse()));
        }
    }
    while j > 0
        invariant
            i == 0,
            j <= m,
            m == b@.len(),
            lb == strings_view(b@),
            diff_of(la, lb) == diff_of(la.take(i as int), lb.take(j as int)) + diff_view(
                rev@,
            ).reverse(),
        decreases j,
    {
        let ghost old_rev = rev@;
        let line = DiffLine::Added(b[j - 1].clone());
        proof {
            let bj = lb.take(j as int);
            assert(bj.drop_last() =~= lb.take(j - 1));
            assert(la.take(0) =~= Seq::<Seq<char>>::empty());
            lemma_diff_empty_old(bj);
        }
        rev.push(line);
        j = j - 1;
        proof {
            assert(diff_view(rev@) =~= diff_view(old_rev).push(line@));
            lemma_reverse_push(diff_view(old_rev), line@);
            let d = diff_of(la.take(i as int), lb.take(j as int));
            assert(d.push(line@) + diff_view(old_rev).reverse() =~= d + (seq![line@]
                + diff_view(old_rev).reverse()));
        }
    }
    proof {
        assert(la.take(0) =~= Seq::<Seq<char>>::empty());
        assert(lb.take(0) =~= Seq::<Seq<char>>::empty());
        assert(diff_of(Seq::<Seq<char>>::empty(), Seq::<Seq<char>>::empty()) =~= Seq::<
            DiffEntry,
        >::empty());
        assert(diff_of(la, lb) =~= diff_view(rev@).reverse());
    }
    // Put the lines back in reading order.
    let mut out: Vec<DiffLine> = Vec::new();
    proof {
        assert(diff_view(out@) + diff_view(rev@).reverse() =~= diff_view(rev@).reverse());
    }
    while rev.len() > 0
        invariant
            diff_of(la, lb) == diff_view(out@) + diff_view(rev@).reverse(),
        decreases rev@.len(),
    {
        let ghost old_rev = rev@;
        let ghost old_out = out@;
        let line = rev.pop().unwrap();
        proof {
            assert(old_rev =~= rev@.push(line));
            assert(diff_view(old_rev) =~= diff_view(rev@).push(line@));
            lemma_reverse_push(diff_view(rev@), line@);
        }
        out.push(line);
        proof {
            assert(diff_view(out@) =~= diff_view(old_out).push(line@));
            assert(diff_view(out@) + diff_view(rev@).reverse() =~= diff_view(old_out) + (seq![
                line@,
            ] + diff_view(rev@).reverse()));
        }
    }
    proof {
        assert(diff_view(rev@).reverse() =~= Seq::<DiffEntry>::empty());
        assert(diff_view(out@) + diff_view(rev@).reverse() =~= diff_view(out@));
    }
    out
}

// ---------------------------------------------------------------- scrolling

pub open spec fn is_change(e: DiffEntry) -> bool {
    !(e is Same)
}

/// Index of the first added or removed line at or after `k`, or the
/// length when there is none.
pub open spec fn first_change_from(d: Seq<DiffEntry>, k: int) -> int
    decreases d.len() - k,
{
    if k >= d.len() {
        d.len() as int
    } else if is_change(d[k]) {
        k
    } else {
        first_change_from(d, k + 1)
    }
}

/// The first change at or after `k` is a change, and none comes before it.
pub proof fn lemma_first_change_bounds(d: Seq<DiffEntry>, k: int)
    requires
        0 <= k <= d.len(),
    ensures
        k <= first_change_from(d, k) <= d.len(),
        first_change_from(d, k) < d.len() ==> is_change(d[first_change_from(d, k)]),
        forall|q: int| k <= q < first_change_from(d, k) ==> !is_change(#[trigger] d[q]),
    decreases d.len() - k,
{
    if k < d.len() && !is_change(d[k]) {
        lemma_first_change_bounds(d, k + 1);
    }
}

/// Scroll offset that shows the first change near the bottom of a window
/// of `height` rows with `tail` rows of context after it: 0 when nothing
/// changed, when everything fits, or when the change is already in the
/// first window; otherwise `first + tail + 1 - height` (never below 0),
/// capped at the last full window `total - height`.
pub open spec fn change_offset(d: Seq<DiffEntry>, height: int, tail: int) -> int {
    let first = first_change_from(d, 0);
    let total = d.len() as int;
    if first >= total || total <= height || first < height {
        0
    } else {
        let preferred = if first + tail + 1 >= height {
            first + tail + 1 - height
        } else {
            0
        };
        if preferred <= total - height {
            preferred
        } else {
            total - height
        }
    }
}

/// Scroll offset for the preview pane that brings the first changed line
/// into view with `tail_padding` unchanged lines after it.
pub fn first_change_offset(diff: &[DiffLine], visible_height: usize, tail_padding: usize) -> (r:
    usize)
    requires
        ({
            let d = diff_view(diff@);
            let first = first_change_from(d, 0);
            (first < d.len() && d.len() > visible_height && first >= visible_height) ==> first
                + tail_padding + 1 <= usize::MAX
        }),
    ensures
        r == change_offset(diff_view(diff@), visible_height as int, tail_padding as int),
        r > 0 ==> r + visible_height <= diff@.len(),
        ({
            let d = diff_view(diff@);
            let first = first_change_from(d, 0);
            (first < d.len() && tail_padding < visible_height) ==> r <= first < r
                + visible_height
        }),
{
    let ghost d = diff_view(diff@);
    let total = diff.len();
    let mut idx: usize = 0;
    proof {
        lemma_first_change_bounds(d, 0);
    }
    while idx < total && matches!(diff[idx], DiffLine::Same(_))
        invariant
            idx <= total,
            total == diff@.len(),
            d == diff_view(diff@),
            first_change_from(d, 0) == first_change_from(d, idx as int),
        decreases total - idx,
    {
        idx = idx + 1;
    }
    proof {
        lemma_first_change_bounds(d, idx as int);
    }
    if idx == total {
        return 0;
    }
    if total <= visible_height || idx < visible_height {
        return 0;
    }
    let preferred = (idx + tail_padding + 1).saturating_sub(visible_height);
    let max_offset = total - visible_height;
    if preferred <= max_offset {
        preferred
    } else {
        max_offset
    }
}

/// The rows of the diff the preview shows, as (first, one past last): the
/// window that follows the first change while `auto_scroll`, else the
/// user's `scroll` clamped so that the window is full when it can be.
pub open spec fn window_of(
    d: Seq<DiffEntry>,
    height: int,
    tail: int,
    auto_scroll: bool,
    scroll: int,
) -> (int, int) {
    let total = d.len() as int;
    let max_offset = if total > height {
        total - height
    } else {
        0
    };
    let offset = if auto_scroll {
        change_offset(d, height, tail)
    } else if scroll <= max_offset {
        scroll
    } else {
        max_offset
    };
    (offset, if offset + height <= total {
        offset + height
    } else {
        total
    })
}

/// The preview's visible window (see [`window_of`]).
pub fn preview_window(
    diff: &[DiffLine],
    visible_height: usize,
    tail_padding: usize,
    auto_scroll: bool,
    scroll: usize,
) -> (r: (usize, usize))
    requires
        ({
            let d = diff_view(diff@);
            let first = first_change_from(d, 0);
            (first < d.len() && d.len() > visible_height && first >= visible_height) ==> first
                + tail_padding + 1 <= usize::MAX
        }),
    ensures
        r.0 == window_of(diff_view(diff@), visible_height as int, tail_padding as int, auto_scroll, scroll as int).0,
        r.1 == window_of(diff_view(diff@), visible_height as int, tail_padding as int, auto_scroll, scroll as int).1,
{
    let total = diff.len();
    let max_offset = if total > visible_height {
        total - visible_height
    } else {
        0
    };
    let offset = if auto_scroll {
        first_change_offset(diff, visible_height, tail_padding)
    } else if scroll <= max_offset {
        scroll
    } else {
        max_offset
    };
    proof {
        assert(diff_view(diff@).len() == total);
        if auto_scroll {
            lemma_change_offset_in_range(diff_view(diff@), visible_height as int, tail_padding as int);
        }
    }
    let end = if total - offset >= visible_height {
        offset + visible_height
    } else {
        total
    };
    (offset, end)
}

/// The offset that follows the first change stays within the diff.
proof fn lemma_change_offset_in_range(d: Seq<DiffEntry>, height: int, tail: int)
    requires
        height >= 0,
        tail >= 0,
    ensures
        0 <= change_offset(d, height, tail) <= d.len(),
{
    lemma_first_change_bounds(d, 0);
}

} // verus!
