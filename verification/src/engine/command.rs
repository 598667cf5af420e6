//! Splitting a compound shell command into its simple commands.
//!
//! Splits at `&`, `&&`, `|` and `||` that stand outside quotes and outside
//! `(...)` / `{...}` groups; a backslash takes the next character literally.
//! Each part is trimmed and empty parts are dropped.
use vstd::prelude::*;

use crate::text::{
    is_trimmed, is_ws, lemma_trim_block, lemma_trim_is_trimmed, string_push, str_chars, trim,
    trimmed_string,
};

verus! {

/// The string views of a list of strings.
pub open spec fn views(v: Seq<String>) -> Seq<Seq<char>> {
    v.map_values(|x: String| x@)
}

/// Appends the trimmed part, unless it is empty.
pub open spec fn flush_part(cur: Seq<char>, out: Seq<Seq<char>>) -> Seq<Seq<char>> {
    if trim(cur).len() > 0 {
        out.push(trim(cur))
    } else {
        out
    }
}

/// Whether `c` starts a split operator at a point where splitting is allowed.
pub open spec fn splits_at(c: char, sq: bool, dq: bool, paren: int, brace: int) -> bool {
    !sq && !dq && paren == 0 && brace == 0 && (c == '&' || c == '|')
}

/// The scanner, from position `i` on, with quote flags `sq`/`dq`, group
/// depths `paren`/`brace`, the part being built `cur` and the parts so far.
pub open spec fn scan(
    s: Seq<char>,
    i: int,
    sq: bool,
    dq: bool,
    paren: int,
    brace: int,
    cur: Seq<char>,
    out: Seq<Seq<char>>,
) -> Seq<Seq<char>>
    decreases s.len() - i,
{
    if i < 0 || i >= s.len() {
        flush_part(cur, out)
    } else {
        let c = s[i];
        let free = !sq && !dq;
        if c == '\\' {
            if i + 1 < s.len() {
                scan(s, i + 2, sq, dq, paren, brace, cur.push(c).push(s[i + 1]), out)
            } else {
                scan(s, i + 1, sq, dq, paren, brace, cur.push(c), out)
            }
        } else if c == '\'' && !dq {
            scan(s, i + 1, !sq, dq, paren, brace, cur.push(c), out)
        } else if c == '"' && !sq {
            scan(s, i + 1, sq, !dq, paren, brace, cur.push(c), out)
        } else if c == '(' && free {
            scan(s, i + 1, sq, dq, paren + 1, brace, cur.push(c), out)
        } else if c == ')' && free && paren > 0 {
            scan(s, i + 1, sq, dq, paren - 1, brace, cur.push(c), out)
        } else if c == '{' && free {
            scan(s, i + 1, sq, dq, paren, brace + 1, cur.push(c), out)
        } else if c == '}' && free && brace > 0 {
            scan(s, i + 1, sq, dq, paren, brace - 1, cur.push(c), out)
        } else if splits_at(c, sq, dq, paren, brace) {
            let j = if i + 1 < s.len() && s[i + 1] == c {
                i + 2
            } else {
                i + 1
            };
            scan(s, j, sq, dq, paren, brace, Seq::empty(), flush_part(cur, out))
        } else {
            scan(s, i + 1, sq, dq, paren, brace, cur.push(c), out)
        }
    }
}

/// The simple commands of `s`, in order.
pub open spec fn split_spec(s: Seq<char>) -> Seq<Seq<char>> {
    scan(s, 0, false, false, 0, 0, Seq::empty(), Seq::empty())
}

/// Pushes the trimmed `current` onto `out` unless it is empty, then clears it.
fn flush_current(current: &mut String, out: &mut Vec<String>)
    ensures
        final(current)@ == Seq::<char>::empty(),
        views(final(out)@) == flush_part(old(current)@, views(old(out)@)),
{
    let trimmed = trimmed_string(current.as_str());
    if !trimmed.as_str().is_empty() {
        out.push(trimmed);
        proof {
            assert(views(out@) =~= views(old(out)@).push(trim(old(current)@)));
        }
    }
    *current = String::new();
}

/// At `pos`, consumes `&`, `&&`, `|` or `||` when outside quotes.
fn try_parse_operator(
    chars: &[char],
    pos: &mut usize,
    in_single_quote: bool,
    in_double_quote: bool,
) -> (r: bool)
    requires
        *old(pos) < chars@.len(),
    ensures
        r == (!in_single_quote && !in_double_quote && (chars@[*old(pos) as int] == '&'
            || chars@[*old(pos) as int] == '|')),
        r ==> *final(pos) == (if *old(pos) + 1 < chars@.len() && chars@[*old(pos) + 1]
            == chars@[*old(pos) as int] {
            *old(pos) + 2
        } else {
            *old(pos) + 1
        }),
        !r ==> *final(pos) == *old(pos),
{
    if in_single_quote || in_double_quote {
        return false;
    }
    let c = chars[*pos];
    if c == '&' || c == '|' {
        *pos = *pos + 1;
        if *pos < chars.len() && chars[*pos] == c {
            *pos = *pos + 1;
        }
        true
    } else {
        false
    }
}

/// Splits a compound command into its simple commands (see the module
/// documentation); the result is exactly [`split_spec`] of the input.
pub fn parse_and_split_command(command: &str) -> (r: Vec<String>)
    ensures
        views(r@) == split_spec(command@),
{
    let chars = str_chars(command);
    let n = chars.len();
    let mut commands: Vec<String> = Vec::new();
    let mut current_command = String::new();
    let mut in_single_quote = false;
    let mut in_double_quote = false;
    let mut paren_depth: usize = 0;
    let mut brace_depth: usize = 0;
    let mut i: usize = 0;
    proof {
        assert(views(commands@) =~= Seq::<Seq<char>>::empty());
    }
    while i < n
        invariant
            n == chars@.len(),
            chars@ == command@,
            i <= n,
            paren_depth <= i,
            brace_depth <= i,
            split_spec(command@) == scan(
                command@,
                i as int,
                in_single_quote,
                in_double_quote,
                paren_depth as int,
                brace_depth as int,
                current_command@,
                views(commands@),
            ),
        decreases n - i,
    {
        let ch = chars[i];
        let free = !in_single_quote && !in_double_quote;
        if ch == '\\' {
            string_push(&mut current_command, ch);
            i = i + 1;
            if i < n {
                string_push(&mut current_command, chars[i]);
                i = i + 1;
            }
        } else if ch == '\'' && !in_double_quote {
            in_single_quote = !in_single_quote;
            string_push(&mut current_command, ch);
            i = i + 1;
        } else if ch == '"' && !in_single_quote {
            in_double_quote = !in_double_quote;
            string_push(&mut current_command, ch);
            i = i + 1;
        } else if ch == '(' && free {
            paren_depth = paren_depth + 1;
            string_push(&mut current_command, ch);
            i = i + 1;
        } else if ch == ')' && free && paren_depth > 0 {
            paren_depth = paren_depth - 1;
            string_push(&mut current_command, ch);
            i = i + 1;
        } else if ch == '{' && free {
            brace_depth = brace_depth + 1;
            string_push(&mut current_command, ch);
            i = i + 1;
        } else if ch == '}' && free && brace_depth > 0 {
            brace_depth = brace_depth - 1;
            string_push(&mut current_command, ch);
            i = i + 1;
        } else {
            let can_split = free && paren_depth == 0 && brace_depth == 0;
            if can_split && try_parse_operator(chars.as_slice(), &mut i, in_single_quote, in_double_quote) {
                flush_current(&mut current_command, &mut commands);
            } else {
                string_push(&mut current_command, ch);
                i = i + 1;
            }
        }
    }
    flush_current(&mut current_command, &mut commands);
    commands
}

/// Every part is non-empty and trimmed.
pub open spec fn all_clean(parts: Seq<Seq<char>>) -> bool {
    forall|k: int| 0 <= k < parts.len() ==> #[trigger] parts[k].len() > 0 && is_trimmed(parts[k])
}

proof fn lemma_flush_clean(cur: Seq<char>, out: Seq<Seq<char>>)
    requires
        all_clean(out),
    ensures
        all_clean(flush_part(cur, out)),
{
    lemma_trim_is_trimmed(cur);
    let r = flush_part(cur, out);
    assert forall|k: int| 0 <= k < r.len() implies #[trigger] r[k].len() > 0 && is_trimmed(r[k]) by {
        if k < out.len() {
            assert(r[k] == out[k]);
        }
    }
}

proof fn lemma_scan_clean(
    s: Seq<char>,
    i: int,
    sq: bool,
    dq: bool,
    paren: int,
    brace: int,
    cur: Seq<char>,
    out: Seq<Seq<char>>,
)
    requires
        all_clean(out),
    ensures
        all_clean(scan(s, i, sq, dq, paren, brace, cur, out)),
    decreases s.len() - i,
{
    if i < 0 || i >= s.len() {
        lemma_flush_clean(cur, out);
    } else {
        let c = s[i];
        let free = !sq && !dq;
        if c == '\\' {
            if i + 1 < s.len() {
                lemma_scan_clean(s, i + 2, sq, dq, paren, brace, cur.push(c).push(s[i + 1]), out);
            } else {
                lemma_scan_clean(s, i + 1, sq, dq, paren, brace, cur.push(c), out);
            }
        } else if c == '\'' && !dq {
            lemma_scan_clean(s, i + 1, !sq, dq, paren, brace, cur.push(c), out);
        } else if c == '"' && !sq {
            lemma_scan_clean(s, i + 1, sq, !dq, paren, brace, cur.push(c), out);
        } else if c == '(' && free {
            lemma_scan_clean(s, i + 1, sq, dq, paren + 1, brace, cur.push(c), out);
        } else if c == ')' && free && paren > 0 {
            lemma_scan_clean(s, i + 1, sq, dq, paren - 1, brace, cur.push(c), out);
        } else if c == '{' && free {
            lemma_scan_clean(s, i + 1, sq, dq, paren, brace + 1, cur.push(c), out);
        } else if c == '}' && free && brace > 0 {
            lemma_scan_clean(s, i + 1, sq, dq, paren, brace - 1, cur.push(c), out);
        } else if splits_at(c, sq, dq, paren, brace) {
            let j = if i + 1 < s.len() && s[i + 1] == c {
                i + 2
            } else {
                i + 1
            };
            lemma_flush_clean(cur, out);
            lemma_scan_clean(s, j, sq, dq, paren, brace, Seq::empty(), flush_part(cur, out));
        } else {
            lemma_scan_clean(s, i + 1, sq, dq, paren, brace, cur.push(c), out);
        }
    }
}

/// Law: every simple command that splitting yields is non-empty and has no
/// leading or trailing whitespace.
pub proof fn lemma_split_parts_are_trimmed(s: Seq<char>)
    ensures
        all_clean(split_spec(s)),
{
    lemma_scan_clean(s, 0, false, false, 0, 0, Seq::empty(), Seq::empty());
}

proof fn lemma_scan_no_operator(
    s: Seq<char>,
    i: int,
    sq: bool,
    dq: bool,
    paren: int,
    brace: int,
    cur: Seq<char>,
    out: Seq<Seq<char>>,
)
    requires
        0 <= i <= s.len(),
        paren >= 0,
        brace >= 0,
        forall|k: int| i <= k < s.len() ==> #[trigger] s[k] != '&' && s[k] != '|',
    ensures
        scan(s, i, sq, dq, paren, brace, cur, out) == flush_part(cur + s.subrange(i, s.len() as int), out),
    decreases s.len() - i,
{
    if i >= s.len() {
        assert(cur + s.subrange(i, s.len() as int) =~= cur);
    } else {
        let c = s[i];
        let free = !sq && !dq;
        if c == '\\' && i + 1 < s.len() {
            lemma_scan_no_operator(s, i + 2, sq, dq, paren, brace, cur.push(c).push(s[i + 1]), out);
            assert(cur.push(c).push(s[i + 1]) + s.subrange(i + 2, s.len() as int) =~= cur + s.subrange(i, s.len() as int));
        } else {
            let np = if c == '(' && free && c != '\\' { paren + 1 } else if c == ')' && free && paren > 0 { paren - 1 } else { paren };
            let nb = if c == '{' && free { brace + 1 } else if c == '}' && free && brace > 0 { brace - 1 } else { brace };
            let nsq = if c == '\'' && !dq { !sq } else { sq };
            let ndq = if c == '"' && !sq { !dq } else { dq };
            lemma_scan_no_operator(s, i + 1, nsq, ndq, np, nb, cur.push(c), out);
            assert(cur.push(c) + s.subrange(i + 1, s.len() as int) =~= cur + s.subrange(i, s.len() as int));
        }
    }
}

/// Law: a command without any `&` or `|` is one simple command (its trimmed
/// form), or none when it is blank.
pub proof fn lemma_split_without_operators(s: Seq<char>)
    requires
        forall|k: int| 0 <= k < s.len() ==> #[trigger] s[k] != '&' && s[k] != '|',
    ensures
        split_spec(s) == (if trim(s).len() > 0 {
            seq![trim(s)]
        } else {
            Seq::<Seq<char>>::empty()
        }),
{
    lemma_scan_no_operator(s, 0, false, false, 0, 0, Seq::empty(), Seq::empty());
    assert(Seq::<char>::empty() + s.subrange(0, s.len() as int) =~= s);
    if trim(s).len() > 0 {
        assert(Seq::<Seq<char>>::empty().push(trim(s)) =~= seq![trim(s)]);
    }
}


/// A character that neither splits, quotes, groups nor escapes.
pub open spec fn plain_char(c: char) -> bool {
    c != '&' && c != '|' && c != '\'' && c != '"' && c != '(' && c != ')' && c != '{' && c != '}'
        && c != '\\'
}

/// One of the four split operators `|`, `||`, `&`, `&&`.
pub open spec fn is_operator(op: Seq<char>) -> bool {
    op == seq!['|'] || op == seq!['|', '|'] || op == seq!['&'] || op == seq!['&', '&']
}

/// `parts[0] + ops[0] + parts[1] + ops[1] + ... + parts.last()`.
pub open spec fn chain(parts: Seq<Seq<char>>, ops: Seq<Seq<char>>) -> Seq<char>
    decreases parts.len(),
{
    if parts.len() <= 1 {
        if parts.len() == 1 {
            parts[0]
        } else {
            Seq::empty()
        }
    } else {
        parts[0] + ops[0] + chain(parts.drop_first(), ops.drop_first())
    }
}

/// The trimmed parts that are not blank, in order.
pub open spec fn kept_parts(parts: Seq<Seq<char>>) -> Seq<Seq<char>>
    decreases parts.len(),
{
    if parts.len() == 0 {
        Seq::empty()
    } else {
        (if trim(parts[0]).len() > 0 {
            seq![trim(parts[0])]
        } else {
            Seq::<Seq<char>>::empty()
        }) + kept_parts(parts.drop_first())
    }
}

/// What may be chained: operators between parts made of plain
/// characters, every part after the first not empty.
pub open spec fn chainable(parts: Seq<Seq<char>>, ops: Seq<Seq<char>>) -> bool {
    &&& parts.len() >= 1
    &&& ops.len() == parts.len() - 1
    &&& forall|k: int| 0 <= k < ops.len() ==> is_operator(#[trigger] ops[k])
    &&& forall|k: int, j: int|
        0 <= k < parts.len() && 0 <= j < parts[k].len() ==> plain_char(#[trigger] parts[k][j])
    &&& forall|k: int| 1 <= k < parts.len() ==> (#[trigger] parts[k]).len() > 0
}

proof fn lemma_scan_plain(s: Seq<char>, i: int, k: int, cur: Seq<char>, out: Seq<Seq<char>>)
    requires
        0 <= i <= k <= s.len(),
        forall|j: int| i <= j < k ==> plain_char(#[trigger] s[j]),
    ensures
        scan(s, i, false, false, 0, 0, cur, out) == scan(
            s,
            k,
            false,
            false,
            0,
            0,
            cur + s.subrange(i, k),
            out,
        ),
    decreases k - i,
{
    if i == k {
        assert(cur + s.subrange(i, k) =~= cur);
    } else {
        let c = s[i];
        assert(plain_char(c));
        lemma_scan_plain(s, i + 1, k, cur.push(c), out);
        assert(cur.push(c) + s.subrange(i + 1, k) =~= cur + s.subrange(i, k));
    }
}

proof fn lemma_scan_chain(
    s: Seq<char>,
    i: int,
    out: Seq<Seq<char>>,
    parts: Seq<Seq<char>>,
    ops: Seq<Seq<char>>,
)
    requires
        0 <= i <= s.len(),
        s.subrange(i, s.len() as int) == chain(parts, ops),
        chainable(parts, ops),
    ensures
        scan(s, i, false, false, 0, 0, Seq::empty(), out) == out + kept_parts(parts),
    decreases parts.len(),
{
    let p = parts[0];
    let t = s.subrange(i, s.len() as int);
    let k = i + p.len();
    let first = if trim(p).len() > 0 {
        seq![trim(p)]
    } else {
        Seq::<Seq<char>>::empty()
    };
    assert(kept_parts(parts) == first + kept_parts(parts.drop_first()));
    assert(flush_part(p, out) =~= out + first);
    if parts.len() == 1 {
        assert(t == p);
        assert(k == s.len());
        assert forall|j: int| i <= j < k implies plain_char(#[trigger] s[j]) by {
            assert(s[j] == t[j - i]);
            assert(plain_char(parts[0][j - i]));
        }
        lemma_scan_plain(s, i, k, Seq::empty(), out);
        assert(Seq::<char>::empty() + s.subrange(i, k) =~= p);
        assert(kept_parts(parts.drop_first()) =~= Seq::<Seq<char>>::empty());
        assert(out + first + Seq::<Seq<char>>::empty() =~= out + first);
    } else {
        let op = ops[0];
        let rest_p = parts.drop_first();
        let rest_o = ops.drop_first();
        let cr = chain(rest_p, rest_o);
        assert(t == p + op + cr);
        assert(is_operator(op));
        assert(rest_p[0] == parts[1]);
        assert(cr.len() > 0 && cr[0] == rest_p[0][0]) by {
            if rest_p.len() == 1 {
                assert(cr == rest_p[0]);
            } else {
                assert(cr == rest_p[0] + rest_o[0] + chain(rest_p.drop_first(), rest_o.drop_first()));
            }
        }
        assert(plain_char(parts[1][0]));
        assert forall|j: int| i <= j < k implies plain_char(#[trigger] s[j]) by {
            assert(s[j] == t[j - i]);
            assert(t[j - i] == p[j - i]);
            assert(plain_char(parts[0][j - i]));
        }
        lemma_scan_plain(s, i, k, Seq::empty(), out);
        assert(Seq::<char>::empty() + s.subrange(i, k) =~= p);
        let c = op[0];
        assert(s[k] == t[p.len() as int]);
        assert(s[k] == c);
        assert(splits_at(c, false, false, 0, 0));
        let j = k + op.len();
        assert(k + 1 < s.len());
        assert(s[k + 1] == t[(p.len() + 1) as int]);
        if op.len() == 2 {
            assert(s[k + 1] == c);
        } else {
            assert(s[k + 1] == cr[0]);
            assert(s[k + 1] != c);
        }
        assert(s.subrange(j, s.len() as int) =~= cr) by {
            assert forall|q: int| 0 <= q < cr.len() implies s.subrange(j, s.len() as int)[q] == cr[q] by {
                assert(s[j + q] == t[p.len() + op.len() + q]);
            }
        }
        assert(chainable(rest_p, rest_o)) by {
            assert forall|q: int| 0 <= q < rest_o.len() implies is_operator(#[trigger] rest_o[q]) by {
                assert(rest_o[q] == ops[q + 1]);
            }
            assert forall|q: int, w: int|
                0 <= q < rest_p.len() && 0 <= w < rest_p[q].len() implies plain_char(
                #[trigger] rest_p[q][w],
            ) by {
                assert(rest_p[q] == parts[q + 1]);
            }
            assert forall|q: int| 1 <= q < rest_p.len() implies (#[trigger] rest_p[q]).len() > 0 by {
                assert(rest_p[q] == parts[q + 1]);
            }
        }
        lemma_scan_chain(s, j, out + first, rest_p, rest_o);
        assert(out + first + kept_parts(rest_p) =~= out + (first + kept_parts(rest_p)));
    }
}

/// Law: a command made of parts joined by `|`, `||`, `&` or `&&`, where
/// the parts hold no operator, quote, bracket or backslash, splits into
/// exactly its parts, trimmed, blank ones left out: no character of a part
/// is lost, and every operator character is consumed. So `a|b` gives
/// `[trim a, trim b]`, and so does `a||b`.
pub proof fn lemma_split_chain(parts: Seq<Seq<char>>, ops: Seq<Seq<char>>)
    requires
        chainable(parts, ops),
    ensures
        split_spec(chain(parts, ops)) == kept_parts(parts),
{
    let s = chain(parts, ops);
    assert(s.subrange(0, s.len() as int) =~= s);
    lemma_scan_chain(s, 0, Seq::empty(), parts, ops);
    assert(Seq::<Seq<char>>::empty() + kept_parts(parts) =~= kept_parts(parts));
}

/// Law: two parts around one operator: `a op b` splits into `a` and `b`,
/// trimmed, when neither holds an operator, quote, bracket or backslash
/// and neither is blank.
pub proof fn lemma_split_two(a: Seq<char>, op: Seq<char>, b: Seq<char>)
    requires
        is_operator(op),
        forall|j: int| 0 <= j < a.len() ==> plain_char(#[trigger] a[j]),
        forall|j: int| 0 <= j < b.len() ==> plain_char(#[trigger] b[j]),
        trim(a).len() > 0,
        trim(b).len() > 0,
    ensures
        split_spec(a + op + b) == seq![trim(a), trim(b)],
{
    let parts = seq![a, b];
    let ops = seq![op];
    assert(parts.drop_first() =~= seq![b]);
    assert(ops.drop_first() =~= Seq::<Seq<char>>::empty());
    assert(chain(seq![b], Seq::<Seq<char>>::empty()) == b);
    assert(chain(parts, ops) == a + op + b);
    assert(chainable(parts, ops)) by {
        assert forall|k: int, j: int| 0 <= k < parts.len() && 0 <= j < parts[k].len() implies plain_char(
            #[trigger] parts[k][j],
        ) by {
            if k == 0 {
                assert(parts[k] == a);
            } else {
                assert(parts[k] == b);
            }
        }
        assert(b.len() > 0);
    }
    lemma_split_chain(parts, ops);
    assert(kept_parts(seq![b]) == seq![trim(b)] + kept_parts(seq![b].drop_first()));
    assert(seq![b].drop_first() =~= Seq::<Seq<char>>::empty());
    assert(kept_parts(parts) =~= seq![trim(a), trim(b)]);
}


/// A character the scanner just keeps in the current part, in the given
/// quote and group state: not a backslash, and neither opening or closing
/// a quote or group nor splitting.
pub open spec fn inert(c: char, sq: bool, dq: bool, paren: int, brace: int) -> bool {
    let free = !sq && !dq;
    &&& c != '\\'
    &&& !(c == '\'' && !dq)
    &&& !(c == '"' && !sq)
    &&& !(c == '(' && free)
    &&& !(c == ')' && free && paren > 0)
    &&& !(c == '{' && free)
    &&& !(c == '}' && free && brace > 0)
    &&& !splits_at(c, sq, dq, paren, brace)
}

proof fn lemma_scan_inert(
    s: Seq<char>,
    i: int,
    k: int,
    sq: bool,
    dq: bool,
    paren: int,
    brace: int,
    cur: Seq<char>,
    out: Seq<Seq<char>>,
)
    requires
        0 <= i <= k <= s.len(),
        forall|j: int| i <= j < k ==> inert(#[trigger] s[j], sq, dq, paren, brace),
    ensures
        scan(s, i, sq, dq, paren, brace, cur, out) == scan(
            s,
            k,
            sq,
            dq,
            paren,
            brace,
            cur + s.subrange(i, k),
            out,
        ),
    decreases k - i,
{
    if i == k {
        assert(cur + s.subrange(i, k) =~= cur);
    } else {
        let c = s[i];
        assert(inert(c, sq, dq, paren, brace));
        lemma_scan_inert(s, i + 1, k, sq, dq, paren, brace, cur.push(c), out);
        assert(cur.push(c) + s.subrange(i + 1, k) =~= cur + s.subrange(i, k));
    }
}

/// Law: operators inside a quoted or bracketed stretch never split. For
/// plain `a` and `b` and an inside `q`, the command `a`, opener, `q`,
/// closer, `b` is one simple command (its trimmed whole), where the
/// opener and closer are both `'`, both `"`, or `(` and `)`, or `{` and `}`,
/// and `q` holds no quote, bracket or backslash (it may hold `&` and `|`).
pub proof fn lemma_enclosed_operators_do_not_split(
    a: Seq<char>,
    open: char,
    q: Seq<char>,
    close: char,
    b: Seq<char>,
)
    requires
        (open == '\'' && close == '\'') || (open == '"' && close == '"') || (open == '('
            && close == ')') || (open == '{' && close == '}'),
        forall|j: int| 0 <= j < a.len() ==> plain_char(#[trigger] a[j]),
        forall|j: int| 0 <= j < b.len() ==> plain_char(#[trigger] b[j]),
        forall|j: int|
            0 <= j < q.len() ==> {
                let c = #[trigger] q[j];
                c == '&' || c == '|' || plain_char(c)
            },
    ensures
        ({
            let s = a + seq![open] + q + seq![close] + b;
            split_spec(s) == seq![trim(s)]
        }),
{
    let s = a + seq![open] + q + seq![close] + b;
    let i1 = a.len() as int;
    let i2 = i1 + 1 + q.len();
    assert(s[i1] == open);
    assert(s[i2] == close);
    assert forall|j: int| 0 <= j < i1 implies inert(#[trigger] s[j], false, false, 0, 0) by {
        assert(s[j] == a[j]);
        assert(plain_char(a[j]));
    }
    lemma_scan_inert(s, 0, i1, false, false, 0, 0, Seq::empty(), Seq::empty());
    let (sq, dq, pa, br) = if open == '\'' {
        (true, false, 0int, 0int)
    } else if open == '"' {
        (false, true, 0int, 0int)
    } else if open == '(' {
        (false, false, 1int, 0int)
    } else {
        (false, false, 0int, 1int)
    };
    assert forall|j: int| i1 + 1 <= j < i2 implies inert(#[trigger] s[j], sq, dq, pa, br) by {
        assert(s[j] == q[j - i1 - 1]);
        let c = q[j - i1 - 1];
        assert(c == '&' || c == '|' || plain_char(c));
    }
    lemma_scan_inert(s, i1 + 1, i2, sq, dq, pa, br, s.subrange(0, i1).push(open), Seq::empty());
    assert forall|j: int| i2 + 1 <= j < s.len() implies inert(#[trigger] s[j], false, false, 0, 0) by {
        assert(s[j] == b[j - i2 - 1]);
        assert(plain_char(b[j - i2 - 1]));
    }
    let cur2 = s.subrange(0, i1).push(open) + s.subrange(i1 + 1, i2);
    lemma_scan_inert(s, i2 + 1, s.len() as int, false, false, 0, 0, cur2.push(close), Seq::empty());
    assert(cur2.push(close) + s.subrange(i2 + 1, s.len() as int) =~= s);
    assert(Seq::<char>::empty() + s.subrange(0, i1) =~= s.subrange(0, i1));
    if trim(s).len() > 0 {
        assert(Seq::<Seq<char>>::empty().push(trim(s)) =~= seq![trim(s)]);
    } else {
        lemma_trim_block(s);
        let (x, y) = choose|x: int, y: int|
            0 <= x <= y <= s.len() && trim(s) == s.subrange(x, y) && (forall|j: int|
                0 <= j < x ==> is_ws(#[trigger] s[j])) && (forall|j: int|
                y <= j < s.len() ==> is_ws(#[trigger] s[j]));
        assert(!is_ws(open));
        if i1 < x {
            assert(is_ws(s[i1]));
        } else {
            assert(is_ws(s[i1]));
        }
    }
}

} // verus!
