//! Custom filters that can drop a check's match.
//!
//! File-system questions are answered by the hosting platform through a
//! [`FilterContext`]; without one, an existence filter keeps the check.
use vstd::prelude::*;

use crate::engine::checks::{filter_views, Check, CheckModel, FilterType};
use crate::engine::pattern::{regex_captures, regex_is_match};
use crate::text::{contains_seq, str_chars, chars_contain, trim, trim_range, string_push};

verus! {

/// Answers whether a file or directory exists, for the hosting platform.
pub trait FileProbe {
    /// Whether the probe may be asked about `path`.
    spec fn accepts(&self, path: Seq<char>) -> bool;

    /// Whether `r` is an answer this probe may give for `path`.
    spec fn answers(&self, path: Seq<char>, r: bool) -> bool;

    /// Whether something exists at `path`.
    fn probe_exists(&self, path: &str) -> (r: bool)
        requires
            self.accepts(path@),
        ensures
            self.answers(path@, r),
    ;
}

/// The probe of a context built without a file-existence function.
#[derive(Debug, Clone, Copy, Default)]
pub struct NoFileProbe;

/// Without a probe every path counts as existing.
impl FileProbe for NoFileProbe {
    open spec fn accepts(&self, path: Seq<char>) -> bool {
        true
    }

    open spec fn answers(&self, path: Seq<char>, r: bool) -> bool {
        r
    }

    fn probe_exists(&self, path: &str) -> (r: bool) {
        true
    }
}

/// A function probe may be asked what the function accepts, and answers
/// what the function returns for the path.
impl<F: Fn(&str) -> bool> FileProbe for F {
    open spec fn accepts(&self, path: Seq<char>) -> bool {
        forall|p: &str| p@ == path ==> #[trigger] call_requires(*self, (p,))
    }

    open spec fn answers(&self, path: Seq<char>, r: bool) -> bool {
        exists|p: &str| p@ == path && #[trigger] call_ensures(*self, (p,), r)
    }

    fn probe_exists(&self, path: &str) -> (r: bool) {
        assert(call_requires(*self, (path,)));
        let r = (*self)(path);
        assert(call_ensures(*self, (path,), r));
        r
    }
}

/// Context for platform-specific filter operations.
#[derive(Debug, Clone)]
pub struct FilterContext<P = NoFileProbe> {
    /// Function that checks whether a file or directory exists.
    pub file_exists_fn: Option<P>,
    /// Home directory used to expand a leading `~`; `None` leaves `~` as is.
    pub home_dir: Option<String>,
}

impl Default for FilterContext<NoFileProbe> {
    fn default() -> (r: Self)
        ensures
            r.file_exists_fn is None,
            r.home_dir is None,
    {
        FilterContext { file_exists_fn: None, home_dir: None }
    }
}

impl<P> FilterContext<P> {
    /// A context whose file-existence answers come from `file_exists_fn`.
    pub fn with_file_exists_fn(file_exists_fn: P) -> (r: Self)
        ensures
            r.file_exists_fn == Some(file_exists_fn),
            r.home_dir is None,
    {
        FilterContext { file_exists_fn: Some(file_exists_fn), home_dir: None }
    }
}

impl<P: FileProbe> FilterContext<P> {
    /// The probe, if any, may be asked about every path.
    pub open spec fn probe_total(self) -> bool {
        match self.file_exists_fn {
            Some(f) => forall|p: Seq<char>| #[trigger] f.accepts(p),
            None => true,
        }
    }

    /// Whether a file exists, by the configured function; `true` (keep the
    /// check, the safe side) when there is none.
    pub fn file_exists(&self, path: &str) -> (r: bool)
        requires
            self.file_exists_fn matches Some(f) ==> f.accepts(path@),
        ensures
            match self.file_exists_fn {
                Some(f) => f.answers(path@, r),
                None => r,
            },
    {
        match &self.file_exists_fn {
            Some(f) => f.probe_exists(path),
            None => true,
        }
    }
}

/// Whether `c` is an ASCII decimal digit.
pub open spec fn is_digit(c: char) -> bool {
    '0' <= c && c <= '9'
}

/// The decimal value of a run of digits.
pub open spec fn digits_value(s: Seq<char>) -> nat
    decreases s.len(),
{
    if s.len() == 0 {
        0
    } else {
        digits_value(s.drop_last()) * 10 + ((s.last() as u32 - '0' as u32) as nat)
    }
}

/// The text after an optional leading `+`.
pub open spec fn unsigned_digits(s: Seq<char>) -> Seq<char> {
    if s.len() > 0 && s[0] == '+' {
        s.drop_first()
    } else {
        s
    }
}

/// What `str::parse::<usize>` gives: an optional `+`, then one or more
/// digits whose value fits a `usize`.
pub open spec fn parse_usize_spec(s: Seq<char>) -> Option<nat> {
    let d = unsigned_digits(s);
    if d.len() > 0 && (forall|k: int| 0 <= k < d.len() ==> is_digit(#[trigger] d[k]))
        && digits_value(d) <= usize::MAX {
        Some(digits_value(d))
    } else {
        None
    }
}

proof fn lemma_digits_value_monotone(s: Seq<char>, i: int)
    requires
        0 <= i <= s.len(),
        forall|k: int| 0 <= k < s.len() ==> is_digit(#[trigger] s[k]),
    ensures
        digits_value(s.subrange(0, i)) <= digits_value(s),
    decreases s.len() - i,
{
    if i < s.len() {
        lemma_digits_value_monotone(s, i + 1);
        assert(s.subrange(0, i + 1).drop_last() =~= s.subrange(0, i));
    } else {
        assert(s.subrange(0, i) =~= s);
    }
}

/// Parses a capture-group index the way `str::parse::<usize>` does.
pub fn parse_usize(s: &str) -> (r: Option<usize>)
    ensures
        match parse_usize_spec(s@) {
            Some(v) => r == Some(v as usize),
            None => r is None,
        },
{
    let v = str_chars(s);
    let n = v.len();
    let start: usize = if n > 0 && v[0] == '+' { 1 } else { 0 };
    let ghost d = unsigned_digits(s@);
    proof {
        assert(d =~= v@.subrange(start as int, n as int));
    }
    if start >= n {
        return None;
    }
    let mut acc: usize = 0;
    let mut i = start;
    while i < n
        invariant
            start <= i <= n,
            n == v@.len(),
            d == v@.subrange(start as int, n as int),
            v@ == s@,
            d == unsigned_digits(s@),
            forall|k: int| start <= k < i ==> is_digit(#[trigger] v@[k]),
            acc == digits_value(v@.subrange(start as int, i as int)),
        decreases n - i,
    {
        let c = v[i];
        if !('0' <= c && c <= '9') {
            proof {
                assert(d[i - start] == v@[i as int]);
                assert(!is_digit(d[i - start]));
            }
            return None;
        }
        let digit: usize = ((c as u32) - ('0' as u32)) as usize;
        let ghost pre = v@.subrange(start as int, i + 1);
        proof {
            assert(pre.drop_last() =~= v@.subrange(start as int, i as int));
            assert(digits_value(pre) == acc * 10 + digit);
            assert(pre =~= d.subrange(0, i + 1 - start));
        }
        let ok = acc <= (usize::MAX - digit) / 10;
        if !ok {
            proof {
                assert(acc * 10 + digit > usize::MAX) by (nonlinear_arith)
                    requires
                        acc > (usize::MAX - digit) / 10,
                        digit <= 9,
                ;
                if forall|k: int| 0 <= k < d.len() ==> is_digit(#[trigger] d[k]) {
                    lemma_digits_value_monotone(d, i + 1 - start);
                }
            }
            return None;
        }
        proof {
            assert(acc * 10 + digit <= usize::MAX) by (nonlinear_arith)
                requires
                    acc <= (usize::MAX - digit) / 10,
                    digit <= 9,
            ;
        }
        acc = acc * 10 + digit;
        i = i + 1;
    }
    Some(acc)
}

/// Keep the check only when the command does NOT contain `filter_params`.
pub fn filter_is_command_contains_string(command: &str, filter_params: &str) -> (r: bool)
    ensures
        r == !contains_seq(command@, filter_params@),
{
    let c = str_chars(command);
    let f = str_chars(filter_params);
    !chars_contain(c.as_slice(), f.as_slice())
}

/// Every `~` of `s` replaced by `home`.
pub open spec fn replace_tilde(s: Seq<char>, home: Seq<char>) -> Seq<char>
    decreases s.len(),
{
    if s.len() == 0 {
        s
    } else if s.last() == '~' {
        replace_tilde(s.drop_last(), home) + home
    } else {
        replace_tilde(s.drop_last(), home).push(s.last())
    }
}

/// The path after home-directory expansion: a path starting with `~` gets
/// every `~` replaced by the home directory, when one is known.
pub open spec fn expand_home(path: Seq<char>, home: Option<Seq<char>>) -> Seq<char> {
    if path.len() > 0 && path[0] == '~' && home is Some {
        replace_tilde(path, home->0)
    } else {
        path
    }
}

/// The context a reference points to.
pub open spec fn ctx_val<P>(c: Option<&FilterContext<P>>) -> Option<FilterContext<P>> {
    match c {
        Some(x) => Some(*x),
        None => None,
    }
}

/// A context's probe, if any, may be asked about every path.
pub open spec fn ctx_accepts_all<P: FileProbe>(c: Option<FilterContext<P>>) -> bool {
    match c {
        Some(x) => x.probe_total(),
        None => true,
    }
}

/// What an existence filter may answer for a captured text: the text is
/// trimmed and its home directory expanded; a path with a wildcard, and
/// any path when there is no context or no probe, counts as existing;
/// otherwise the probe answers.
pub open spec fn exists_decision<P: FileProbe>(
    text: Seq<char>,
    ctx: Option<FilterContext<P>>,
    r: bool,
) -> bool {
    let path = expand_home(trim(text), context_home(ctx));
    if contains_seq(path, seq!['*']) {
        r
    } else {
        match ctx {
            Some(c) => match c.file_exists_fn {
                Some(f) => f.answers(path, r),
                None => r,
            },
            None => r,
        }
    }
}

/// The home directory a context carries, if any.
pub open spec fn context_home<P>(c: Option<FilterContext<P>>) -> Option<Seq<char>> {
    match c {
        Some(ctx) => match ctx.home_dir {
            Some(h) => Some(h@),
            None => None,
        },
        None => None,
    }
}

fn replace_tilde_exec(s: &[char], home: &[char]) -> (r: String)
    ensures
        r@ == replace_tilde(s@, home@),
{
    let mut out = String::new();
    let mut i: usize = 0;
    while i < s.len()
        invariant
            i <= s@.len(),
            out@ == replace_tilde(s@.subrange(0, i as int), home@),
        decreases s@.len() - i,
    {
        proof {
            assert(s@.subrange(0, i + 1).drop_last() =~= s@.subrange(0, i as int));
        }
        if s[i] == '~' {
            let mut j: usize = 0;
            let ghost base = out@;
            while j < home.len()
                invariant
                    j <= home@.len(),
                    out@ == base + home@.subrange(0, j as int),
                decreases home@.len() - j,
            {
                string_push(&mut out, home[j]);
                proof {
                    assert(home@.subrange(0, j + 1) =~= home@.subrange(0, j as int).push(home@[j as int]));
                }
                j = j + 1;
            }
            proof {
                assert(home@.subrange(0, home@.len() as int) =~= home@);
            }
        } else {
            string_push(&mut out, s[i]);
        }
        i = i + 1;
    }
    proof {
        assert(s@.subrange(0, s@.len() as int) =~= s@);
    }
    out
}

/// Whether a captured path keeps the check: the path is trimmed and its
/// `~` expanded; a path with a wildcard keeps it, and so does any path when
/// there is no context (the safe side); otherwise the context is asked.
pub fn filter_is_file_or_directory_exists<P: FileProbe>(
    file_path: &str,
    filter_context: Option<&FilterContext<P>>,
) -> (r: bool)
    requires
        ctx_accepts_all(ctx_val(filter_context)),
    ensures
        exists_decision(file_path@, ctx_val(filter_context), r),
{
    let chars = str_chars(file_path);
    let (a, b) = trim_range(chars.as_slice());
    let trimmed = &chars.as_slice()[a..b];
    proof {
        assert(trimmed@ == chars@.subrange(a as int, b as int));
    }
    let mut expanded: Vec<char> = Vec::new();
    let mut use_home = false;
    if b > a && chars[a] == '~' {
        if let Some(ctx) = filter_context {
            if let Some(h) = &ctx.home_dir {
                let hc = str_chars(h.as_str());
                let e = replace_tilde_exec(trimmed, hc.as_slice());
                expanded = str_chars(e.as_str());
                use_home = true;
            }
        }
    }
    if !use_home {
        let mut k = a;
        while k < b
            invariant
                a <= k <= b,
                b <= chars@.len(),
                expanded@ == chars@.subrange(a as int, k as int),
            decreases b - k,
        {
            expanded.push(chars[k]);
            proof {
                assert(chars@.subrange(a as int, k + 1) =~= chars@.subrange(a as int, k as int).push(chars@[k as int]));
            }
            k = k + 1;
        }
    }
    let ghost home = context_home(ctx_val(filter_context));
    proof {
        let t = trim(file_path@);
        assert(t == trimmed@);
        if use_home {
            assert(t.len() > 0 && t[0] == '~');
        }
        assert(expanded@ == expand_home(t, home));
    }
    let star = vec!['*'];
    proof {
        assert(star@ =~= seq!['*']);
    }
    if chars_contain(expanded.as_slice(), star.as_slice()) {
        return true;
    }
    let path = crate::text::string_from_chars(expanded.as_slice());
    match filter_context {
        Some(ctx) => {
            proof {
                if let Some(f) = &ctx.file_exists_fn {
                    assert(f.accepts(path@));
                }
            }
            ctx.file_exists(path.as_str())
        },
        None => true,
    }
}

/// Every `NotContains` filter's text is absent from the command.
pub open spec fn not_contains_ok(filters: Seq<(FilterType, Seq<char>)>, command: Seq<char>) -> bool {
    forall|k: int|
        0 <= k < filters.len() && (#[trigger] filters[k]).0 == FilterType::NotContains
            ==> !contains_seq(command, filters[k].1)
}

/// Some filter asks whether a captured path exists.
pub open spec fn has_exists_filter(filters: Seq<(FilterType, Seq<char>)>) -> bool {
    exists|k: int| 0 <= k < filters.len() && (#[trigger] filters[k]).0 == FilterType::IsExists
}

/// The text of the capture group an existence filter's parameter names
/// (group 0 when the parameter is not a number); empty when that group is
/// absent or took no part in the match.
pub open spec fn group_text(caps: Seq<Option<Seq<char>>>, param: Seq<char>) -> Seq<char> {
    let idx: int = match parse_usize_spec(param) {
        Some(v) => v as int,
        None => 0,
    };
    if idx < caps.len() {
        match caps[idx] {
            Some(t) => t,
            None => Seq::empty(),
        }
    } else {
        Seq::empty()
    }
}

/// What one filter may decide: a `NotContains` filter keeps the check when
/// its text is absent from the command; an `IsExists` filter decides on
/// the path in the capture group it names.
pub open spec fn filter_decision<P: FileProbe>(
    f: (FilterType, Seq<char>),
    cmd: Seq<char>,
    caps: Seq<Option<Seq<char>>>,
    ctx: Option<FilterContext<P>>,
    r: bool,
) -> bool {
    match f.0 {
        FilterType::NotContains => r == !contains_seq(cmd, f.1),
        FilterType::IsExists => exists_decision(group_text(caps, f.1), ctx, r),
    }
}

/// The decisions of the filters taken in order, up to the first one that
/// drops the check.
pub open spec fn decisions_ok<P: FileProbe>(
    ds: Seq<bool>,
    filters: Seq<(FilterType, Seq<char>)>,
    cmd: Seq<char>,
    caps: Seq<Option<Seq<char>>>,
    ctx: Option<FilterContext<P>>,
) -> bool {
    &&& ds.len() <= filters.len()
    &&& forall|k: int| 0 <= k < ds.len() ==> filter_decision(filters[k], cmd, caps, ctx, #[trigger] ds[k])
    &&& forall|k: int| 0 <= k < ds.len() - 1 ==> #[trigger] ds[k]
    &&& ds.len() < filters.len() ==> (ds.len() > 0 && !ds[ds.len() - 1])
}

/// The groups of the pattern's first match in the command.
pub open spec fn caps_of(c: CheckModel, cmd: Seq<char>) -> Seq<Option<Seq<char>>> {
    match regex_captures(c.test, cmd) {
        Some(g) => g,
        None => Seq::empty(),
    }
}

/// What applying a check's custom filters may answer: a check without
/// filters, or whose pattern does not match, is kept; otherwise it is kept
/// exactly when every filter, taken in order, keeps it.
pub open spec fn filter_keeps<P: FileProbe>(
    c: CheckModel,
    cmd: Seq<char>,
    ctx: Option<FilterContext<P>>,
    r: bool,
) -> bool {
    if c.filters.len() == 0 || !regex_is_match(c.test, cmd) {
        r
    } else {
        exists|ds: Seq<bool>|
            #[trigger] decisions_ok(ds, c.filters, cmd, caps_of(c, cmd), ctx) && r == (ds.len()
                == c.filters.len() && ds[ds.len() - 1])
    }
}

/// Applies a check's custom filters to a command; `true` keeps the check.
///
/// A check without filters, or whose pattern does not match, is kept. A
/// `NotContains` filter drops the check when its text occurs in the
/// command; an `IsExists` filter asks, for the capture group its parameter
/// names (group 0 when it is not a number), whether that path exists.
pub fn check_custom_filter<P: FileProbe>(
    check: &Check,
    command: &str,
    filter_context: Option<&FilterContext<P>>,
) -> (r: bool)
    requires
        ctx_accepts_all(ctx_val(filter_context)),
    ensures
        filter_keeps(check@, command@, ctx_val(filter_context), r),
{
    if check.filters.len() == 0 {
        return true;
    }
    let caps = match check.test.captures(command) {
        Some(c) => c,
        None => {
            return true;
        },
    };
    let ghost fs = check@.filters;
    let ghost g = caps_of(check@, command@);
    let ghost ctx = ctx_val(filter_context);
    let ghost mut ds: Seq<bool> = Seq::empty();
    proof {
        assert(fs.len() == check.filters@.len());
        assert(regex_is_match(check@.test, command@));
        reveal_strlit("");
    }
    let mut i: usize = 0;
    while i < check.filters.len()
        invariant
            i <= check.filters@.len(),
            fs == filter_views(check.filters@),
            fs == check@.filters,
            fs.len() == check.filters@.len(),
            fs.len() > 0,
            regex_is_match(check@.test, command@),
            ctx == ctx_val(filter_context),
            ctx_accepts_all(ctx),
            g == caps_of(check@, command@),
            g.len() == caps@.len(),
            forall|k: int|
                0 <= k < g.len() ==> match (#[trigger] caps@[k], g[k]) {
                    (Some(a), Some(b)) => a@ == b,
                    (None, None) => true,
                    _ => false,
                },
            ""@.len() == 0,
            ds.len() == i,
            forall|k: int| 0 <= k < i ==> #[trigger] ds[k] && filter_decision(fs[k], command@, g, ctx, ds[k]),
        decreases check.filters@.len() - i,
    {
        let (kind, params) = &check.filters[i];
        proof {
            assert(fs[i as int] == (*kind, params@));
        }
        let keep = match kind {
            FilterType::IsExists => {
                let idx = match parse_usize(params.as_str()) {
                    Some(v) => v,
                    None => 0,
                };
                if idx < caps.len() {
                    match &caps[idx] {
                        Some(p) => {
                            proof {
                                assert(g[idx as int] is Some);
                                assert(group_text(g, params@) == p@);
                            }
                            filter_is_file_or_directory_exists(p.as_str(), filter_context)
                        },
                        None => {
                            proof {
                                assert(g[idx as int] is None);
                                assert(group_text(g, params@) =~= ""@);
                            }
                            filter_is_file_or_directory_exists("", filter_context)
                        },
                    }
                } else {
                    proof {
                        assert(group_text(g, params@) =~= ""@);
                    }
                    filter_is_file_or_directory_exists("", filter_context)
                }
            },
            FilterType::NotContains => filter_is_command_contains_string(command, params.as_str()),
        };
        proof {
            assert(filter_decision(fs[i as int], command@, g, ctx, keep));
        }
        if !keep {
            proof {
                let dn = ds.push(false);
                assert(dn[i as int] == false);
                assert forall|k: int| 0 <= k < dn.len() implies filter_decision(fs[k], command@, g, ctx, #[trigger] dn[k]) by {
                    if k < i {
                        assert(dn[k] == ds[k]);
                    }
                }
                assert forall|k: int| 0 <= k < dn.len() - 1 implies #[trigger] dn[k] by {
                    assert(dn[k] == ds[k]);
                }
                assert(decisions_ok(dn, fs, command@, g, ctx));
            }
            return false;
        }
        proof {
            let dn = ds.push(true);
            assert forall|k: int| 0 <= k < i + 1 implies #[trigger] dn[k] && filter_decision(fs[k], command@, g, ctx, dn[k]) by {
                if k < i {
                    assert(dn[k] == ds[k]);
                }
            }
            ds = dn;
        }
        i = i + 1;
    }
    proof {
        assert forall|k: int| 0 <= k < ds.len() implies filter_decision(fs[k], command@, g, ctx, #[trigger] ds[k]) by {}
        assert forall|k: int| 0 <= k < ds.len() - 1 implies #[trigger] ds[k] by {}
        assert(decisions_ok(ds, fs, command@, g, ctx));
        assert(ds[ds.len() - 1]);
    }
    true
}

} // verus!
