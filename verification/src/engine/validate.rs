//! Matching commands against checks, whole or split into simple commands.
use vstd::prelude::*;

use crate::engine::checks::{
    models, severity_name, Check, CheckModel, Severity, ValidationMode, ValidationResult,
};
use crate::engine::command::{parse_and_split_command, split_spec, views};
use crate::engine::filters::{
    caps_of, check_custom_filter, ctx_accepts_all, ctx_val, decisions_ok, exists_decision,
    filter_keeps, has_exists_filter, not_contains_ok, FileProbe, FilterContext, NoFileProbe,
};
use crate::engine::pattern::regex_is_match;
use crate::text::{contains_seq, str_eq};

verus! {

/// Platform-agnostic validation options.
#[derive(Debug, Clone)]
pub struct ValidationOptions<P = NoFileProbe> {
    /// Pattern IDs that should be denied (blocked completely).
    pub deny_pattern_ids: Vec<String>,
    /// Context for platform-specific filter checks.
    pub filter_context: Option<FilterContext<P>>,
    /// Severity names to include (empty = all severities).
    pub allowed_severities: Vec<String>,
}

impl Default for ValidationOptions<NoFileProbe> {
    fn default() -> (r: Self)
        ensures
            r.deny_pattern_ids@.len() == 0,
            r.filter_context is None,
            r.allowed_severities@.len() == 0,
    {
        ValidationOptions {
            deny_pattern_ids: Vec::new(),
            filter_context: None,
            allowed_severities: Vec::new(),
        }
    }
}

/// A severity passes the allow-list when the list is empty or names it.
pub open spec fn severity_allowed(allowed: Seq<Seq<char>>, s: Severity) -> bool {
    allowed.len() == 0 || allowed.contains(severity_name(s))
}

/// What every kept check satisfies: its pattern matches, its severity is
/// allowed, and no `NotContains` filter drops it.
pub open spec fn may_keep(c: CheckModel, cmd: Seq<char>, allowed: Seq<Seq<char>>) -> bool {
    regex_is_match(c.test, cmd) && severity_allowed(allowed, c.severity) && not_contains_ok(
        c.filters,
        cmd,
    )
}

/// Whether `b` is what matching may decide for one check: its pattern must
/// match, its custom filters keep it (see [`filter_keeps`]), and its
/// severity must be allowed.
pub open spec fn keep_answer<P: FileProbe>(
    c: CheckModel,
    cmd: Seq<char>,
    ctx: Option<FilterContext<P>>,
    allowed: Seq<Seq<char>>,
    b: bool,
) -> bool {
    exists|fr: bool|
        #[trigger] filter_keeps(c, cmd, ctx, fr) && b == (regex_is_match(c.test, cmd) && fr
            && severity_allowed(allowed, c.severity))
}

/// The checks whose mask bit is set, in order.
pub open spec fn select(checks: Seq<CheckModel>, mask: Seq<bool>) -> Seq<CheckModel>
    decreases checks.len(),
{
    if checks.len() == 0 || mask.len() == 0 {
        Seq::empty()
    } else if mask.last() {
        select(checks.drop_last(), mask.drop_last()).push(checks.last())
    } else {
        select(checks.drop_last(), mask.drop_last())
    }
}

/// A keep-mask giving for each check what matching decides for it.
pub open spec fn admissible<P: FileProbe>(
    mask: Seq<bool>,
    checks: Seq<CheckModel>,
    cmd: Seq<char>,
    ctx: Option<FilterContext<P>>,
    allowed: Seq<Seq<char>>,
) -> bool {
    &&& mask.len() == checks.len()
    &&& forall|k: int| 0 <= k < mask.len() ==> keep_answer(checks[k], cmd, ctx, allowed, #[trigger] mask[k])
}

/// The allow-list of an options value.
pub open spec fn allowed_of<P>(o: &ValidationOptions<P>) -> Seq<Seq<char>> {
    views(o.allowed_severities@)
}

/// Whether a severity passes the allow-list.
fn severity_is_allowed(allowed: &Vec<String>, s: Severity) -> (r: bool)
    ensures
        r == severity_allowed(views(allowed@), s),
{
    if allowed.len() == 0 {
        return true;
    }
    let name = s.to_string();
    let mut i: usize = 0;
    while i < allowed.len()
        invariant
            i <= allowed@.len(),
            name@ == severity_name(s),
            forall|k: int| 0 <= k < i ==> (#[trigger] allowed@[k])@ != name@,
        decreases allowed@.len() - i,
    {
        if allowed[i] == name {
            proof {
                assert(views(allowed@)[i as int] == name@);
            }
            return true;
        }
        i = i + 1;
    }
    proof {
        if views(allowed@).contains(severity_name(s)) {
            let k = choose|k: int| 0 <= k < views(allowed@).len() && views(allowed@)[k] == severity_name(s);
            assert(allowed@[k]@ == name@);
        }
    }
    false
}

/// The checks that match the command, in order: the pattern must match,
/// the custom filters must keep the check, and its severity must be in the
/// allow-list (all severities when the list is empty).
pub fn run_check_on_command<P: FileProbe>(
    checks: &[Check],
    command: &str,
    options: &ValidationOptions<P>,
) -> (r: Vec<Check>)
    requires
        ctx_accepts_all(options.filter_context),
    ensures
        exists|mask: Seq<bool>|
            admissible(mask, models(checks@), command@, options.filter_context, allowed_of(options))
                && models(r@) == select(models(checks@), mask),
{
    let mut out: Vec<Check> = Vec::new();
    let ghost mut mask: Seq<bool> = Seq::empty();
    let ghost ms = models(checks@);
    let ghost allowed = allowed_of(options);
    let ghost ctx = options.filter_context;
    let mut i: usize = 0;
    while i < checks.len()
        invariant
            i <= checks@.len(),
            ms == models(checks@),
            allowed == allowed_of(options),
            ctx == options.filter_context,
            ctx_accepts_all(ctx),
            mask.len() == i,
            admissible(mask, ms.subrange(0, i as int), command@, ctx, allowed),
            models(out@) == select(ms.subrange(0, i as int), mask),
        decreases checks@.len() - i,
    {
        let check = &checks[i];
        let ghost mut fr: bool = true;
        let matched = check.test.is_match(command);
        let mut keep = false;
        if matched {
            let fc = options.filter_context.as_ref();
            proof {
                assert(ctx_val(fc) == ctx);
            }
            let kept = check_custom_filter(check, command, fc);
            proof {
                fr = kept;
            }
            if kept {
                keep = severity_is_allowed(&options.allowed_severities, check.severity);
            }
        }
        proof {
            assert(ms[i as int] == check@);
            assert(filter_keeps(check@, command@, ctx, fr));
            assert(keep_answer(check@, command@, ctx, allowed, keep));
        }
        if keep {
            let c = check.clone();
            out.push(c);
        }
        proof {
            let sub = ms.subrange(0, i + 1);
            assert(sub.drop_last() =~= ms.subrange(0, i as int));
            let nm = mask.push(keep);
            assert(nm.drop_last() =~= mask);
            assert(models(out@) =~= select(sub, nm));
            assert forall|k: int| 0 <= k < nm.len() implies keep_answer(sub[k], command@, ctx, allowed, #[trigger] nm[k]) by {
                if k < i {
                    assert(nm[k] == mask[k]);
                    assert(sub[k] == ms.subrange(0, i as int)[k]);
                }
            }
            mask = nm;
        }
        i = i + 1;
    }
    proof {
        assert(ms.subrange(0, checks@.len() as int) =~= ms);
    }
    out
}

/// The keep-mask `may_keep` gives: what matching decides when no probe is
/// asked.
pub open spec fn may_keep_mask(
    checks: Seq<CheckModel>,
    cmd: Seq<char>,
    allowed: Seq<Seq<char>>,
) -> Seq<bool> {
    Seq::new(checks.len(), |k: int| may_keep(checks[k], cmd, allowed))
}

/// [`run_check_on_command`] with default options: the checks whose pattern
/// matches and whose `NotContains` filters all keep them, in order.
pub fn run_check_on_command_simple(checks: &[Check], command: &str) -> (r: Vec<Check>)
    ensures
        models(r@) == select(models(checks@), may_keep_mask(models(checks@), command@, Seq::empty())),
{
    let options = ValidationOptions::default();
    proof {
        assert(allowed_of(&options) =~= Seq::<Seq<char>>::empty());
    }
    let r = run_check_on_command(checks, command, &options);
    proof {
        let ms = models(checks@);
        let ctx = None::<FilterContext<NoFileProbe>>;
        let mask = choose|mask: Seq<bool>|
            admissible(mask, ms, command@, ctx, Seq::<Seq<char>>::empty()) && models(r@) == select(ms, mask);
        assert forall|k: int| 0 <= k < ms.len() implies mask[k] == may_keep_mask(ms, command@, Seq::empty())[k] by {
            lemma_keep_exact(ms[k], command@, ctx, Seq::<Seq<char>>::empty(), mask[k]);
        }
        assert(mask =~= may_keep_mask(ms, command@, Seq::empty()));
    }
    r
}

/// Validates a command against checks already loaded, with default
/// options: safe when none matches, else a result carrying the matches
/// (and asking for a challenge).
pub fn validate_with_checks(checks: &[Check], command: &str) -> (r: ValidationResult)
    ensures
        models(r.matches@) == select(models(checks@), may_keep_mask(models(checks@), command@, Seq::empty())),
        r.should_challenge == (r.matches@.len() > 0),
        !r.should_deny,
{
    let matches = run_check_on_command_simple(checks, command);
    if matches.len() == 0 {
        let r = ValidationResult::safe();
        proof {
            assert(models(r.matches@) =~= models(matches@));
        }
        r
    } else {
        ValidationResult::with_matches(matches)
    }
}

/// The texts a check is tested on: the whole command, or its simple
/// commands.
pub open spec fn targets(c: CheckModel, cmd: Seq<char>) -> Seq<Seq<char>> {
    match c.validation_mode {
        ValidationMode::Whole => seq![cmd],
        ValidationMode::Split => split_spec(cmd),
    }
}

/// `c` once for every set bit of `m`.
pub open spec fn repeat_select(c: CheckModel, m: Seq<bool>) -> Seq<CheckModel>
    decreases m.len(),
{
    if m.len() == 0 {
        Seq::empty()
    } else if m.last() {
        repeat_select(c, m.drop_last()).push(c)
    } else {
        repeat_select(c, m.drop_last())
    }
}

/// Each check repeated once per target it was kept on, in check order.
pub open spec fn gather(checks: Seq<CheckModel>, masks: Seq<Seq<bool>>) -> Seq<CheckModel>
    decreases checks.len(),
{
    if checks.len() == 0 || masks.len() == 0 {
        Seq::empty()
    } else {
        gather(checks.drop_last(), masks.drop_last()) + repeat_select(checks.last(), masks.last())
    }
}

/// Keep-masks, one per check and target, consistent with the checks.
pub open spec fn admissible_split<P: FileProbe>(
    masks: Seq<Seq<bool>>,
    checks: Seq<CheckModel>,
    cmd: Seq<char>,
    ctx: Option<FilterContext<P>>,
    allowed: Seq<Seq<char>>,
) -> bool {
    &&& masks.len() == checks.len()
    &&& forall|k: int|
        0 <= k < masks.len() ==> {
            &&& (#[trigger] masks[k]).len() == targets(checks[k], cmd).len()
            &&& forall|j: int|
                0 <= j < masks[k].len() ==> keep_answer(
                    checks[k],
                    targets(checks[k], cmd)[j],
                    ctx,
                    allowed,
                    #[trigger] masks[k][j],
                )
        }
}

/// Runs one check on one text; the result is the check or nothing.
fn run_one<P: FileProbe>(check: &Check, text: &str, options: &ValidationOptions<P>) -> (r: (
    Vec<Check>,
    Ghost<bool>,
))
    requires
        ctx_accepts_all(options.filter_context),
    ensures
        keep_answer(check@, text@, options.filter_context, allowed_of(options), r.1@),
        models(r.0@) == (if r.1@ {
            seq![check@]
        } else {
            Seq::<CheckModel>::empty()
        }),
{
    let one = vec![check.clone()];
    let got = run_check_on_command(one.as_slice(), text, options);
    let ghost mask = choose|mask: Seq<bool>|
        admissible(mask, models(one@), text@, options.filter_context, allowed_of(options)) && models(got@) == select(
            models(one@),
            mask,
        );
    proof {
        assert(models(one@) =~= seq![check@]);
        assert(mask.len() == 1);
        assert(models(one@)[0] == check@);
        assert(mask.drop_last().len() == 0);
        assert(seq![check@].drop_last().len() == 0);
        reveal_with_fuel(select, 2);
        if mask[0] {
            assert(select(seq![check@], mask) =~= seq![check@]);
        } else {
            assert(select(seq![check@], mask) =~= Seq::<CheckModel>::empty());
        }
    }
    (got, Ghost(mask[0]))
}

/// Matches a command against each check: a `Split` check is tried on every
/// simple command of the command (once per part it is kept on), a `Whole`
/// check on the command as given.
pub fn validate_command_with_split<P: FileProbe>(
    checks: &[Check],
    command: &str,
    options: &ValidationOptions<P>,
) -> (r: Vec<Check>)
    requires
        ctx_accepts_all(options.filter_context),
    ensures
        exists|masks: Seq<Seq<bool>>|
            admissible_split(masks, models(checks@), command@, options.filter_context, allowed_of(options))
                && models(r@) == gather(models(checks@), masks),
{
    let mut matches: Vec<Check> = Vec::new();
    let ghost mut masks: Seq<Seq<bool>> = Seq::empty();
    let ghost ms = models(checks@);
    let ghost allowed = allowed_of(options);
    let mut i: usize = 0;
    while i < checks.len()
        invariant
            i <= checks@.len(),
            ms == models(checks@),
            allowed == allowed_of(options),
            ctx_accepts_all(options.filter_context),
            admissible_split(masks, ms.subrange(0, i as int), command@, options.filter_context, allowed),
            models(matches@) == gather(ms.subrange(0, i as int), masks),
        decreases checks@.len() - i,
    {
        let check = &checks[i];
        proof {
            assert(ms[i as int] == check@);
        }
        let ghost base = matches@;
        let ghost mut m: Seq<bool> = Seq::empty();
        match check.validation_mode {
            ValidationMode::Split => {
                let commands = parse_and_split_command(command);
                let mut j: usize = 0;
                while j < commands.len()
                    invariant
                        j <= commands@.len(),
                        views(commands@) == split_spec(command@),
                        targets(check@, command@) == split_spec(command@),
                        m.len() == j,
                        ctx_accepts_all(options.filter_context),
                        forall|q: int|
                            0 <= q < j ==> keep_answer(
                                check@,
                                targets(check@, command@)[q],
                                options.filter_context,
                                allowed,
                                #[trigger] m[q],
                            ),
                        models(matches@) == models(base) + repeat_select(check@, m),
                        allowed == allowed_of(options),
                    decreases commands@.len() - j,
                {
                    let (mut got, Ghost(b)) = run_one(check, commands[j].as_str(), options);
                    proof {
                        assert(views(commands@)[j as int] == commands@[j as int]@);
                    }
                    let ghost before = matches@;
                    let ghost gotv = got@;
                    matches.append(&mut got);
                    proof {
                        let nm = m.push(b);
                        assert(nm.drop_last() =~= m);
                        assert(models(matches@) =~= models(before) + models(gotv)) by {
                            assert(matches@ =~= before + gotv);
                        }
                        assert(models(matches@) =~= models(base) + repeat_select(check@, nm));
                        m = nm;
                    }
                    j = j + 1;
                }
            },
            ValidationMode::Whole => {
                let (mut got, Ghost(b)) = run_one(check, command, options);
                let ghost before = matches@;
                let ghost gotv = got@;
                matches.append(&mut got);
                proof {
                    let nm = seq![b];
                    assert(nm.drop_last() =~= Seq::<bool>::empty());
                    assert(matches@ =~= before + gotv);
                    assert(models(matches@) =~= models(before) + models(gotv));
                    reveal_with_fuel(repeat_select, 2);
                    assert(targets(check@, command@) =~= seq![command@]);
                    assert(models(matches@) =~= models(base) + repeat_select(check@, nm));
                    m = nm;
                }
            },
        }
        proof {
            let sub = ms.subrange(0, i + 1);
            assert(sub.drop_last() =~= ms.subrange(0, i as int));
            let nms = masks.push(m);
            assert(nms.drop_last() =~= masks);
            assert(models(matches@) =~= gather(sub, nms));
            assert forall|k: int| 0 <= k < nms.len() implies {
                &&& (#[trigger] nms[k]).len() == targets(sub[k], command@).len()
                &&& forall|j: int|
                    0 <= j < nms[k].len() ==> keep_answer(
                        sub[k],
                        targets(sub[k], command@)[j],
                        options.filter_context,
                        allowed,
                        #[trigger] nms[k][j],
                    )
            } by {
                if k < i {
                    assert(nms[k] == masks[k]);
                    assert(sub[k] == ms.subrange(0, i as int)[k]);
                }
            }
            masks = nms;
        }
        i = i + 1;
    }
    proof {
        assert(ms.subrange(0, checks@.len() as int) =~= ms);
    }
    matches
}

/// A probe is never asked: there is no context, or it has no probe.
pub open spec fn probe_free<P>(ctx: Option<FilterContext<P>>) -> bool {
    match ctx {
        Some(c) => c.file_exists_fn is None,
        None => true,
    }
}

/// A kept check has a matching pattern, an allowed severity, and no
/// `NotContains` filter whose text is in the command.
proof fn lemma_keep_sound<P: FileProbe>(
    c: CheckModel,
    cmd: Seq<char>,
    ctx: Option<FilterContext<P>>,
    allowed: Seq<Seq<char>>,
)
    requires
        keep_answer(c, cmd, ctx, allowed, true),
    ensures
        may_keep(c, cmd, allowed),
{
    let fr = choose|fr: bool|
        #[trigger] filter_keeps(c, cmd, ctx, fr) && true == (regex_is_match(c.test, cmd) && fr
            && severity_allowed(allowed, c.severity));
    if c.filters.len() > 0 {
        let ds = choose|ds: Seq<bool>|
            #[trigger] decisions_ok(ds, c.filters, cmd, caps_of(c, cmd), ctx) && fr == (ds.len()
                == c.filters.len() && ds[ds.len() - 1]);
        assert forall|k: int|
            0 <= k < c.filters.len() && (#[trigger] c.filters[k]).0
                == crate::engine::checks::FilterType::NotContains implies !contains_seq(
            cmd,
            c.filters[k].1,
        ) by {
            assert(ds[k]);
        }
    }
}

/// When no existence question can drop a check, what matching decides for
/// it is exactly `may_keep`.
proof fn lemma_keep_exact<P: FileProbe>(
    c: CheckModel,
    cmd: Seq<char>,
    ctx: Option<FilterContext<P>>,
    allowed: Seq<Seq<char>>,
    b: bool,
)
    requires
        !has_exists_filter(c.filters) || probe_free(ctx),
        keep_answer(c, cmd, ctx, allowed, b),
    ensures
        b == may_keep(c, cmd, allowed),
{
    let fr = choose|fr: bool|
        #[trigger] filter_keeps(c, cmd, ctx, fr) && b == (regex_is_match(c.test, cmd) && fr
            && severity_allowed(allowed, c.severity));
    if c.filters.len() > 0 && regex_is_match(c.test, cmd) {
        let n = c.filters.len();
        let ds = choose|ds: Seq<bool>|
            #[trigger] decisions_ok(ds, c.filters, cmd, caps_of(c, cmd), ctx) && fr == (ds.len()
                == n && ds[ds.len() - 1]);
        assert forall|k: int| 0 <= k < ds.len() implies #[trigger] ds[k] == (
        c.filters[k].0 == crate::engine::checks::FilterType::NotContains ==> !contains_seq(
            cmd,
            c.filters[k].1,
        )) by {
            if c.filters[k].0 == crate::engine::checks::FilterType::IsExists {
                if !has_exists_filter(c.filters) {
                    assert(false);
                }
            }
        }
        if fr {
            assert forall|k: int|
                0 <= k < n && (#[trigger] c.filters[k]).0
                    == crate::engine::checks::FilterType::NotContains implies !contains_seq(
                cmd,
                c.filters[k].1,
            ) by {
                assert(ds[k]);
            }
        } else {
            let last = ds.len() - 1;
            assert(!ds[last]);
            assert(c.filters[last].0 == crate::engine::checks::FilterType::NotContains);
            assert(!not_contains_ok(c.filters, cmd));
        }
    }
}

proof fn lemma_select_keeps(checks: Seq<CheckModel>, mask: Seq<bool>, cmd: Seq<char>, allowed: Seq<Seq<char>>)
    requires
        mask.len() == checks.len(),
        forall|k: int| 0 <= k < checks.len() && #[trigger] mask[k] ==> may_keep(checks[k], cmd, allowed),
    ensures
        forall|x: int|
            0 <= x < select(checks, mask).len() ==> may_keep(
                #[trigger] select(checks, mask)[x],
                cmd,
                allowed,
            ),
    decreases checks.len(),
{
    if checks.len() > 0 {
        let cd = checks.drop_last();
        let md = mask.drop_last();
        assert forall|k: int| 0 <= k < cd.len() && #[trigger] md[k] implies may_keep(cd[k], cmd, allowed) by {
            assert(mask[k] && cd[k] == checks[k]);
        }
        lemma_select_keeps(cd, md, cmd, allowed);
        let p = select(cd, md);
        assert(select(checks, mask) == if mask.last() { p.push(checks.last()) } else { p });
        assert forall|x: int| 0 <= x < select(checks, mask).len() implies may_keep(
            #[trigger] select(checks, mask)[x],
            cmd,
            allowed,
        ) by {
            if x < p.len() {
                assert(select(checks, mask)[x] == p[x]);
            } else {
                assert(mask[checks.len() - 1]);
                assert(select(checks, mask)[x] == checks[checks.len() - 1]);
            }
        }
    }
}

/// Law: every check that matching returns has a matching pattern, an
/// allowed severity, and no `NotContains` filter that would drop it.
pub proof fn lemma_matches_are_sound<P: FileProbe>(
    checks: Seq<CheckModel>,
    cmd: Seq<char>,
    ctx: Option<FilterContext<P>>,
    allowed: Seq<Seq<char>>,
    mask: Seq<bool>,
)
    requires
        admissible(mask, checks, cmd, ctx, allowed),
    ensures
        forall|x: int|
            0 <= x < select(checks, mask).len() ==> may_keep(
                #[trigger] select(checks, mask)[x],
                cmd,
                allowed,
            ),
{
    assert forall|k: int| 0 <= k < checks.len() && #[trigger] mask[k] implies may_keep(checks[k], cmd, allowed) by {
        lemma_keep_sound(checks[k], cmd, ctx, allowed);
    }
    lemma_select_keeps(checks, mask, cmd, allowed);
}

/// Law: when no probe is asked (no check has an existence filter, or the
/// context has no probe), matching is a function of its inputs: the checks
/// kept are exactly those satisfying `may_keep`.
pub proof fn lemma_matching_is_deterministic<P: FileProbe>(
    checks: Seq<CheckModel>,
    cmd: Seq<char>,
    ctx: Option<FilterContext<P>>,
    allowed: Seq<Seq<char>>,
    m1: Seq<bool>,
    m2: Seq<bool>,
)
    requires
        forall|k: int|
            0 <= k < checks.len() ==> !has_exists_filter(#[trigger] checks[k].filters) || probe_free(
                ctx,
            ),
        admissible(m1, checks, cmd, ctx, allowed),
        admissible(m2, checks, cmd, ctx, allowed),
    ensures
        select(checks, m1) == select(checks, m2),
        forall|k: int| 0 <= k < checks.len() ==> #[trigger] m1[k] == may_keep(checks[k], cmd, allowed),
{
    assert forall|k: int| 0 <= k < checks.len() implies #[trigger] m1[k] == may_keep(checks[k], cmd, allowed) by {
        lemma_keep_exact(checks[k], cmd, ctx, allowed, m1[k]);
    }
    assert forall|k: int| 0 <= k < checks.len() implies #[trigger] m2[k] == may_keep(checks[k], cmd, allowed) by {
        lemma_keep_exact(checks[k], cmd, ctx, allowed, m2[k]);
    }
    assert(m1 =~= m2);
}


/// Some matched check has its id on the deny list.
pub open spec fn any_denied(matches: Seq<CheckModel>, deny_ids: Seq<Seq<char>>) -> bool {
    exists|k: int| 0 <= k < matches.len() && deny_ids.contains(#[trigger] matches[k].id)
}

/// Whether `id` is one of `ids`.
fn id_listed(id: &str, ids: &[String]) -> (r: bool)
    ensures
        r == views(ids@).contains(id@),
{
    let mut i: usize = 0;
    while i < ids.len()
        invariant
            i <= ids@.len(),
            forall|j: int| 0 <= j < i ==> (#[trigger] ids@[j])@ != id@,
        decreases ids@.len() - i,
    {
        if str_eq(ids[i].as_str(), id) {
            proof {
                assert(views(ids@)[i as int] == id@);
            }
            return true;
        }
        i = i + 1;
    }
    proof {
        if views(ids@).contains(id@) {
            let j = choose|j: int| 0 <= j < views(ids@).len() && views(ids@)[j] == id@;
            assert(ids@[j]@ == id@);
        }
    }
    false
}

/// The verdict on the checks a command matched: safe when none matched;
/// denied (and challenged) when the id of one of them is on the deny list;
/// else challenged.
pub fn verdict(matches: Vec<Check>, deny_ids: &[String]) -> (r: ValidationResult)
    ensures
        r.matches@ == matches@,
        r.should_challenge == (matches@.len() > 0),
        r.should_deny == any_denied(models(matches@), views(deny_ids@)),
{
    let ghost ms = models(matches@);
    let ghost ds = views(deny_ids@);
    let mut deny = false;
    let mut k: usize = 0;
    while k < matches.len()
        invariant
            k <= matches@.len(),
            ms == models(matches@),
            ds == views(deny_ids@),
            deny == exists|q: int| 0 <= q < k && ds.contains(#[trigger] ms[q].id),
        decreases matches@.len() - k,
    {
        let listed = id_listed(matches[k].id.as_str(), deny_ids);
        proof {
            assert(ms[k as int] == matches@[k as int]@);
            if listed {
                assert(ds.contains(ms[k as int].id));
            }
            if !deny && !listed {
                assert forall|q: int| 0 <= q < k + 1 implies !ds.contains(#[trigger] ms[q].id) by {
                    if q < k {
                        assert(!(0 <= q < k && ds.contains(ms[q].id)));
                    }
                }
            }
        }
        deny = deny || listed;
        k = k + 1;
    }
    if matches.len() == 0 {
        let r = ValidationResult::safe();
        proof {
            assert(r.matches@ =~= matches@);
        }
        r
    } else if deny {
        ValidationResult::denied(matches)
    } else {
        ValidationResult::with_matches(matches)
    }
}

/// Validates a command against checks already loaded, under `options`:
/// the checks that [`validate_command_with_split`] keeps, with the
/// [`verdict`] on them under the options' deny list.
pub fn validate_with_options<P: FileProbe>(
    checks: &[Check],
    command: &str,
    options: &ValidationOptions<P>,
) -> (r: ValidationResult)
    requires
        ctx_accepts_all(options.filter_context),
    ensures
        exists|masks: Seq<Seq<bool>>|
            admissible_split(masks, models(checks@), command@, options.filter_context, allowed_of(options))
                && models(r.matches@) == gather(models(checks@), masks),
        r.should_challenge == (r.matches@.len() > 0),
        r.should_deny == any_denied(models(r.matches@), views(options.deny_pattern_ids@)),
{
    let matches = validate_command_with_split(checks, command, options);
    verdict(matches, options.deny_pattern_ids.as_slice())
}

} // verus!
