//! Check definitions and the matching of commands against them.
use vstd::prelude::*;

use crate::engine::pattern::Pattern;
use crate::text::{
    ascii_lowercase, ascii_uppercase, is_ascii_text, lowercase_of, owned, str_eq, to_lowercase,
};

verus! {

/// Validation mode for command checking.
#[derive(Debug, Clone, Copy, PartialEq, Eq, Structural, Hash)]
pub enum ValidationMode {
    /// Split the command into its simple commands and check each one.
    Split,
    /// Check the whole command without splitting.
    Whole,
}

impl Default for ValidationMode {
    fn default() -> (r: Self)
        ensures
            r == ValidationMode::Split,
    {
        ValidationMode::Split
    }
}

/// Display name of a validation mode.
pub open spec fn mode_name(m: ValidationMode) -> Seq<char> {
    match m {
        ValidationMode::Split => "split"@,
        ValidationMode::Whole => "whole"@,
    }
}

impl ValidationMode {
    /// The display name: `split` or `whole`.
    pub fn to_string(&self) -> (r: String)
        ensures
            r@ == mode_name(*self),
    {
        match self {
            ValidationMode::Split => owned("split"),
            ValidationMode::Whole => owned("whole"),
        }
    }
}

/// Kinds of custom filters that can narrow a check.
#[derive(Debug, Clone, Copy, PartialEq, Eq, Structural, Hash)]
pub enum FilterType {
    /// Keep the check only if a captured path exists.
    IsExists,
    /// Keep the check only if the command does not contain a string.
    NotContains,
}

/// Challenge types that can be presented to users.
#[derive(Debug, Clone, Copy, PartialEq, Eq, Structural, Hash)]
pub enum Challenge {
    Math,
    Word,
    Confirm,
    Enter,
    Yes,
    Block,
}

impl Default for Challenge {
    fn default() -> (r: Self)
        ensures
            r == Challenge::Math,
    {
        Challenge::Math
    }
}

/// Display name of a challenge.
pub open spec fn challenge_name(c: Challenge) -> Seq<char> {
    match c {
        Challenge::Math => "Math"@,
        Challenge::Word => "Word"@,
        Challenge::Confirm => "Confirm"@,
        Challenge::Enter => "Enter"@,
        Challenge::Yes => "Yes"@,
        Challenge::Block => "Block"@,
    }
}

/// The challenge a lower-case name stands for.
pub open spec fn challenge_for_name(s: Seq<char>) -> Option<Challenge> {
    if s == "math"@ {
        Some(Challenge::Math)
    } else if s == "word"@ {
        Some(Challenge::Word)
    } else if s == "confirm"@ {
        Some(Challenge::Confirm)
    } else if s == "enter"@ {
        Some(Challenge::Enter)
    } else if s == "yes"@ {
        Some(Challenge::Yes)
    } else if s == "block"@ {
        Some(Challenge::Block)
    } else {
        None
    }
}

/// Errors of the engine.
#[derive(Debug)]
pub enum Error {
    /// The given challenge name is not one of the known challenges.
    InvalidChallengeName { name: String },
    /// The given validation mode is not one of the known modes.
    InvalidValidationMode { mode: String },
}

impl Challenge {
    /// The display name: `Math`, `Word`, `Confirm`, `Enter`, `Yes` or `Block`.
    pub fn to_string(&self) -> (r: String)
        ensures
            r@ == challenge_name(*self),
    {
        match self {
            Challenge::Math => owned("Math"),
            Challenge::Word => owned("Word"),
            Challenge::Confirm => owned("Confirm"),
            Challenge::Enter => owned("Enter"),
            Challenge::Yes => owned("Yes"),
            Challenge::Block => owned("Block"),
        }
    }

    /// Converts a challenge name, in any letter case, to the challenge.
    ///
    /// # Errors
    /// `InvalidChallengeName` (carrying the name as given) when the
    /// lower-cased name is none of the known challenges.
    pub fn from_string(str: &str) -> (r: Result<Self, Error>)
        ensures
            match challenge_for_name(lowercase_of(str@)) {
                Some(c) => r == Ok::<Challenge, Error>(c),
                None => r matches Err(Error::InvalidChallengeName { name }) && name@ == str@,
            },
            is_ascii_text(str@) ==> match challenge_for_name(ascii_lowercase(str@)) {
                Some(c) => r == Ok::<Challenge, Error>(c),
                None => r is Err,
            },
    {
        let lower = to_lowercase(str);
        let l = lower.as_str();
        if str_eq(l, "math") {
            Ok(Challenge::Math)
        } else if str_eq(l, "word") {
            Ok(Challenge::Word)
        } else if str_eq(l, "confirm") {
            Ok(Challenge::Confirm)
        } else if str_eq(l, "enter") {
            Ok(Challenge::Enter)
        } else if str_eq(l, "yes") {
            Ok(Challenge::Yes)
        } else if str_eq(l, "block") {
            Ok(Challenge::Block)
        } else {
            Err(Error::InvalidChallengeName { name: owned(str) })
        }
    }
}

/// Every display name is ASCII, and it names its challenge again whether
/// written as displayed or in upper case: with [`Challenge::from_string`]'s
/// contract, `from_string(&c.to_string())` and the upper-cased form give
/// back `c`.
pub proof fn lemma_challenge_name_round_trip(c: Challenge)
    ensures
        is_ascii_text(challenge_name(c)),
        is_ascii_text(ascii_uppercase(challenge_name(c))),
        challenge_for_name(ascii_lowercase(challenge_name(c))) == Some(c),
        challenge_for_name(ascii_lowercase(ascii_uppercase(challenge_name(c)))) == Some(c),
{
    reveal_strlit("Math");
    reveal_strlit("Word");
    reveal_strlit("Confirm");
    reveal_strlit("Enter");
    reveal_strlit("Yes");
    reveal_strlit("Block");
    reveal_strlit("math");
    reveal_strlit("word");
    reveal_strlit("confirm");
    reveal_strlit("enter");
    reveal_strlit("yes");
    reveal_strlit("block");
    let n = challenge_name(c);
    let u = ascii_uppercase(n);
    assert(ascii_lowercase(u) =~= ascii_lowercase(n));
    assert(is_ascii_text(u));
    match c {
        Challenge::Math => {
            assert(ascii_lowercase(n) =~= "math"@);
            assert(challenge_for_name("math"@) == Some(Challenge::Math));
        },
        Challenge::Word => {
            assert(ascii_lowercase(n) =~= "word"@);
            assert("word"@ != "math"@) by {
                assert("word"@[0] != "math"@[0]);
            }
            assert(challenge_for_name("word"@) == Some(Challenge::Word));
        },
        Challenge::Confirm => {
            assert(ascii_lowercase(n) =~= "confirm"@);
            assert("confirm"@ != "math"@) by {
                assert("confirm"@[0] != "math"@[0]);
            }
            assert("confirm"@ != "word"@) by {
                assert("confirm"@[0] != "word"@[0]);
            }
            assert(challenge_for_name("confirm"@) == Some(Challenge::Confirm));
        },
        Challenge::Enter => {
            assert(ascii_lowercase(n) =~= "enter"@);
            assert("enter"@ != "math"@) by {
                assert("enter"@[0] != "math"@[0]);
            }
            assert("enter"@ != "word"@) by {
                assert("enter"@[0] != "word"@[0]);
            }
            assert("enter"@ != "confirm"@) by {
                assert("enter"@[0] != "confirm"@[0]);
            }
            assert(challenge_for_name("enter"@) == Some(Challenge::Enter));
        },
        Challenge::Yes => {
            assert(ascii_lowercase(n) =~= "yes"@);
            assert("yes"@ != "math"@) by {
                assert("yes"@[0] != "math"@[0]);
            }
            assert("yes"@ != "word"@) by {
                assert("yes"@[0] != "word"@[0]);
            }
            assert("yes"@ != "confirm"@) by {
                assert("yes"@[0] != "confirm"@[0]);
            }
            assert("yes"@ != "enter"@) by {
                assert("yes"@[0] != "enter"@[0]);
            }
            assert(challenge_for_name("yes"@) == Some(Challenge::Yes));
        },
        Challenge::Block => {
            assert(ascii_lowercase(n) =~= "block"@);
            assert("block"@ != "math"@) by {
                assert("block"@[0] != "math"@[0]);
            }
            assert("block"@ != "word"@) by {
                assert("block"@[0] != "word"@[0]);
            }
            assert("block"@ != "confirm"@) by {
                assert("block"@[0] != "confirm"@[0]);
            }
            assert("block"@ != "enter"@) by {
                assert("block"@[0] != "enter"@[0]);
            }
            assert("block"@ != "yes"@) by {
                assert("block"@[0] != "yes"@[0]);
            }
            assert(challenge_for_name("block"@) == Some(Challenge::Block));
        },
    }
}

/// Severity levels for risky patterns.
#[derive(Debug, Clone, Copy, PartialEq, Eq, Structural, Hash)]
pub enum Severity {
    Low,
    Medium,
    High,
    Critical,
}

impl Default for Severity {
    fn default() -> (r: Self)
        ensures
            r == Severity::Medium,
    {
        Severity::Medium
    }
}

/// Display name of a severity.
pub open spec fn severity_name(s: Severity) -> Seq<char> {
    match s {
        Severity::Low => "low"@,
        Severity::Medium => "medium"@,
        Severity::High => "high"@,
        Severity::Critical => "critical"@,
    }
}

impl Severity {
    /// The display name: `low`, `medium`, `high` or `critical`.
    pub fn to_string(&self) -> (r: String)
        ensures
            r@ == severity_name(*self),
    {
        match self {
            Severity::Low => owned("low"),
            Severity::Medium => owned("medium"),
            Severity::High => owned("high"),
            Severity::Critical => owned("critical"),
        }
    }
}

/// Abstract value of a check: its text fields as character sequences.
pub ghost struct CheckModel {
    pub id: Seq<char>,
    pub test: Seq<char>,
    pub description: Seq<char>,
    pub from: Seq<char>,
    pub severity: Severity,
    pub challenge: Challenge,
    pub filters: Seq<(FilterType, Seq<char>)>,
    pub validation_mode: ValidationMode,
}

/// The filters of a check as (kind, parameter text) pairs.
pub open spec fn filter_views(f: Seq<(FilterType, String)>) -> Seq<(FilterType, Seq<char>)> {
    f.map_values(|p: (FilterType, String)| (p.0, p.1@))
}

/// Describes a single command validation check.
#[derive(Debug)]
pub struct Check {
    /// Unique identifier for this check.
    pub id: String,
    /// Regular expression tested against the command.
    pub test: Pattern,
    /// Why the command is risky.
    pub description: String,
    /// The group this check belongs to (e.g. "fs", "git", "base").
    pub from: String,
    /// Severity of the risky pattern.
    pub severity: Severity,
    /// Challenge presented when this check matches.
    pub challenge: Challenge,
    /// Custom filters that can drop a match, each kind at most once.
    pub filters: Vec<(FilterType, String)>,
    /// How the command is presented to this check.
    pub validation_mode: ValidationMode,
}

impl View for Check {
    type V = CheckModel;

    open spec fn view(&self) -> CheckModel {
        CheckModel {
            id: self.id@,
            test: self.test@,
            description: self.description@,
            from: self.from@,
            severity: self.severity,
            challenge: self.challenge,
            filters: filter_views(self.filters@),
            validation_mode: self.validation_mode,
        }
    }
}

/// A copy of a filter list.
pub fn copy_filters(f: &Vec<(FilterType, String)>) -> (r: Vec<(FilterType, String)>)
    ensures
        filter_views(r@) == filter_views(f@),
{
    let mut out: Vec<(FilterType, String)> = Vec::new();
    let mut i: usize = 0;
    while i < f.len()
        invariant
            i <= f@.len(),
            filter_views(out@) == filter_views(f@.subrange(0, i as int)),
        decreases f@.len() - i,
    {
        let ghost prev = out@;
        let (k, v) = &f[i];
        let v2 = v.clone();
        out.push((*k, v2));
        proof {
            assert(out@ == prev.push((*k, v2)));
            assert(f@.subrange(0, i + 1) =~= f@.subrange(0, i as int).push(f@[i as int]));
            assert(filter_views(f@.subrange(0, i + 1)) =~= filter_views(f@.subrange(0, i as int)).push((f@[i as int].0, f@[i as int].1@)));
            assert(filter_views(out@) =~= filter_views(prev).push((*k, v2@)));
            assert(filter_views(out@) =~= filter_views(f@.subrange(0, i + 1)));
        }
        i = i + 1;
    }
    proof {
        assert(f@.subrange(0, f@.len() as int) =~= f@);
    }
    out
}

impl Clone for Check {
    fn clone(&self) -> (r: Self)
        ensures
            r@ == self@,
    {
        Check {
            id: self.id.clone(),
            test: self.test.clone(),
            description: self.description.clone(),
            from: self.from.clone(),
            severity: self.severity,
            challenge: self.challenge,
            filters: copy_filters(&self.filters),
            validation_mode: self.validation_mode,
        }
    }
}

/// The abstract values of a list of checks.
pub open spec fn models(v: Seq<Check>) -> Seq<CheckModel> {
    v.map_values(|c: Check| c@)
}

/// Result of command validation.
#[derive(Debug)]
pub struct ValidationResult {
    /// Checks that matched the command.
    pub matches: Vec<Check>,
    /// Whether a challenge should be presented to the user.
    pub should_challenge: bool,
    /// Whether the command should be completely denied.
    pub should_deny: bool,
}

impl Default for ValidationResult {
    fn default() -> (r: Self)
        ensures
            r.matches@.len() == 0,
            !r.should_challenge,
            !r.should_deny,
    {
        ValidationResult::safe()
    }
}

impl ValidationResult {
    /// A result saying the command is safe.
    pub fn safe() -> (r: Self)
        ensures
            r.matches@.len() == 0,
            !r.should_challenge,
            !r.should_deny,
    {
        ValidationResult { matches: Vec::new(), should_challenge: false, should_deny: false }
    }

    /// A result carrying the matched checks; a challenge is due when any matched.
    pub fn with_matches(matches: Vec<Check>) -> (r: Self)
        ensures
            r.matches@ == matches@,
            r.should_challenge == (matches@.len() > 0),
            !r.should_deny,
    {
        let should_challenge = matches.len() > 0;
        ValidationResult { matches, should_challenge, should_deny: false }
    }

    /// A result that denies the command outright.
    pub fn denied(matches: Vec<Check>) -> (r: Self)
        ensures
            r.matches@ == matches@,
            r.should_challenge,
            r.should_deny,
    {
        ValidationResult { matches, should_challenge: true, should_deny: true }
    }
}

} // verus!
