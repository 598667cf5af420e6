//! A user-authored check, as the form builds it and the store keeps it.
use vstd::prelude::*;
use crate::engine::pattern::Pattern;

verus! {

#[derive(Debug, Clone, Copy, PartialEq, Eq, Structural)]
pub enum Severity {
    Info,
    Low,
    Medium,
    High,
    Critical,
}

#[derive(Debug, Clone, Copy, PartialEq, Eq, Structural)]
pub enum Challenge {
    Math,
    Enter,
    Yes,
}

/// A condition on the command that must hold for the check to fire.
#[derive(Debug, Clone, PartialEq, Eq)]
pub enum Filter {
    /// The path in the given capture group must exist.
    PathExists(usize),
    Contains(String),
    NotContains(String),
}

/// A filter as a mathematical value.
pub enum FilterModel {
    PathExists(usize),
    Contains(Seq<char>),
    NotContains(Seq<char>),
}

impl View for Filter {
    type V = FilterModel;

    open spec fn view(&self) -> FilterModel {
        match self {
            Filter::PathExists(i) => FilterModel::PathExists(*i),
            Filter::Contains(s) => FilterModel::Contains(s@),
            Filter::NotContains(s) => FilterModel::NotContains(s@),
        }
    }
}

pub open spec fn filters_view(v: Seq<Filter>) -> Seq<FilterModel> {
    v.map_values(|f: Filter| f@)
}

/// A custom check.
#[derive(Debug)]
pub struct Check {
    pub id: String,
    pub test: Pattern,
    pub description: String,
    pub from: String,
    pub challenge: Challenge,
    pub filters: Vec<Filter>,
    pub alternative: Option<String>,
    pub alternative_info: Option<String>,
    pub severity: Severity,
}

pub open spec fn opt_view(o: Option<String>) -> Option<Seq<char>> {
    match o {
        Some(s) => Some(s@),
        None => None,
    }
}

/// The parts of a check that its contracts speak of.
pub struct CheckModel {
    pub id: Seq<char>,
    pub test: Seq<char>,
    pub description: Seq<char>,
    pub from: Seq<char>,
    pub challenge: Challenge,
    pub filters: Seq<FilterModel>,
    pub alternative: Option<Seq<char>>,
    pub alternative_info: Option<Seq<char>>,
    pub severity: Severity,
}

impl View for Check {
    type V = CheckModel;

    open spec fn view(&self) -> CheckModel {
        CheckModel {
            id: self.id@,
            test: self.test@,
            description: self.description@,
            from: self.from@,
            challenge: self.challenge,
            filters: filters_view(self.filters@),
            alternative: opt_view(self.alternative),
            alternative_info: opt_view(self.alternative_info),
            severity: self.severity,
        }
    }
}

pub fn clone_filters(v: &Vec<Filter>) -> (r: Vec<Filter>)
    ensures
        r@ == v@,
{
    let mut out: Vec<Filter> = Vec::new();
    let mut i: usize = 0;
    while i < v.len()
        invariant
            i <= v@.len(),
            out@ == v@.take(i as int),
        decreases v@.len() - i,
    {
        let f = match &v[i] {
            Filter::PathExists(i) => Filter::PathExists(*i),
            Filter::Contains(s) => Filter::Contains(s.clone()),
            Filter::NotContains(s) => Filter::NotContains(s.clone()),
        };
        out.push(f);
        proof {
            assert(v@.take(i + 1) =~= v@.take(i as int).push(v@[i as int]));
        }
        i = i + 1;
    }
    proof {
        assert(v@.take(v@.len() as int) =~= v@);
    }
    out
}

impl Clone for Check {
    fn clone(&self) -> (r: Self)
        ensures
            r@ == self@,
    {
        Check {
            id: self.id.clone(),
            test: self.test.clone(),
            description: self.description.clone(),
            from: self.from.clone(),
            challenge: self.challenge,
            filters: clone_filters(&self.filters),
            alternative: self.alternative.clone(),
            alternative_info: self.alternative_info.clone(),
            severity: self.severity,
        }
    }
}

} // verus!
