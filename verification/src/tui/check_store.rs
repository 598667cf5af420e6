//! Custom checks kept one file per group (`<root>/<group>.yaml`): where a
//! group's file lives, and what adding, updating or deleting a check does
//! to the list of checks a group file holds. Reading and writing the files
//! is the caller's part.
use vstd::prelude::*;
use crate::text::{concat_str, debug_quoted, debug_text, str_chars, str_eq, string_from_chars};
use crate::tui::custom_check::Check;

verus! {

/// Name for what `Path::join` gives, as text (`base` joined with `name`).
pub uninterp spec fn path_joined(base: Seq<char>, name: Seq<char>) -> Seq<char>;

/// `std::path::Path::join` on text paths. Claims that the result, taken
/// back as text, is the join of the two (lossless here, as both parts are
/// valid text).
#[verifier::external_body]
fn join_path(base: &str, name: &str) -> (r: String)
    ensures
        r@ == path_joined(base@, name@),
{
    std::path::Path::new(base).join(name).to_string_lossy().into_owned()
}

/// The directory holding the custom checks.
#[derive(Debug)]
pub struct CustomCheckStore {
    root: String,
}

#[derive(Debug, Clone, PartialEq, Eq)]
pub enum StoreError {
    /// A check with this id is already in the group.
    AlreadyExists { id: String, group: String },
    /// No check with this id is in the group being deleted from.
    NotFound { id: String, group: String },
    /// No check with this id is in the group being updated.
    UpdateTargetMissing { id: String },
}

/// The text of a store error: the id and group written as `{:?}` writes
/// them.
pub open spec fn store_error_text(e: StoreError) -> Seq<char> {
    match e {
        StoreError::AlreadyExists { id, group } => "check id "@ + debug_text(id@)
            + " already exists in group "@ + debug_text(group@),
        StoreError::NotFound { id, group } => "check id "@ + debug_text(id@)
            + " not found in group "@ + debug_text(group@),
        StoreError::UpdateTargetMissing { id } => "check id "@ + debug_text(id@) + " not found"@,
    }
}

impl StoreError {
    pub fn message(&self) -> (r: String)
        ensures
            r@ == store_error_text(*self),
    {
        let (id, group, middle) = match self {
            StoreError::AlreadyExists { id, group } => (id, group, " already exists in group "),
            StoreError::NotFound { id, group } => (id, group, " not found in group "),
            StoreError::UpdateTargetMissing { id } => {
                let a = concat_str("check id ", debug_quoted(id.as_str()).as_str());
                return concat_str(a.as_str(), " not found");
            },
        };
        let a = concat_str("check id ", debug_quoted(id.as_str()).as_str());
        let b = concat_str(a.as_str(), middle);
        concat_str(b.as_str(), debug_quoted(group.as_str()).as_str())
    }
}

pub open spec fn ids_of(checks: Seq<Check>) -> Seq<Seq<char>> {
    checks.map_values(|c: Check| c.id@)
}

/// The checks of a list whose id is not `id`, in order.
pub open spec fn without_id(checks: Seq<Check>, id: Seq<char>) -> Seq<Check>
    decreases checks.len(),
{
    if checks.len() == 0 {
        Seq::empty()
    } else {
        let rest = without_id(checks.drop_last(), id);
        if checks.last().id@ == id {
            rest
        } else {
            rest.push(checks.last())
        }
    }
}

pub open spec fn has_id(checks: Seq<Check>, id: Seq<char>) -> bool {
    exists|i: int| 0 <= i < checks.len() && #[trigger] checks[i].id@ == id
}

pub open spec fn checks_view(checks: Seq<Check>) -> Seq<crate::tui::custom_check::CheckModel> {
    checks.map_values(|c: Check| c@)
}

impl CustomCheckStore {
    pub closed spec fn root_path(&self) -> Seq<char> {
        self.root@
    }

    pub fn new(root: String) -> (r: Self)
        ensures
            r.root_path() == root@,
    {
        CustomCheckStore { root }
    }

    pub fn root(&self) -> (r: &str)
        ensures
            r@ == self.root_path(),
    {
        self.root.as_str()
    }

    /// `<root>/<group>.yaml`.
    pub fn path_for_group(&self, group: &str) -> (r: String)
        ensures
            r@ == path_joined(self.root_path(), group@ + ".yaml"@),
    {
        let mut name = str_chars(group);
        let ext = str_chars(".yaml");
        let mut i: usize = 0;
        let ghost g = name@;
        while i < ext.len()
            invariant
                i <= ext@.len(),
                name@ == g + ext@.take(i as int),
            decreases ext@.len() - i,
        {
            name.push(ext[i]);
            proof {
                assert(ext@.take(i + 1) =~= ext@.take(i as int).push(ext@[i as int]));
            }
            i = i + 1;
        }
        proof {
            assert(ext@.take(ext@.len() as int) =~= ext@);
        }
        let file = string_from_chars(name.as_slice());
        join_path(self.root.as_str(), file.as_str())
    }

    /// The group's checks without the one with id `id`; an error when the
    /// group holds no such check. An empty result means the group's file
    /// is to be removed.
    pub fn delete(&self, id: &str, group: &str, existing: &Vec<Check>) -> (r: Result<
        Vec<Check>,
        StoreError,
    >)
        ensures
            match r {
                Ok(kept) => has_id(existing@, id@) && checks_view(kept@) == checks_view(
                    without_id(existing@, id@),
                ),
                Err(e) => !has_id(existing@, id@) && (e matches StoreError::NotFound {
                    id: i,
                    group: g,
                } && i@ == id@ && g@ == group@),
            },
    {
        let kept = keep_other_ids(existing, id);
        if kept.1 {
            Ok(kept.0)
        } else {
            Err(StoreError::NotFound { id: id.to_string(), group: group.to_string() })
        }
    }

    /// The group's checks with `c` appended; an error when the group
    /// already holds a check with its id.
    pub fn add(&self, c: &Check, existing: &Vec<Check>) -> (r: Result<Vec<Check>, StoreError>)
        ensures
            match r {
                Ok(all) => !has_id(existing@, c.id@) && checks_view(all@) == checks_view(
                    existing@,
                ).push(c@),
                Err(e) => has_id(existing@, c.id@) && (e matches StoreError::AlreadyExists {
                    id: i,
                    group: g,
                } && i@ == c.id@ && g@ == c.from@),
            },
    {
        let mut all: Vec<Check> = Vec::new();
        let mut i: usize = 0;
        while i < existing.len()
            invariant
                i <= existing@.len(),
                checks_view(all@) == checks_view(existing@.take(i as int)),
                forall|k: int| 0 <= k < i ==> (#[trigger] existing@[k]).id@ != c.id@,
            decreases existing@.len() - i,
        {
            if str_eq(existing[i].id.as_str(), c.id.as_str()) {
                return Err(
                    StoreError::AlreadyExists { id: c.id.clone(), group: c.from.clone() },
                );
            }
            let ghost before = all@;
            all.push(existing[i].clone());
            proof {
                assert(checks_view(all@) =~= checks_view(before).push(existing@[i as int]@));
                assert(checks_view(existing@.take(i + 1)) =~= checks_view(
                    existing@.take(i as int),
                ).push(existing@[i as int]@));
            }
            i = i + 1;
        }
        let ghost before = all@;
        all.push(c.clone());
        proof {
            assert(existing@.take(existing@.len() as int) =~= existing@);
            assert(checks_view(all@) =~= checks_view(before).push(c@));
        }
        Ok(all)
    }

    /// The group's checks with the first check of `c`'s id replaced by
    /// `c`; an error when the group holds no check with that id.
    pub fn update(&self, c: &Check, existing: &Vec<Check>) -> (r: Result<Vec<Check>, StoreError>)
        ensures
            match r {
                Ok(all) => has_id(existing@, c.id@) && all@.len() == existing@.len() && exists|
                    k: int,
                |
                    0 <= k < existing@.len() && existing@[k].id@ == c.id@ && (forall|q: int|
                        0 <= q < k ==> (#[trigger] existing@[q]).id@ != c.id@) && checks_view(
                        all@,
                    ) == checks_view(existing@).update(k, c@),
                Err(e) => !has_id(existing@, c.id@) && (e matches StoreError::UpdateTargetMissing {
                    id: i,
                } && i@ == c.id@),
            },
    {
        let mut all: Vec<Check> = Vec::new();
        let mut i: usize = 0;
        let mut found: bool = false;
        let ghost mut at: int = 0;
        while i < existing.len()
            invariant
                i <= existing@.len(),
                all@.len() == i,
                !found ==> forall|k: int| 0 <= k < i ==> (#[trigger] existing@[k]).id@ != c.id@,
                !found ==> checks_view(all@) == checks_view(existing@.take(i as int)),
                found ==> 0 <= at < i && existing@[at].id@ == c.id@ && (forall|q: int|
                    0 <= q < at ==> (#[trigger] existing@[q]).id@ != c.id@) && checks_view(all@)
                    == checks_view(existing@.take(i as int)).update(at, c@),
            decreases existing@.len() - i,
        {
            let ghost before = all@;
            if !found && str_eq(existing[i].id.as_str(), c.id.as_str()) {
                all.push(c.clone());
                found = true;
                proof {
                    at = i as int;
                    assert(checks_view(all@) =~= checks_view(before).push(c@));
                    assert(checks_view(existing@.take(i + 1)) =~= checks_view(
                        existing@.take(i as int),
                    ).push(existing@[i as int]@));
                    assert(checks_view(all@) =~= checks_view(existing@.take(i + 1)).update(
                        at,
                        c@,
                    ));
                }
            } else {
                all.push(existing[i].clone());
                proof {
                    assert(checks_view(all@) =~= checks_view(before).push(existing@[i as int]@));
                    assert(checks_view(existing@.take(i + 1)) =~= checks_view(
                        existing@.take(i as int),
                    ).push(existing@[i as int]@));
                    if found {
                        assert(checks_view(all@) =~= checks_view(existing@.take(i + 1)).update(
                            at,
                            c@,
                        ));
                    } else {
                        assert(checks_view(all@) =~= checks_view(existing@.take(i + 1)));
                    }
                }
            }
            i = i + 1;
        }
        proof {
            assert(existing@.take(existing@.len() as int) =~= existing@);
        }
        if found {
            Ok(all)
        } else {
            Err(StoreError::UpdateTargetMissing { id: c.id.clone() })
        }
    }
}

impl CustomCheckStore {
    /// A check whose group changed: the previous group's checks without
    /// it (an empty list means that file is to be removed), and the new
    /// group's checks with it appended, or the error of that append.
    pub fn move_check(&self, c: &Check, previous: &Vec<Check>, target: &Vec<Check>) -> (r: (
        Vec<Check>,
        Result<Vec<Check>, StoreError>,
    ))
        ensures
            checks_view(r.0@) == checks_view(without_id(previous@, c.id@)),
            match r.1 {
                Ok(all) => !has_id(target@, c.id@) && checks_view(all@) == checks_view(
                    target@,
                ).push(c@),
                Err(e) => has_id(target@, c.id@) && (e matches StoreError::AlreadyExists {
                    id: i,
                    group: g,
                } && i@ == c.id@ && g@ == c.from@),
            },
    {
        let kept = keep_other_ids(previous, c.id.as_str());
        (kept.0, self.add(c, target))
    }
}

/// The checks whose id is not `id`, and whether any had it.
pub fn keep_other_ids(existing: &Vec<Check>, id: &str) -> (r: (Vec<Check>, bool))
    ensures
        checks_view(r.0@) == checks_view(without_id(existing@, id@)),
        r.1 == has_id(existing@, id@),
{
    let mut kept: Vec<Check> = Vec::new();
    let mut any = false;
    let mut i: usize = 0;
    while i < existing.len()
        invariant
            i <= existing@.len(),
            checks_view(kept@) == checks_view(without_id(existing@.take(i as int), id@)),
            any == has_id(existing@.take(i as int), id@),
        decreases existing@.len() - i,
    {
        let ghost before = kept@;
        let ghost pre = existing@.take(i as int);
        let ghost post = existing@.take(i + 1);
        proof {
            assert(post.drop_last() =~= pre);
            assert(post.last() == existing@[i as int]);
        }
        if str_eq(existing[i].id.as_str(), id) {
            any = true;
            proof {
                assert(post[i as int].id@ == id@);
            }
        } else {
            kept.push(existing[i].clone());
            proof {
                assert(checks_view(kept@) =~= checks_view(before).push(existing@[i as int]@));
                assert(checks_view(without_id(post, id@)) =~= checks_view(
                    without_id(pre, id@),
                ).push(existing@[i as int]@));
                if has_id(post, id@) {
                    let k = choose|k: int| 0 <= k < post.len() && #[trigger] post[k].id@ == id@;
                    assert(pre[k].id@ == id@);
                }
            }
        }
        proof {
            if has_id(pre, id@) {
                let k = choose|k: int| 0 <= k < pre.len() && #[trigger] pre[k].id@ == id@;
                assert(post[k].id@ == id@);
            }
        }
        i = i + 1;
    }
    proof {
        assert(existing@.take(existing@.len() as int) =~= existing@);
    }
    (kept, any)
}

/// After a delete no check of the group has the deleted id; deleting an
/// id the group does not hold changes nothing.
pub proof fn lemma_deleted_id_is_gone(checks: Seq<Check>, id: Seq<char>)
    ensures
        !has_id(without_id(checks, id), id),
        !has_id(checks, id) ==> without_id(checks, id) == checks,
    decreases checks.len(),
{
    if checks.len() > 0 {
        lemma_deleted_id_is_gone(checks.drop_last(), id);
        let rest = without_id(checks.drop_last(), id);
        if checks.last().id@ != id {
            assert forall|i: int| 0 <= i < rest.push(checks.last()).len() implies #[trigger] rest.push(
                checks.last(),
            )[i].id@ != id by {
                if i < rest.len() {
                    assert(rest.push(checks.last())[i] == rest[i]);
                }
            }
        }
        if !has_id(checks, id) {
            assert(!has_id(checks.drop_last(), id)) by {
                if has_id(checks.drop_last(), id) {
                    let k = choose|k: int|
                        0 <= k < checks.drop_last().len() && #[trigger] checks.drop_last()[k].id@
                            == id;
                    assert(checks[k].id@ == id);
                }
            }
            assert(checks.last().id@ != id) by {
                assert(checks[checks.len() - 1].id@ != id);
            }
            assert(checks.drop_last().push(checks.last()) =~= checks);
        }
    }
}

/// Law: deleting an id keeps every check with another id, in order, and
/// only those: the result is the list filtered by "id differs", and a
/// check is in it exactly when it is in the list with another id.
pub proof fn lemma_delete_keeps_other_ids(checks: Seq<Check>, id: Seq<char>)
    ensures
        without_id(checks, id) == checks.filter(|c: Check| c.id@ != id),
        forall|c: Check| #[trigger] without_id(checks, id).contains(c) <==> (checks.contains(c) && c.id@ != id),
        without_id(checks, id).len() <= checks.len(),
    decreases checks.len(),
{
    let pred = |c: Check| c.id@ != id;
    reveal(Seq::filter);
    if checks.len() > 0 {
        lemma_delete_keeps_other_ids(checks.drop_last(), id);
        assert(checks.filter(pred) == {
            let sub = checks.drop_last().filter(pred);
            if pred(checks.last()) {
                sub.push(checks.last())
            } else {
                sub
            }
        });
    } else {
        assert(checks.filter(pred) =~= Seq::<Check>::empty());
    }
    let r = without_id(checks, id);
    assert forall|c: Check| #[trigger] r.contains(c) <==> (checks.contains(c) && c.id@ != id) by {
        if r.contains(c) {
            checks.lemma_filter_contains_rev(pred, c);
        }
        if checks.contains(c) && c.id@ != id {
            let i = choose|i: int| 0 <= i < checks.len() && checks[i] == c;
            checks.lemma_filter_contains(pred, i);
        }
    }
    checks.lemma_filter_len(pred);
}

} // verus!
