//! Generation plans: the ordered files that a template provides, and their validation.
use vstd::prelude::*;
use crate::path_safety::{PathIssue, path_issue, is_safe_path, validate_path, clean_from, lemma_clean_is_safe};

verus! {

/// One file of a plan: a path relative to the project root and the file's text.
#[derive(Debug)]
pub struct FileUnit {
    pub path: String,
    pub content: String,
}

impl View for FileUnit {
    type V = (Seq<char>, Seq<char>);

    open spec fn view(&self) -> (Seq<char>, Seq<char>) {
        (self.path@, self.content@)
    }
}

impl FileUnit {
    pub fn new(path: &str, content: &str) -> (r: FileUnit)
        ensures
            r@ == (path@, content@),
    {
        FileUnit { path: path.to_owned(), content: content.to_owned() }
    }
}

/// A plan as a sequence of (relative path, content) pairs.
pub type PlanModel = Seq<(Seq<char>, Seq<char>)>;

pub open spec fn plan_view(units: Seq<FileUnit>) -> PlanModel {
    units.map_values(|u: FileUnit| u@)
}

/// Why unit `k` of `plan` is refused, if it is: its own path first, then a path
/// already used by an earlier unit.
pub open spec fn unit_issue(plan: PlanModel, k: int) -> Option<PathIssue> {
    if path_issue(plan[k].0) is Some {
        path_issue(plan[k].0)
    } else if exists|j: int| 0 <= j < k && plan[j].0 == plan[k].0 {
        Some(PathIssue::Duplicate)
    } else {
        None
    }
}

/// Every path is safe and no two units share a path.
pub open spec fn is_valid_plan(plan: PlanModel) -> bool {
    &&& forall|k: int| 0 <= k < plan.len() ==> is_safe_path(#[trigger] plan[k].0)
    &&& forall|i: int, j: int|
        0 <= i < j < plan.len() ==> #[trigger] plan[i].0 != #[trigger] plan[j].0
}

/// The first refused unit of `plan` and why, if any.
#[verifier::opaque]
pub open spec fn first_issue(plan: PlanModel) -> Option<(int, PathIssue)> {
    if exists|k: int| 0 <= k < plan.len() && unit_issue(plan, k) is Some {
        let k = choose|k: int|
            0 <= k < plan.len() && unit_issue(plan, k) is Some && forall|j: int|
                0 <= j < k ==> unit_issue(plan, j) is None;
        Some((k, unit_issue(plan, k)->0))
    } else {
        None
    }
}

/// The plan has no refused unit exactly when it is valid.
pub proof fn lemma_no_issue_iff_valid(plan: PlanModel)
    ensures
        (forall|k: int| 0 <= k < plan.len() ==> unit_issue(plan, k) is None) <==> is_valid_plan(
            plan,
        ),
{
    if forall|k: int| 0 <= k < plan.len() ==> unit_issue(plan, k) is None {
        assert forall|i: int, j: int| 0 <= i < j < plan.len() implies plan[i].0 != plan[j].0 by {
            assert(unit_issue(plan, j) is None);
        }
        assert forall|k: int| 0 <= k < plan.len() implies is_safe_path(#[trigger] plan[k].0) by {
            assert(unit_issue(plan, k) is None);
        }
    }
    if is_valid_plan(plan) {
        assert forall|k: int| 0 <= k < plan.len() implies unit_issue(plan, k) is None by {
            assert(is_safe_path(plan[k].0));
            if exists|j: int| 0 <= j < k && plan[j].0 == plan[k].0 {
                let j = choose|j: int| 0 <= j < k && plan[j].0 == plan[k].0;
                assert(plan[j].0 != plan[k].0);
            }
        }
    }
}

/// Every unit from `k` on has a non-absolute path with no issue at any position;
/// unfolds on concrete plans.
pub open spec fn all_clean_from(plan: PlanModel, k: int) -> bool
    decreases plan.len() - k,
{
    if k < 0 || k >= plan.len() {
        true
    } else {
        &&& plan[k].0.len() > 0
        &&& plan[k].0[0] != '/'
        &&& clean_from(plan[k].0, 0)
        &&& all_clean_from(plan, k + 1)
    }
}

/// The path of unit `i` differs from those of units `j..`, and so on for the
/// units after `i`; unfolds on concrete plans.
pub open spec fn pairs_distinct_from(plan: PlanModel, i: int, j: int) -> bool
    decreases plan.len() - i, plan.len() - j,
{
    if i < 0 || i >= plan.len() || j <= i {
        true
    } else if j >= plan.len() {
        pairs_distinct_from(plan, i + 1, i + 2)
    } else {
        plan[i].0 != plan[j].0 && pairs_distinct_from(plan, i, j + 1)
    }
}

proof fn lemma_clean_units(plan: PlanModel, k: int, m: int)
    requires
        0 <= k <= m < plan.len(),
        all_clean_from(plan, k),
    ensures
        is_safe_path(plan[m].0),
    decreases m - k,
{
    if k < m {
        lemma_clean_units(plan, k + 1, m);
    } else {
        lemma_clean_is_safe(plan[m].0);
    }
}

proof fn lemma_pairs_distinct(plan: PlanModel, i: int, j: int, a: int, b: int)
    requires
        0 <= i < j <= plan.len(),
        pairs_distinct_from(plan, i, j),
        i <= a < b < plan.len(),
        a == i ==> j <= b,
    ensures
        plan[a].0 != plan[b].0,
    decreases plan.len() - i, plan.len() - j,
{
    if j >= plan.len() {
        lemma_pairs_distinct(plan, i + 1, i + 2, a, b);
    } else if a == i && b == j {
    } else {
        lemma_pairs_distinct(plan, i, j + 1, a, b);
    }
}

/// A plan that passes the position-by-position checks is valid.
pub proof fn lemma_checked_plan_is_valid(plan: PlanModel)
    requires
        all_clean_from(plan, 0),
        pairs_distinct_from(plan, 0, 1),
    ensures
        is_valid_plan(plan),
{
    assert forall|k: int| 0 <= k < plan.len() implies is_safe_path(#[trigger] plan[k].0) by {
        lemma_clean_units(plan, 0, k);
    }
    assert forall|a: int, b: int| 0 <= a < b < plan.len() implies #[trigger] plan[a].0
        != #[trigger] plan[b].0 by {
        lemma_pairs_distinct(plan, 0, 1, a, b);
    }
}

/// Checks a whole plan before anything is written: each path on its own, then
/// against the paths before it.
pub fn validate_plan(units: &Vec<FileUnit>) -> (r: Result<(), (usize, PathIssue)>)
    ensures
        r matches Ok(_) <==> is_valid_plan(plan_view(units@)),
        r matches Err((k, issue)) ==> k < units@.len() && first_issue(plan_view(units@)) == Some(
            (k as int, issue),
        ),
{
    let ghost plan = plan_view(units@);
    let mut k: usize = 0;
    while k < units.len()
        invariant
            plan == plan_view(units@),
            k <= units.len(),
            forall|j: int| 0 <= j < k ==> unit_issue(plan, j) is None,
        decreases units.len() - k,
    {
        let path = &units[k].path;
        assert(path@ == plan[k as int].0);
        match validate_path(path.as_str()) {
            Err(issue) => {
                proof {
                    lemma_first_issue_is(plan, k as int);
                }
                return Err((k, issue));
            },
            Ok(_) => {},
        }
        if path_used_before(units, k) {
            proof {
                let j = choose|j: int| 0 <= j < k && units@[j].path@ == units@[k as int].path@;
                assert(plan[j].0 == plan[k as int].0);
                lemma_first_issue_is(plan, k as int);
            }
            return Err((k, PathIssue::Duplicate));
        }
        proof {
            assert forall|j: int| 0 <= j < k implies plan[j].0 != plan[k as int].0 by {
                assert(plan[j] == units@[j]@);
            }
        }
        assert(unit_issue(plan, k as int) is None);
        k = k + 1;
    }
    proof {
        lemma_no_issue_iff_valid(plan);
    }
    Ok(())
}

fn path_used_before(units: &Vec<FileUnit>, k: usize) -> (r: bool)
    requires
        k < units.len(),
    ensures
        r <==> exists|j: int| 0 <= j < k && units@[j].path@ == units@[k as int].path@,
{
    let mut j: usize = 0;
    while j < k
        invariant
            j <= k < units.len(),
            forall|i: int| 0 <= i < j ==> units@[i].path@ != units@[k as int].path@,
        decreases k - j,
    {
        if units[j].path == units[k].path {
            return true;
        }
        j = j + 1;
    }
    false
}

proof fn lemma_first_issue_is(plan: PlanModel, k: int)
    requires
        0 <= k < plan.len(),
        unit_issue(plan, k) is Some,
        forall|j: int| 0 <= j < k ==> unit_issue(plan, j) is None,
    ensures
        first_issue(plan) == Some((k, unit_issue(plan, k)->0)),
        !is_valid_plan(plan),
{
    reveal(first_issue);
    let k2 = choose|k2: int|
        0 <= k2 < plan.len() && unit_issue(plan, k2) is Some && forall|j: int|
            0 <= j < k2 ==> unit_issue(plan, j) is None;
    assert(k2 == k) by {
        if k2 < k {
            assert(unit_issue(plan, k2) is None);
        } else if k2 > k {
            assert(unit_issue(plan, k) is None);
        }
    }
    lemma_no_issue_iff_valid(plan);
}

} // verus!
