use vstd::prelude::*;
use crate::pruning::{is_pruned_branch, pruned_name};

verus! {

/// What the prune policy makes of one line of fetch or pull output, as a value.
pub enum PruneDecision {
    /// Nothing to do beyond echoing the line.
    Keep,
    /// The pruned branch is the one checked out: warn, and keep it.
    Warn(Seq<char>),
    /// Force-delete this local branch.
    Delete(Seq<char>),
}

/// What the prune policy makes of one line of fetch or pull output.
pub enum PruneAction {
    /// Nothing to do beyond echoing the line.
    Keep,
    /// The pruned branch is the one checked out: warn, and keep it.
    Warn(String),
    /// Force-delete this local branch.
    Delete(String),
}

impl View for PruneAction {
    type V = PruneDecision;

    open spec fn view(&self) -> PruneDecision {
        match self {
            PruneAction::Keep => PruneDecision::Keep,
            PruneAction::Warn(n) => PruneDecision::Warn(n@),
            PruneAction::Delete(n) => PruneDecision::Delete(n@),
        }
    }
}

/// The names of a list of local branches, as a set.
pub open spec fn branch_set(branches: Seq<String>) -> Set<Seq<char>> {
    Set::new(|n: Seq<char>| exists|i: int| 0 <= i < branches.len() && #[trigger] branches[i]@ == n)
}

/// The decision for one line, given the checked-out branch and the local branches.
pub open spec fn decide(line: Seq<char>, current: Seq<char>, branches: Set<Seq<char>>) -> PruneDecision {
    match pruned_name(line) {
        None => PruneDecision::Keep,
        Some(n) => if n == current {
            PruneDecision::Warn(n)
        } else if branches.contains(n) {
            PruneDecision::Delete(n)
        } else {
            PruneDecision::Keep
        },
    }
}

/// The decisions for a run of lines, one per line, in the order of the lines.
pub open spec fn plan(lines: Seq<Seq<char>>, current: Seq<char>, branches: Set<Seq<char>>) -> Seq<PruneDecision> {
    lines.map_values(|l: Seq<char>| decide(l, current, branches))
}

/// The branches that a run of decisions deletes.
pub open spec fn deletions(p: Seq<PruneDecision>) -> Set<Seq<char>> {
    Set::new(|n: Seq<char>| exists|i: int| 0 <= i < p.len() && p[i] == PruneDecision::Delete(n))
}

/// The decisions for a run of lines are the decisions for its first part followed
/// by those for the rest: no line's outcome, a failed deletion included, changes
/// what is done with the lines after it, and the run never stops early.
pub proof fn lemma_plan_append(
    first: Seq<Seq<char>>,
    rest: Seq<Seq<char>>,
    current: Seq<char>,
    branches: Set<Seq<char>>,
)
    ensures
        plan(first + rest, current, branches) == plan(first, current, branches) + plan(
            rest,
            current,
            branches,
        ),
{
    assert(plan(first + rest, current, branches) =~= plan(first, current, branches) + plan(
        rest,
        current,
        branches,
    ));
}

/// No output lines, no decisions.
pub proof fn lemma_plan_empty(current: Seq<char>, branches: Set<Seq<char>>)
    ensures
        plan(Seq::empty(), current, branches) == Seq::<PruneDecision>::empty(),
{
    assert(plan(Seq::empty(), current, branches) =~= Seq::<PruneDecision>::empty());
}

/// Running the policy a second time over the same lines, with the branches that the
/// first run deleted gone from the local branches, deletes nothing.
pub proof fn lemma_second_run_deletes_nothing(
    lines: Seq<Seq<char>>,
    current: Seq<char>,
    branches: Set<Seq<char>>,
)
    ensures
        deletions(
            plan(
                lines,
                current,
                branches.difference(deletions(plan(lines, current, branches))),
            ),
        ) == Set::<Seq<char>>::empty(),
{
    let first = plan(lines, current, branches);
    let left = branches.difference(deletions(first));
    let second = plan(lines, current, left);
    assert forall|n: Seq<char>| !deletions(second).contains(n) by {
        if deletions(second).contains(n) {
            let i = choose|i: int| 0 <= i < second.len() && second[i] == PruneDecision::Delete(n);
            assert(first[i] == PruneDecision::Delete(n));
            assert(deletions(first).contains(n));
        }
    }
    assert(deletions(second) =~= Set::<Seq<char>>::empty());
}

/// Whether `name` is among `branches`.
pub fn has_branch(branches: &Vec<String>, name: &String) -> (r: bool)
    ensures
        r == branch_set(branches@).contains(name@),
{
    let mut i: usize = 0;
    while i < branches.len()
        invariant
            i <= branches@.len(),
            forall|t: int| 0 <= t < i ==> branches@[t]@ != name@,
        decreases branches@.len() - i,
    {
        if branches[i] == *name {
            assert(branches@[i as int]@ == name@);
            return true;
        }
        i = i + 1;
    }
    false
}

/// Decides what to do with one line of fetch or pull output: keep the branch it
/// names when that is the checked-out branch, delete it when it is a local branch,
/// and otherwise nothing.
pub fn prune_action(line: &str, current_branch: &String, branches: &Vec<String>) -> (r: PruneAction)
    ensures
        r@ == decide(line@, current_branch@, branch_set(branches@)),
{
    match is_pruned_branch(line) {
        None => PruneAction::Keep,
        Some(name) => if name == *current_branch {
            PruneAction::Warn(name)
        } else if has_branch(branches, &name) {
            PruneAction::Delete(name)
        } else {
            PruneAction::Keep
        },
    }
}

/// Decides, line by line and in order, what to do with the output of a fetch or
/// pull with pruning. The local branches are a snapshot taken before the run.
pub fn plan_prune(lines: &Vec<String>, current_branch: &String, branches: &Vec<String>) -> (r: Vec<PruneAction>)
    ensures
        r@.map_values(|a: PruneAction| a@) == plan(
            lines@.map_values(|l: String| l@),
            current_branch@,
            branch_set(branches@),
        ),
{
    let ghost bs = branch_set(branches@);
    let mut r: Vec<PruneAction> = Vec::new();
    let mut i: usize = 0;
    while i < lines.len()
        invariant
            i <= lines@.len(),
            r@.len() == i,
            bs == branch_set(branches@),
            forall|t: int| 0 <= t < i ==> #[trigger] r@[t]@ == decide(lines@[t]@, current_branch@, bs),
        decreases lines@.len() - i,
    {
        let a = prune_action(lines[i].as_str(), current_branch, branches);
        r.push(a);
        i = i + 1;
    }
    assert(r@.map_values(|a: PruneAction| a@) =~= plan(
        lines@.map_values(|l: String| l@),
        current_branch@,
        bs,
    ));
    r
}

} // verus!
