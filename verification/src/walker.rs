//! Bounded-depth, depth-first traversal of the directories below a starting
//! directory.
//!
//! The walker holds the directories that are still to be visited and decides,
//! for each, whether to update it, leave it alone, look into it or stop. It
//! never reads a directory itself: where it wants to look into one, it says
//! so, and the caller hands it the subdirectories with `enter`.

use vstd::prelude::*;
use crate::classifier::check_if_repo_is_clean;
use crate::classifier::inspects;
use crate::error::VersionControlError;
use crate::executor::performs;
use crate::executor::update_repo;

verus! {

/// What to do with a directory once it has been classified.
#[derive(Clone, Copy, Debug, PartialEq, Eq, Structural)]
pub enum Decision {
    /// It is a repository that may be updated.
    Update,
    /// It is a repository with local changes: leave it alone.
    Skip,
    /// It could not be classified: look into its subdirectories.
    Descend,
    /// It could not be classified and lies at the depth limit: go no further.
    Stop,
}

/// The rule of the traversal. A directory that was classified is updated if
/// it is clean or the update is forced, and left alone otherwise. One that
/// could not be classified is looked into while it lies above the depth limit.
pub open spec fn decision_for(
    classified: Result<bool, VersionControlError>,
    force_update: bool,
    depth: nat,
    max_depth: nat,
) -> Decision {
    match classified {
        Ok(clean) => if clean || force_update {
            Decision::Update
        } else {
            Decision::Skip
        },
        Err(_) => if depth < max_depth {
            Decision::Descend
        } else {
            Decision::Stop
        },
    }
}

/// Decides what to do with a directory at `depth`, given its classification.
pub fn decide(
    classified: &Result<bool, VersionControlError>,
    force_update: bool,
    depth: usize,
    max_depth: usize,
) -> (decision: Decision)
    ensures
        decision == decision_for(*classified, force_update, depth as nat, max_depth as nat),
{
    match classified {
        Ok(clean) => if *clean || force_update {
            Decision::Update
        } else {
            Decision::Skip
        },
        Err(_) => if depth < max_depth {
            Decision::Descend
        } else {
            Decision::Stop
        },
    }
}

/// A forced traversal updates every directory that was classified, clean or
/// not; an unforced one updates exactly those classified clean. A directory
/// that could not be classified is never updated.
pub proof fn lemma_update_policy(
    classified: Result<bool, VersionControlError>,
    force_update: bool,
    depth: nat,
    max_depth: nat,
)
    ensures
        force_update && classified is Ok ==> decision_for(
            classified,
            force_update,
            depth,
            max_depth,
        ) == Decision::Update,
        !force_update ==> (decision_for(classified, force_update, depth, max_depth)
            == Decision::Update <==> classified == Ok::<bool, VersionControlError>(true)),
        classified is Err ==> decision_for(classified, force_update, depth, max_depth)
            != Decision::Update,
{
}

/// A directory is looked into only from above the depth limit, so its
/// subdirectories lie within the limit.
pub proof fn lemma_descent_stays_within_limit(
    classified: Result<bool, VersionControlError>,
    force_update: bool,
    depth: nat,
    max_depth: nat,
)
    ensures
        decision_for(classified, force_update, depth, max_depth) == Decision::Descend ==> depth + 1
            <= max_depth,
        classified is Err && depth >= max_depth ==> decision_for(
            classified,
            force_update,
            depth,
            max_depth,
        ) == Decision::Stop,
{
}

/// A directory that is still to be visited.
pub struct Pending {
    /// Where it is.
    pub path: String,
    /// How far below the starting directory it lies; 1 for a child of it.
    pub depth: usize,
}

/// A walker as the contracts speak of it.
pub struct WalkerView {
    /// The deepest level at which a directory may still be looked into.
    pub max_depth: nat,
    /// Whether repositories with local changes are reset and updated too.
    pub force_update: bool,
    /// The path of the private key offered when a remote asks for one.
    pub private_key: Option<Seq<char>>,
    /// The directories still to be visited, each with its depth, the next one
    /// first.
    pub pending: Seq<(Seq<char>, nat)>,
    /// The depth of the directory whose subdirectories the walker is ready to
    /// take, if there is one; 0 stands for the starting directory.
    pub awaiting: Option<nat>,
}

/// The subdirectories `entries` of a directory, as pending visits at `depth`.
pub open spec fn children(entries: Seq<String>, depth: nat) -> Seq<(Seq<char>, nat)> {
    Seq::new(entries.len(), |i: int| (entries[i]@, depth))
}

impl WalkerView {
    /// Every pending directory lies at depth 1, or deeper but within the
    /// limit; and what the walker is ready to look into lies above the limit,
    /// or is the starting directory.
    pub open spec fn bounded(self) -> bool {
        &&& forall|i: int|
            0 <= i < self.pending.len() ==> {
                let depth = (#[trigger] self.pending[i]).1;
                depth == 1 || 1 <= depth <= self.max_depth
            }
        &&& self.awaiting matches Some(depth) ==> depth == 0 || depth < self.max_depth
    }
}

/// What became of one directory.
#[derive(Debug)]
pub enum Step {
    /// Nothing was left to visit.
    Finished,
    /// The repository was updated.
    Updated { path: String, depth: usize },
    /// The repository was to be updated and the update failed.
    UpdateFailed { path: String, depth: usize, error: VersionControlError },
    /// The repository has local changes and was left alone.
    Skipped { path: String, depth: usize },
    /// The directory could not be classified; the walker is ready to take its
    /// subdirectories.
    Descend { path: String, depth: usize, reason: VersionControlError },
    /// The directory could not be classified and lies at the depth limit.
    Stopped { path: String, depth: usize, reason: VersionControlError },
}

/// Whether `step` is what acting on the classification of `entry` gives. An
/// update either succeeds or fails in one of the operations that it
/// performs; everything else is fixed by the classification and the depth.
pub open spec fn settles(
    entry: Pending,
    classified: Result<bool, VersionControlError>,
    force_update: bool,
    max_depth: nat,
    step: Step,
) -> bool {
    match decision_for(classified, force_update, entry.depth as nat, max_depth) {
        Decision::Update => {
            ||| step == (Step::Updated { path: entry.path, depth: entry.depth })
            ||| step matches Step::UpdateFailed { path, depth, error } && path == entry.path
                && depth == entry.depth && performs(error.operation, force_update)
        },
        Decision::Skip => step == (Step::Skipped { path: entry.path, depth: entry.depth }),
        Decision::Descend => classified matches Err(reason) && step == (Step::Descend {
            path: entry.path,
            depth: entry.depth,
            reason,
        }),
        Decision::Stop => classified matches Err(reason) && step == (Step::Stopped {
            path: entry.path,
            depth: entry.depth,
            reason,
        }),
    }
}

/// How many of `steps` updated a repository.
pub open spec fn updates_in(steps: Seq<Step>) -> nat
    decreases steps.len(),
{
    if steps.len() == 0 {
        0
    } else {
        updates_in(steps.drop_last()) + if steps.last() is Updated {
            1nat
        } else {
            0nat
        }
    }
}

/// Whether `counts` can be the values of the update counter before, between
/// and after `steps`: each step that updated a repository adds one, and every
/// other step leaves the counter as it was.
pub open spec fn counts_follow(counts: Seq<int>, steps: Seq<Step>) -> bool {
    &&& counts.len() == steps.len() + 1
    &&& forall|i: int|
        0 <= i < steps.len() ==> #[trigger] counts[i + 1] == counts[i] + if steps[i] is Updated {
            1int
        } else {
            0int
        }
}

/// Over a whole traversal the counter goes up by the number of repositories
/// that were updated, whatever else was visited, skipped or looked into.
pub proof fn lemma_counter_counts_updates(counts: Seq<int>, steps: Seq<Step>)
    requires
        counts_follow(counts, steps),
    ensures
        counts.last() == counts[0] + updates_in(steps),
    decreases steps.len(),
{
    if steps.len() > 0 {
        let earlier = steps.drop_last();
        let before = counts.drop_last();
        assert forall|i: int| 0 <= i < earlier.len() implies #[trigger] before[i + 1] == before[i]
            + if earlier[i] is Updated {
            1int
        } else {
            0int
        } by {
            assert(before[i + 1] == counts[i + 1]);
            assert(earlier[i] == steps[i]);
        }
        lemma_counter_counts_updates(before, earlier);
        assert(before.last() == counts[steps.len() - 1]);
        assert(counts.last() == counts[(steps.len() - 1) + 1]);
    }
}

/// A traversal in which no repository was updated leaves the counter as it
/// was.
pub proof fn lemma_nothing_updated_nothing_counted(counts: Seq<int>, steps: Seq<Step>)
    requires
        counts_follow(counts, steps),
        forall|i: int| 0 <= i < steps.len() ==> !(#[trigger] steps[i] is Updated),
    ensures
        counts.last() == counts[0],
        updates_in(steps) == 0,
    decreases steps.len(),
{
    lemma_counter_counts_updates(counts, steps);
    if steps.len() > 0 {
        let earlier = steps.drop_last();
        let before = counts.drop_last();
        assert forall|i: int| 0 <= i < earlier.len() implies #[trigger] before[i + 1] == before[i]
            + if earlier[i] is Updated {
            1int
        } else {
            0int
        } by {
            assert(before[i + 1] == counts[i + 1]);
            assert(earlier[i] == steps[i]);
        }
        assert forall|i: int| 0 <= i < earlier.len() implies !(#[trigger] earlier[i] is Updated) by {
            assert(earlier[i] == steps[i]);
        }
        lemma_nothing_updated_nothing_counted(before, earlier);
    }
}

/// A directory that could not be classified is looked into or passed by,
/// never updated: acting on it gives no update and no failure of one.
pub proof fn lemma_unclassified_is_left_alone(
    entry: Pending,
    classified: Result<bool, VersionControlError>,
    force_update: bool,
    max_depth: nat,
    step: Step,
)
    requires
        classified is Err,
        settles(entry, classified, force_update, max_depth, step),
    ensures
        step is Descend || step is Stopped,
        step is Descend <==> entry.depth < max_depth,
        updates_in(seq![step]) == 0,
{
    assert(seq![step].drop_last() =~= Seq::<Step>::empty());
    assert(seq![step].last() == step);
    reveal_with_fuel(updates_in, 2);
}

impl Step {
    /// The directory that the step was about, with its depth.
    pub open spec fn visited(self) -> Option<(Seq<char>, nat)> {
        match self {
            Step::Finished => None,
            Step::Updated { path, depth } => Some((path@, depth as nat)),
            Step::UpdateFailed { path, depth, .. } => Some((path@, depth as nat)),
            Step::Skipped { path, depth } => Some((path@, depth as nat)),
            Step::Descend { path, depth, .. } => Some((path@, depth as nat)),
            Step::Stopped { path, depth, .. } => Some((path@, depth as nat)),
        }
    }
}

/// The state of a traversal: its configuration and the directories that are
/// still to be visited.
pub struct Walker {
    max_depth: usize,
    force_update: bool,
    private_key: Option<String>,
    /// The pending directories, the next one last.
    stack: Vec<Pending>,
    awaiting: Option<usize>,
}

impl View for Walker {
    type V = WalkerView;

    closed spec fn view(&self) -> WalkerView {
        WalkerView {
            max_depth: self.max_depth as nat,
            force_update: self.force_update,
            private_key: match self.private_key {
                Some(key) => Some(key@),
                None => None,
            },
            pending: Seq::new(
                self.stack@.len(),
                |i: int|
                    (
                        self.stack@[self.stack@.len() - 1 - i].path@,
                        self.stack@[self.stack@.len() - 1 - i].depth as nat,
                    ),
            ),
            awaiting: match self.awaiting {
                Some(depth) => Some(depth as nat),
                None => None,
            },
        }
    }
}

impl Walker {
    /// Whether the walker is one that `new`, `enter` and `step` can have made:
    /// what it holds lies within the bounds of its depth limit.
    pub open spec fn wf(&self) -> bool {
        self@.bounded()
    }

    /// No directory deeper than the depth limit is ever pending, and so none
    /// is ever visited, provided that the limit admits the children of the
    /// starting directory at all.
    pub proof fn lemma_depth_within_limit(&self, i: int)
        requires
            self.wf(),
            self@.max_depth >= 1,
            0 <= i < self@.pending.len(),
        ensures
            1 <= self@.pending[i].1 <= self@.max_depth,
    {
    }

    /// A walker that has nothing pending and is ready to take the
    /// subdirectories of the starting directory.
    pub fn new(max_depth: usize, force_update: bool, private_key: Option<String>) -> (walker:
        Walker)
        ensures
            walker.wf(),
            walker@.max_depth == max_depth,
            walker@.force_update == force_update,
            walker@.private_key == match private_key {
                Some(key) => Some(key@),
                None => None,
            },
            walker@.pending.len() == 0,
            walker@.awaiting == Some(0nat),
    {
        Walker { max_depth, force_update, private_key, stack: Vec::new(), awaiting: Some(0) }
    }

    /// The configured depth limit.
    pub fn max_depth(&self) -> (max_depth: usize)
        ensures
            max_depth == self@.max_depth,
    {
        self.max_depth
    }

    /// Whether repositories with local changes are reset and updated too.
    pub fn force_update(&self) -> (force_update: bool)
        ensures
            force_update == self@.force_update,
    {
        self.force_update
    }

    /// How many directories are still to be visited.
    pub fn pending_count(&self) -> (count: usize)
        ensures
            count == self@.pending.len(),
    {
        self.stack.len()
    }

    /// The directory that the next step will visit, if any is pending.
    pub fn peek(&self) -> (next: Option<&Pending>)
        ensures
            self@.pending.len() == 0 ==> next is None,
            self@.pending.len() > 0 ==> (next matches Some(entry) && (
                entry.path@,
                entry.depth as nat,
            ) == self@.pending[0]),
    {
        let count = self.stack.len();
        if count == 0 {
            None
        } else {
            Some(&self.stack[count - 1])
        }
    }

    /// Hands the walker the subdirectories of the directory that it is ready
    /// to look into. They become the next directories to visit, in the order
    /// given, one level below their parent. Where the walker is not ready to
    /// look into any directory, it takes nothing and says so.
    pub fn enter(&mut self, entries: Vec<String>) -> (accepted: bool)
        requires
            old(self).wf(),
        ensures
            final(self).wf(),
            final(self)@.max_depth == old(self)@.max_depth,
            final(self)@.force_update == old(self)@.force_update,
            final(self)@.private_key == old(self)@.private_key,
            final(self)@.awaiting is None,
            accepted == old(self)@.awaiting is Some,
            old(self)@.awaiting matches Some(depth) ==> final(self)@.pending == children(
                entries@,
                depth + 1,
            ) + old(self)@.pending,
            old(self)@.awaiting is None ==> final(self)@.pending == old(self)@.pending,
    {
        let depth = match self.awaiting {
            Some(parent) => parent + 1,
            None => {
                assert(self@.pending =~= old(self)@.pending);
                return false;
            },
        };
        self.awaiting = None;
        let ghost before = old(self)@.pending;
        let ghost all = entries@;
        let mut entries = entries;
        assert(self@.pending =~= before);
        assert(all.skip(all.len() as int) =~= Seq::<String>::empty());
        while entries.len() > 0
            invariant
                entries@ == all.take(entries@.len() as int),
                entries@.len() <= all.len(),
                self.awaiting is None,
                self.max_depth == old(self).max_depth,
                self.force_update == old(self).force_update,
                self.private_key == old(self).private_key,
                depth == 1 || 1 <= depth <= self.max_depth,
                self@.pending == children(all.skip(entries@.len() as int), depth as nat) + before,
            decreases entries.len(),
        {
            let ghost previous = self@.pending;
            let ghost remaining = entries@.len();
            let path = entries.pop().unwrap();
            self.stack.push(Pending { path, depth });
            assert(self@.pending =~= seq![(path@, depth as nat)] + previous);
            assert(path@ == all[remaining - 1]@);
            assert(children(all.skip(remaining - 1), depth as nat) =~= seq![(path@, depth as nat)]
                + children(all.skip(remaining as int), depth as nat));
            assert(self@.pending =~= children(all.skip(entries@.len() as int), depth as nat)
                + before);
        }
        assert(all.skip(0) =~= all);
        assert forall|i: int| 0 <= i < self@.pending.len() implies {
            let d = (#[trigger] self@.pending[i]).1;
            d == 1 || 1 <= d <= self@.max_depth
        } by {
            if i >= all.len() {
                assert(self@.pending[i] == before[i - all.len()]);
            }
        }
        true
    }

    /// Takes the next pending directory out of the walker, if there is one.
    /// After this the walker is ready to look into no directory.
    pub fn take(&mut self) -> (next: Option<Pending>)
        requires
            old(self).wf(),
        ensures
            final(self).wf(),
            final(self)@.max_depth == old(self)@.max_depth,
            final(self)@.force_update == old(self)@.force_update,
            final(self)@.private_key == old(self)@.private_key,
            final(self)@.awaiting is None,
            old(self)@.pending.len() == 0 ==> next is None && final(self)@.pending == old(
                self,
            )@.pending,
            old(self)@.pending.len() > 0 ==> (next matches Some(entry) && (
                entry.path@,
                entry.depth as nat,
            ) == old(self)@.pending[0]) && final(self)@.pending == old(self)@.pending.skip(1),
    {
        self.awaiting = None;
        let ghost before = old(self)@.pending;
        assert(self@.pending =~= before);
        let next = self.stack.pop();
        proof {
            if next is Some {
                assert(self@.pending =~= before.skip(1));
                assert forall|i: int| 0 <= i < self@.pending.len() implies {
                    let depth = (#[trigger] self@.pending[i]).1;
                    depth == 1 || 1 <= depth <= self@.max_depth
                } by {
                    assert(self@.pending[i] == before[i + 1]);
                }
            } else {
                assert(self@.pending =~= before);
            }
        }
        next
    }

    /// Acts on the classification of a directory that was taken out of the
    /// walker: updates it, leaves it alone, gets ready to take its
    /// subdirectories, or stops, as `decision_for` says. The counter goes up
    /// by one exactly when the directory was updated, and needs room for that
    /// only where an update is decided.
    pub fn settle(
        &mut self,
        entry: Pending,
        classified: Result<bool, VersionControlError>,
        update_count: &mut u16,
    ) -> (step: Step)
        requires
            old(self).wf(),
            decision_for(
                classified,
                old(self)@.force_update,
                entry.depth as nat,
                old(self)@.max_depth,
            ) == Decision::Update ==> *old(update_count) < u16::MAX,
        ensures
            final(self).wf(),
            final(self)@.max_depth == old(self)@.max_depth,
            final(self)@.force_update == old(self)@.force_update,
            final(self)@.private_key == old(self)@.private_key,
            final(self)@.pending == old(self)@.pending,
            settles(
                entry,
                classified,
                old(self)@.force_update,
                old(self)@.max_depth,
                step,
            ),
            *final(update_count) == if step is Updated {
                *old(update_count) + 1
            } else {
                *old(update_count) as int
            },
            final(self)@.awaiting == match step {
                Step::Descend { depth, .. } => Some(depth as nat),
                _ => None,
            },
    {
        let ghost before = self@.pending;
        self.awaiting = None;
        assert(self@.pending =~= before);
        let Pending { path, depth } = entry;
        match decide(&classified, self.force_update, depth, self.max_depth) {
            Decision::Update => match update_repo(path.as_str(), self.force_update, update_count) {
                Ok(()) => Step::Updated { path, depth },
                Err(error) => Step::UpdateFailed { path, depth, error },
            },
            Decision::Skip => Step::Skipped { path, depth },
            Decision::Descend => match classified {
                Err(reason) => {
                    self.awaiting = Some(depth);
                    assert(self@.pending =~= before);
                    Step::Descend { path, depth, reason }
                },
                Ok(_) => unreached(),
            },
            Decision::Stop => match classified {
                Err(reason) => Step::Stopped { path, depth, reason },
                Ok(_) => unreached(),
            },
        }
    }

    /// Visits the next pending directory: takes it out of the walker,
    /// classifies it, and acts on the classification as `settle` does. The
    /// directory leaves the pending ones whatever comes of it. The counter
    /// goes up by one exactly when the directory was updated, and needs room
    /// for that only where a directory is pending.
    pub fn step(&mut self, update_count: &mut u16) -> (step: Step)
        requires
            old(self).wf(),
            old(self)@.pending.len() > 0 ==> *old(update_count) < u16::MAX,
        ensures
            final(self).wf(),
            final(self)@.max_depth == old(self)@.max_depth,
            final(self)@.force_update == old(self)@.force_update,
            final(self)@.private_key == old(self)@.private_key,
            old(self)@.pending.len() == 0 ==> step is Finished && final(self)@.pending == old(
                self,
            )@.pending,
            old(self)@.pending.len() > 0 ==> step.visited() == Some(old(self)@.pending[0])
                && final(self)@.pending == old(self)@.pending.skip(1),
            *final(update_count) == if step is Updated {
                *old(update_count) + 1
            } else {
                *old(update_count) as int
            },
            final(self)@.awaiting == match step {
                Step::Descend { depth, .. } => Some(depth as nat),
                _ => None,
            },
            step matches Step::Descend { depth, reason, .. } ==> depth < old(self)@.max_depth
                && inspects(reason.operation),
            step matches Step::Stopped { depth, reason, .. } ==> depth >= old(self)@.max_depth
                && inspects(reason.operation),
            step is Skipped ==> !old(self)@.force_update,
            step matches Step::UpdateFailed { error, .. } ==> performs(
                error.operation,
                old(self)@.force_update,
            ),
    {
        let entry = match self.take() {
            Some(entry) => entry,
            None => { return Step::Finished; },
        };
        let classified = match &self.private_key {
            Some(key) => check_if_repo_is_clean(entry.path.as_str(), Some(key.as_str())),
            None => check_if_repo_is_clean(entry.path.as_str(), None),
        };
        self.settle(entry, classified, update_count)
    }
}

} // verus!
