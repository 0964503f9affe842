use crate::diagnostic::Fatal;
use crate::script::{Action, EntryPoint};
use crate::startup::{after, Outcome, Status, Verdict};
use vstd::prelude::*;

verus! {

/// Where a start-up of `entry` stands once the host has reported `outcomes`,
/// one for each action that it was given, in order. Outcomes that arrive after
/// the end change nothing.
pub open spec fn replay(entry: EntryPoint, outcomes: Seq<Outcome>) -> Status
    decreases outcomes.len(),
{
    if outcomes.len() == 0 {
        Status::Awaiting(0)
    } else {
        match replay(entry, outcomes.drop_last()) {
            Status::Awaiting(position) => after(entry, position, outcomes.last()),
            Status::Ended(verdict) => Status::Ended(verdict),
        }
    }
}

/// True when the first `count` of `outcomes` are all successes.
pub open spec fn all_succeeded(outcomes: Seq<Outcome>, count: int) -> bool {
    forall|i: int| 0 <= i < count ==> outcomes[i] == Outcome::Succeeded
}

/// An action is outstanding exactly while every outcome so far was a success
/// and the script has not run out; it is then the action that follows those
/// already performed.
pub proof fn lemma_awaiting_iff_all_succeeded(entry: EntryPoint, outcomes: Seq<Outcome>)
    ensures
        replay(entry, outcomes) is Awaiting <==> outcomes.len() < entry.steps().len()
            && all_succeeded(outcomes, outcomes.len() as int),
        replay(entry, outcomes) is Awaiting ==> replay(entry, outcomes) == Status::Awaiting(
            outcomes.len(),
        ),
    decreases outcomes.len(),
{
    if outcomes.len() > 0 {
        let earlier = outcomes.drop_last();
        lemma_awaiting_iff_all_succeeded(entry, earlier);
        assert(forall|i: int| 0 <= i < earlier.len() ==> earlier[i] == outcomes[i]);
        if all_succeeded(outcomes, outcomes.len() as int) {
            assert(all_succeeded(earlier, earlier.len() as int));
        }
        if replay(entry, outcomes) is Awaiting {
            assert(outcomes.last() == Outcome::Succeeded);
            assert(all_succeeded(outcomes, outcomes.len() as int));
        }
    }
}

/// The first failure decides: the process stops with the diagnostic of the
/// action that failed, whatever is reported afterwards.
pub proof fn lemma_first_failure_aborts(entry: EntryPoint, outcomes: Seq<Outcome>, failed: int)
    requires
        0 <= failed < outcomes.len(),
        failed < entry.steps().len(),
        all_succeeded(outcomes, failed),
        outcomes[failed] == Outcome::Failed,
    ensures
        replay(entry, outcomes) == Status::Ended(
            Verdict::Abort(entry.steps()[failed].failure()),
        ),
    decreases outcomes.len(),
{
    let earlier = outcomes.drop_last();
    assert(forall|i: int| 0 <= i < earlier.len() ==> earlier[i] == outcomes[i]);
    if failed == outcomes.len() - 1 {
        assert(all_succeeded(earlier, earlier.len() as int));
        lemma_awaiting_iff_all_succeeded(entry, earlier);
    } else {
        assert(all_succeeded(earlier, failed));
        lemma_first_failure_aborts(entry, earlier, failed);
    }
}

/// When every action of the script has succeeded, the process ends in the
/// ordinary way.
pub proof fn lemma_all_successes_exit(entry: EntryPoint, outcomes: Seq<Outcome>)
    requires
        outcomes.len() >= entry.steps().len(),
        all_succeeded(outcomes, entry.steps().len() as int),
    ensures
        replay(entry, outcomes) == Status::Ended(Verdict::Exit),
    decreases outcomes.len(),
{
    let earlier = outcomes.drop_last();
    assert(forall|i: int| 0 <= i < earlier.len() ==> earlier[i] == outcomes[i]);
    if outcomes.len() == entry.steps().len() {
        assert(all_succeeded(earlier, earlier.len() as int));
        lemma_awaiting_iff_all_succeeded(entry, earlier);
    } else {
        assert(all_succeeded(earlier, entry.steps().len() as int));
        lemma_all_successes_exit(entry, earlier);
    }
}

/// Once a start-up has ended, further outcomes leave its verdict as it is.
pub proof fn lemma_ended_stays_ended(entry: EntryPoint, outcomes: Seq<Outcome>, count: int)
    requires
        0 <= count <= outcomes.len(),
        replay(entry, outcomes.take(count)) is Ended,
    ensures
        replay(entry, outcomes) == replay(entry, outcomes.take(count)),
    decreases outcomes.len(),
{
    if count == outcomes.len() {
        assert(outcomes.take(count) == outcomes);
    } else {
        let earlier = outcomes.drop_last();
        assert(earlier.take(count) == outcomes.take(count));
        lemma_ended_stays_ended(entry, earlier, count);
    }
}

/// The run loop is entered last, and only when every action before it has
/// succeeded.
pub proof fn lemma_run_loop_follows_successes(entry: EntryPoint, outcomes: Seq<Outcome>)
    requires
        replay(entry, outcomes) matches Status::Awaiting(position) && entry.steps()[position as int]
            == Action::EnterRunLoop,
    ensures
        outcomes.len() == entry.steps().len() - 1,
        all_succeeded(outcomes, outcomes.len() as int),
{
    lemma_awaiting_iff_all_succeeded(entry, outcomes);
    entry.lemma_run_loop_is_last();
}

/// When the local data directory cannot be resolved, the process stops with
/// [`Fatal::NoAppDataDir`], and at no moment of the start-up is the run loop
/// the outstanding action.
pub proof fn lemma_unresolved_data_dir_aborts_before_run_loop(
    entry: EntryPoint,
    outcomes: Seq<Outcome>,
    asked: int,
)
    requires
        0 <= asked < outcomes.len(),
        asked < entry.steps().len(),
        entry.steps()[asked] == Action::ResolveDataDir,
        all_succeeded(outcomes, asked),
        outcomes[asked] == Outcome::Failed,
    ensures
        replay(entry, outcomes) == Status::Ended(Verdict::Abort(Fatal::NoAppDataDir)),
        forall|count: int|
            0 <= count <= outcomes.len() ==> !(#[trigger] replay(entry, outcomes.take(count))
                matches Status::Awaiting(position) && entry.steps()[position as int]
                == Action::EnterRunLoop),
{
    lemma_first_failure_aborts(entry, outcomes, asked);
    entry.lemma_run_loop_is_last();
    assert forall|count: int| 0 <= count <= outcomes.len() implies !(#[trigger] replay(
        entry,
        outcomes.take(count),
    ) matches Status::Awaiting(position) && entry.steps()[position as int]
        == Action::EnterRunLoop) by {
        let prefix = outcomes.take(count);
        lemma_awaiting_iff_all_succeeded(entry, prefix);
        if replay(entry, prefix) is Awaiting {
            if count > asked {
                assert(prefix[asked] == outcomes[asked]);
            }
        }
    }
}

} // verus!
