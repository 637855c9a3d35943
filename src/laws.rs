use vstd::prelude::*;

use crate::context::{
    call_effect, failure_effect, mock_effect, revert_effect, skip_effect, ContextModel,
    FailureOutcome, MetaModel, RevertState,
};
use crate::error::HintError;
use crate::processor::dispatch_effect;
use crate::processor::HintHandler;
use crate::text::contains_seq;

verus! {

/// The result one call observes: the mocked payload, or `None` when the
/// callee's real body runs.
pub open spec fn mocked_result(mocks: Map<Seq<char>, Seq<u64>>, target: Seq<char>) -> Option<Seq<u64>> {
    if mocks.contains_key(target) {
        Some(mocks[target])
    } else {
        None
    }
}

/// Runs the call-resolution step on each target in turn; gives the final
/// state and what each call observed.
pub open spec fn run_calls(c: ContextModel, calls: Seq<Seq<char>>) -> (
    ContextModel,
    Seq<Option<Seq<u64>>>,
)
    decreases calls.len(),
{
    if calls.len() == 0 {
        (c, Seq::empty())
    } else {
        let (c1, seen) = run_calls(c, calls.drop_last());
        let (c2, hit) = call_effect(c1, calls.last());
        (c2, seen.push(if hit { Some(c2.call_result) } else { None }))
    }
}

/// Resolving calls never changes the mock table, and each call observes
/// what the table holds for its target.
pub proof fn lemma_run_calls(c: ContextModel, calls: Seq<Seq<char>>)
    ensures
        run_calls(c, calls).0.mocks == c.mocks,
        run_calls(c, calls).1.len() == calls.len(),
        forall|i: int|
            0 <= i < calls.len() ==> #[trigger] run_calls(c, calls).1[i] == mocked_result(
                c.mocks,
                calls[i],
            ),
    decreases calls.len(),
{
    if calls.len() > 0 {
        lemma_run_calls(c, calls.drop_last());
        let prefix = calls.drop_last();
        assert forall|i: int| 0 <= i < calls.len() implies #[trigger] run_calls(c, calls).1[i]
            == mocked_result(c.mocks, calls[i]) by {
            if i < calls.len() - 1 {
                assert(prefix[i] == calls[i]);
            }
        }
    }
}

/// After a `mock_call` with a well-shaped payload, every later call to the
/// target returns exactly that payload without running the callee, and
/// calls to any other target observe what they would have without the mock.
pub proof fn mock_holds_for_later_calls(c: ContextModel, m: MetaModel, calls: Seq<Seq<char>>)
    requires
        m.payload.len() == m.return_len,
    ensures
        mock_effect(c, m).1 is Ok,
        forall|i: int|
            0 <= i < calls.len() && calls[i] == m.target ==> #[trigger] run_calls(
                mock_effect(c, m).0,
                calls,
            ).1[i] == Some(m.payload),
        forall|i: int|
            0 <= i < calls.len() && calls[i] != m.target ==> #[trigger] run_calls(
                mock_effect(c, m).0,
                calls,
            ).1[i] == run_calls(c, calls).1[i],
{
    lemma_run_calls(c, calls);
    lemma_run_calls(mock_effect(c, m).0, calls);
}

/// Two mocks of one target in a row: later calls observe only the second
/// payload.
pub proof fn last_mock_wins(c: ContextModel, m1: MetaModel, m2: MetaModel, calls: Seq<Seq<char>>)
    requires
        m1.payload.len() == m1.return_len,
        m2.payload.len() == m2.return_len,
        m1.target == m2.target,
    ensures
        mock_effect(mock_effect(c, m1).0, m2).0 == mock_effect(c, m2).0,
        forall|i: int|
            0 <= i < calls.len() && calls[i] == m2.target ==> #[trigger] run_calls(
                mock_effect(mock_effect(c, m1).0, m2).0,
                calls,
            ).1[i] == Some(m2.payload),
{
    let once = mock_effect(c, m2).0;
    let twice = mock_effect(mock_effect(c, m1).0, m2).0;
    assert(twice.mocks =~= once.mocks);
    lemma_run_calls(twice, calls);
}

/// An armed `expect_revert` region passes when it fails with a message that
/// matches its pattern (and its exit then passes too), fails with
/// `ExpectedRevertNotRaised` when it reaches its exit cleanly, and fails with
/// `RevertPatternMismatch` when the message does not match.
pub proof fn expect_revert_outcomes(
    c: ContextModel,
    entry: MetaModel,
    exit: MetaModel,
    message: Seq<char>,
)
    requires
        !entry.region_end,
        exit.region_end,
    ensures
        revert_effect(c, entry).1 is Ok,
        revert_effect(c, entry).0.revert == RevertState::Armed(entry.pattern),
        (entry.pattern is None || contains_seq(message, entry.pattern->Some_0)) ==> failure_effect(
            revert_effect(c, entry).0,
            message,
        ).1 == Ok::<FailureOutcome, HintError>(FailureOutcome::Caught) && revert_effect(
            failure_effect(revert_effect(c, entry).0, message).0,
            exit,
        ).1 == Ok::<(), HintError>(()),
        revert_effect(revert_effect(c, entry).0, exit).1 == Err::<(), HintError>(
            HintError::ExpectedRevertNotRaised,
        ),
        (entry.pattern is Some && !contains_seq(message, entry.pattern->Some_0)) ==> failure_effect(
            revert_effect(c, entry).0,
            message,
        ).1 == Err::<FailureOutcome, HintError>(HintError::RevertPatternMismatch),
{
}

/// A `skip` to a boundary inside the frame lands exactly on it and leaves
/// registers, memory, call stack and every other part of the state as they
/// were.
pub proof fn skip_moves_only_the_pointer(c: ContextModel, m: MetaModel)
    requires
        c.frame_start <= m.skip_to < c.frame_end,
    ensures
        skip_effect(c, m).1 is Ok,
        skip_effect(c, m).0.pc == m.skip_to,
        skip_effect(c, m).0 == (ContextModel { pc: m.skip_to, ..c }),
        skip_effect(c, m).0.registers == c.registers,
        skip_effect(c, m).0.memory == c.memory,
        skip_effect(c, m).0.stack_depth == c.stack_depth,
{
}

/// Dispatching an identifier that is not registered fails with
/// `UnknownHint` and leaves the state as it was, whatever the metadata.
pub proof fn unknown_hint_is_inert(
    registry: Map<Seq<char>, HintHandler>,
    id: Seq<char>,
    c: ContextModel,
    m: MetaModel,
)
    requires
        !registry.contains_key(id),
    ensures
        dispatch_effect(registry, id, c, m) == (c, Err::<(), HintError>(HintError::UnknownHint)),
{
}

} // verus!
