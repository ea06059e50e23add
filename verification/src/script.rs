//! Scripts in a transaction window.
//!
//! A script is split into its statements, which are run one after the other
//! between the begin and the commit of a transaction. The first failure ends the
//! run and rolls the transaction back. Engines without transactions run the
//! statements without a window.
use vstd::prelude::*;

verus! {

/// How far the run of a script has come.
#[derive(Debug, Clone, Copy, PartialEq, Eq, Structural)]
pub enum ScriptState {
    /// Nothing was asked for yet.
    Start,
    /// The transaction was begun.
    Opening,
    /// The statement with this index was run.
    Running(usize),
    /// The transaction was committed.
    Committing,
    /// The transaction was rolled back.
    RollingBack,
    /// The run is over.
    Done,
}

/// What is to be done next.
#[derive(Debug, Clone, Copy, PartialEq, Eq, Structural)]
pub enum ScriptAction {
    Begin,
    /// Run the statement with this index.
    Run(usize),
    Commit,
    Rollback,
    /// Nothing is left to do.
    Finished,
}

/// The statement with index `i` where there is one, else the end of the run.
pub open spec fn next_statement(n: nat, window: bool, i: int) -> (ScriptState, ScriptAction) {
    if i < n {
        (ScriptState::Running(i as usize), ScriptAction::Run(i as usize))
    } else if window {
        (ScriptState::Committing, ScriptAction::Commit)
    } else {
        (ScriptState::Done, ScriptAction::Finished)
    }
}

/// What follows in a run of `n` statements, where `ok` says whether the last
/// action succeeded.
pub open spec fn step_of(n: nat, window: bool, s: ScriptState, ok: bool) -> (
    ScriptState,
    ScriptAction,
) {
    match s {
        ScriptState::Start => if window {
            (ScriptState::Opening, ScriptAction::Begin)
        } else {
            next_statement(n, window, 0)
        },
        ScriptState::Opening => if ok {
            next_statement(n, window, 0)
        } else {
            (ScriptState::Done, ScriptAction::Finished)
        },
        ScriptState::Running(i) => if ok {
            next_statement(n, window, i + 1)
        } else if window {
            (ScriptState::RollingBack, ScriptAction::Rollback)
        } else {
            (ScriptState::Done, ScriptAction::Finished)
        },
        ScriptState::Committing => if ok {
            (ScriptState::Done, ScriptAction::Finished)
        } else {
            (ScriptState::RollingBack, ScriptAction::Rollback)
        },
        ScriptState::RollingBack | ScriptState::Done => (
            ScriptState::Done,
            ScriptAction::Finished,
        ),
    }
}

/// The next action of a script, given how far its run has come and whether the
/// last action succeeded. With `window` the statements are run in a transaction.
pub fn script_step(statements: &Vec<String>, window: bool, s: ScriptState, ok: bool) -> (r: (
    ScriptState,
    ScriptAction,
))
    ensures
        r == step_of(statements@.len(), window, s, ok),
{
    let n: usize = statements.len();
    let next: usize = match s {
        ScriptState::Start => {
            if window {
                return (ScriptState::Opening, ScriptAction::Begin);
            }
            0
        },
        ScriptState::Opening => {
            if !ok {
                return (ScriptState::Done, ScriptAction::Finished);
            }
            0
        },
        ScriptState::Running(i) => {
            if !ok {
                return if window {
                    (ScriptState::RollingBack, ScriptAction::Rollback)
                } else {
                    (ScriptState::Done, ScriptAction::Finished)
                };
            }
            if i < n {
                i + 1
            } else {
                n
            }
        },
        ScriptState::Committing => {
            return if ok {
                (ScriptState::Done, ScriptAction::Finished)
            } else {
                (ScriptState::RollingBack, ScriptAction::Rollback)
            };
        },
        ScriptState::RollingBack | ScriptState::Done => {
            return (ScriptState::Done, ScriptAction::Finished);
        },
    };
    if next < n {
        (ScriptState::Running(next), ScriptAction::Run(next))
    } else if window {
        (ScriptState::Committing, ScriptAction::Commit)
    } else {
        (ScriptState::Done, ScriptAction::Finished)
    }
}

// ---------------------------------------------------------------------------
// Laws
// ---------------------------------------------------------------------------

/// How far a run has come before its action `k`, where `succeeded` says of each
/// action whether it succeeds.
pub open spec fn state_before(
    n: nat,
    window: bool,
    succeeded: spec_fn(int) -> bool,
    k: int,
) -> ScriptState
    decreases k,
{
    if k <= 0 {
        ScriptState::Start
    } else {
        step_of(n, window, state_before(n, window, succeeded, k - 1), succeeded(k - 2)).0
    }
}

/// The action `k` of a run.
pub open spec fn asked(
    n: nat,
    window: bool,
    succeeded: spec_fn(int) -> bool,
    k: int,
) -> ScriptAction {
    step_of(n, window, state_before(n, window, succeeded, k), succeeded(k - 1)).1
}

/// Whether a run has not met a failure and is not over.
spec fn under_way(s: ScriptState) -> bool {
    s is Opening || s is Running || s is Committing
}

/// The state before the action `k` of a run in which nothing has failed.
spec fn expected_state(n: nat, window: bool, k: int) -> ScriptState {
    if k <= 0 {
        ScriptState::Start
    } else if !window {
        ScriptState::Running((k - 1) as usize)
    } else if k == 1 {
        ScriptState::Opening
    } else if k <= n + 1 {
        ScriptState::Running((k - 2) as usize)
    } else {
        ScriptState::Committing
    }
}

/// How many actions there are at most in a run in which nothing fails.
spec fn longest(n: nat, window: bool) -> int {
    if window {
        n as int + 2
    } else {
        n as int
    }
}

proof fn lemma_under_way(n: nat, window: bool, succeeded: spec_fn(int) -> bool, k: int)
    requires
        n <= usize::MAX,
        k >= 1,
        under_way(state_before(n, window, succeeded, k)),
    ensures
        k <= longest(n, window),
        state_before(n, window, succeeded, k) == expected_state(n, window, k),
        forall|m: int| 0 <= m < k - 1 ==> #[trigger] succeeded(m),
        forall|m: int|
            0 <= m < k ==> #[trigger] state_before(n, window, succeeded, m) == expected_state(
                n,
                window,
                m,
            ),
    decreases k,
{
    if k > 1 {
        let before = state_before(n, window, succeeded, k - 1);
        lemma_never_at_start(n, window, succeeded, k - 1);
        assert(under_way(before));
        lemma_under_way(n, window, succeeded, k - 1);
        assert(succeeded(k - 2));
    }
}

proof fn lemma_never_at_start(n: nat, window: bool, succeeded: spec_fn(int) -> bool, k: int)
    requires
        k >= 1,
    ensures
        !(state_before(n, window, succeeded, k) is Start),
{
}

proof fn lemma_over(n: nat, window: bool, succeeded: spec_fn(int) -> bool, i: int, j: int)
    requires
        1 <= i <= j,
        !under_way(state_before(n, window, succeeded, i)),
    ensures
        !under_way(state_before(n, window, succeeded, j)),
        asked(n, window, succeeded, j) == ScriptAction::Finished,
    decreases j - i,
{
    lemma_never_at_start(n, window, succeeded, j);
    if i < j {
        lemma_over(n, window, succeeded, i, j - 1);
        lemma_never_at_start(n, window, succeeded, j - 1);
    }
}

/// After a failure nothing is run and nothing is committed: the transaction is
/// rolled back, or the run is over.
pub proof fn law_after_failure(
    n: nat,
    window: bool,
    succeeded: spec_fn(int) -> bool,
    i: int,
    j: int,
)
    requires
        0 <= i < j,
        !succeeded(i),
    ensures
        asked(n, window, succeeded, j) == ScriptAction::Rollback || asked(
            n,
            window,
            succeeded,
            j,
        ) == ScriptAction::Finished,
{
    lemma_never_at_start(n, window, succeeded, i + 1);
    if j > i + 1 {
        assert(!under_way(state_before(n, window, succeeded, i + 2)));
        lemma_over(n, window, succeeded, i + 2, j);
    }
}

/// A commit is asked for only after the transaction was begun and every statement
/// was run, once and in order, without a failure.
pub proof fn law_commit(n: nat, succeeded: spec_fn(int) -> bool, k: int)
    requires
        n <= usize::MAX,
        k >= 0,
        asked(n, true, succeeded, k) == ScriptAction::Commit,
    ensures
        k == n + 1,
        asked(n, true, succeeded, 0) == ScriptAction::Begin,
        forall|i: int|
            0 <= i < n ==> #[trigger] asked(n, true, succeeded, i + 1) == ScriptAction::Run(
                i as usize,
            ),
        forall|m: int| 0 <= m < k ==> #[trigger] succeeded(m),
{
    let last = state_before(n, true, succeeded, k + 1);
    assert(last is Committing);
    lemma_under_way(n, true, succeeded, k + 1);
    assert forall|i: int| 0 <= i < n implies #[trigger] asked(n, true, succeeded, i + 1)
        == ScriptAction::Run(i as usize) by {
        assert(state_before(n, true, succeeded, i + 1) == expected_state(n, true, i + 1));
        assert(succeeded(i));
    }
}

/// Where nothing fails, the transaction is begun, every statement is run in
/// order, and the transaction is committed.
pub proof fn law_no_failure(n: nat, succeeded: spec_fn(int) -> bool)
    requires
        n <= usize::MAX,
        forall|m: int| 0 <= m ==> #[trigger] succeeded(m),
    ensures
        asked(n, true, succeeded, 0) == ScriptAction::Begin,
        forall|i: int|
            0 <= i < n ==> #[trigger] asked(n, true, succeeded, i + 1) == ScriptAction::Run(
                i as usize,
            ),
        asked(n, true, succeeded, n as int + 1) == ScriptAction::Commit,
        asked(n, true, succeeded, n as int + 2) == ScriptAction::Finished,
{
    assert forall|i: int| 0 <= i < n implies #[trigger] asked(n, true, succeeded, i + 1)
        == ScriptAction::Run(i as usize) by {
        lemma_expected(n, succeeded, i + 1);
        assert(succeeded(i));
    }
    lemma_expected(n, succeeded, n as int + 1);
    lemma_expected(n, succeeded, n as int + 2);
    assert(succeeded(n as int));
    assert(succeeded(n as int + 1));
}

proof fn lemma_expected(n: nat, succeeded: spec_fn(int) -> bool, k: int)
    requires
        n <= usize::MAX,
        0 <= k <= n + 2,
        forall|m: int| 0 <= m ==> #[trigger] succeeded(m),
    ensures
        state_before(n, true, succeeded, k) == expected_state(n, true, k),
    decreases k,
{
    if k > 0 {
        lemma_expected(n, succeeded, k - 1);
        if k > 1 {
            assert(succeeded(k - 2));
        }
    }
}

/// A statement that fails in a transaction is answered with a rollback, and that
/// is the end.
pub proof fn law_rollback(n: nat, succeeded: spec_fn(int) -> bool, k: int)
    requires
        k >= 0,
        asked(n, true, succeeded, k) is Run,
        !succeeded(k),
    ensures
        asked(n, true, succeeded, k + 1) == ScriptAction::Rollback,
        asked(n, true, succeeded, k + 2) == ScriptAction::Finished,
{
    assert(state_before(n, true, succeeded, k + 1) is Running);
    assert(state_before(n, true, succeeded, k + 2) is RollingBack);
}

/// Every run comes to its end: begin, commit and rollback stand beside at most
/// one action for each statement.
pub proof fn law_ends(n: nat, window: bool, succeeded: spec_fn(int) -> bool, k: int)
    requires
        n <= usize::MAX,
        k >= n + 3,
    ensures
        asked(n, window, succeeded, k) == ScriptAction::Finished,
{
    if under_way(state_before(n, window, succeeded, k)) {
        lemma_under_way(n, window, succeeded, k);
    }
    lemma_over(n, window, succeeded, k, k);
}

/// Without a transaction nothing is begun, committed or rolled back: the statements are run in
/// order as long as none fails.
pub proof fn law_no_window(n: nat, succeeded: spec_fn(int) -> bool, k: int)
    requires
        n <= usize::MAX,
        0 <= k,
    ensures
        k < n && (forall|m: int| 0 <= m < k ==> #[trigger] succeeded(m)) ==> asked(
            n,
            false,
            succeeded,
            k,
        ) == ScriptAction::Run(k as usize),
        asked(n, false, succeeded, k) is Run || asked(n, false, succeeded, k) is Finished,
{
    lemma_no_window(n, succeeded, k);
    if k > 0 {
        assert(k < n && (forall|m: int| 0 <= m < k ==> #[trigger] succeeded(m)) ==> succeeded(
            k - 1,
        ));
    }
}

proof fn lemma_no_window(n: nat, succeeded: spec_fn(int) -> bool, k: int)
    requires
        n <= usize::MAX,
        0 <= k,
    ensures
        k == 0 ==> state_before(n, false, succeeded, k) is Start,
        k > 0 ==> state_before(n, false, succeeded, k) is Running || state_before(
            n,
            false,
            succeeded,
            k,
        ) is Done,
        0 < k <= n && (forall|m: int| 0 <= m < k - 1 ==> #[trigger] succeeded(m)) ==> state_before(
            n,
            false,
            succeeded,
            k,
        ) == ScriptState::Running((k - 1) as usize),
    decreases k,
{
    if k > 0 {
        lemma_no_window(n, succeeded, k - 1);
        if k > 1 {
            assert((forall|m: int| 0 <= m < k - 1 ==> #[trigger] succeeded(m)) ==> succeeded(
                k - 2,
            ));
        }
    }
}

/// A transaction that cannot be begun is not rolled back; one that cannot be committed is.
pub proof fn law_failed_ends(n: nat, succeeded: spec_fn(int) -> bool, k: int)
    requires
        k >= 0,
        !succeeded(k),
    ensures
        asked(n, true, succeeded, k) == ScriptAction::Begin ==> asked(n, true, succeeded, k + 1)
            == ScriptAction::Finished,
        asked(n, true, succeeded, k) == ScriptAction::Commit ==> asked(n, true, succeeded, k + 1)
            == ScriptAction::Rollback,
{
}

} // verus!
