//! Scripts in a transaction window.
use dbgate::script::{script_step, ScriptAction, ScriptState};

/// The actions of a run in which the action `failing` fails.
fn actions(n: usize, window: bool, failing: Option<usize>) -> Vec<ScriptAction> {
    let statements = vec![String::new(); n];
    let mut out = Vec::new();
    let mut state = ScriptState::Start;
    let mut ok = true;
    loop {
        let (next, action) = script_step(&statements, window, state, ok);
        state = next;
        if action == ScriptAction::Finished {
            return out;
        }
        ok = failing != Some(out.len());
        out.push(action);
        assert!(out.len() < n + 4);
    }
}

#[test]
fn statements_run_between_begin_and_commit() {
    assert_eq!(
        actions(2, true, None),
        vec![
            ScriptAction::Begin,
            ScriptAction::Run(0),
            ScriptAction::Run(1),
            ScriptAction::Commit
        ]
    );
    assert_eq!(actions(0, true, None), vec![ScriptAction::Begin, ScriptAction::Commit]);
}

#[test]
fn a_failing_statement_is_rolled_back() {
    assert_eq!(
        actions(3, true, Some(2)),
        vec![
            ScriptAction::Begin,
            ScriptAction::Run(0),
            ScriptAction::Run(1),
            ScriptAction::Rollback
        ]
    );
}

#[test]
fn a_failing_commit_is_rolled_back() {
    assert_eq!(
        actions(1, true, Some(2)),
        vec![
            ScriptAction::Begin,
            ScriptAction::Run(0),
            ScriptAction::Commit,
            ScriptAction::Rollback
        ]
    );
}

#[test]
fn nothing_runs_where_no_transaction_begins() {
    assert_eq!(actions(2, true, Some(0)), vec![ScriptAction::Begin]);
}

#[test]
fn without_a_window_statements_run_until_one_fails() {
    assert_eq!(actions(2, false, None), vec![ScriptAction::Run(0), ScriptAction::Run(1)]);
    assert_eq!(actions(2, false, Some(0)), vec![ScriptAction::Run(0)]);
    assert_eq!(actions(0, false, None), Vec::new());
}
