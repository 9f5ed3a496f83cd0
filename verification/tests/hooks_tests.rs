use worktrunk::hooks::{
    check_hook_configured, plan_hook_run, plan_hook_run_by_name, resolve_target_branch,
    ExecutionPolicy, HookContext, HookError, HookRun, ProjectHooks, Stage,
};

fn context(default_branch: Option<&str>, force: bool) -> HookContext {
    HookContext {
        worktree_path: "/work/trees/topic".to_string(),
        branch: "topic".to_string(),
        default_branch: default_branch.map(str::to_string),
        force,
    }
}

fn no_hooks() -> ProjectHooks {
    ProjectHooks {
        post_create_command: None,
        post_start_command: None,
        pre_merge_command: None,
        post_merge_command: None,
    }
}

fn stage_names() -> Vec<(&'static str, Stage)> {
    vec![
        ("post-create", Stage::PostCreate),
        ("post-start", Stage::PostStart),
        ("pre-merge", Stage::PreMerge),
        ("post-merge", Stage::PostMerge),
    ]
}

#[test]
fn unconfigured_stage_fails_without_running_anything() {
    for (name, stage) in stage_names() {
        let r = plan_hook_run(no_hooks(), stage, context(None, false));
        match r {
            Err(HookError::NotConfigured(s)) => {
                assert_eq!(s, stage);
                let expected = format!("No {} commands configured", name);
                assert_eq!(HookError::NotConfigured(s).message(), expected);
            }
            _ => panic!("expected a configuration-absence error for {}", name),
        }
    }
}

#[test]
fn stage_names_round_trip() {
    for (name, stage) in stage_names() {
        assert_eq!(stage.name(), name);
        match Stage::from_name(name) {
            Some(parsed) => assert_eq!(parsed, stage),
            None => panic!("known stage name not recognized"),
        }
    }
    assert!(Stage::from_name("pre-create").is_none());
    assert!(Stage::from_name("").is_none());
    assert!(Stage::from_name("post-merge ").is_none());
}

#[test]
fn unknown_hook_type_is_an_error() {
    let r = plan_hook_run_by_name(no_hooks(), "bogus", context(None, false));
    match r {
        Err(e @ HookError::UnknownHookType(_)) => {
            assert_eq!(e.message(), "Unknown hook type: bogus");
        }
        _ => panic!("expected an unknown-hook-type error"),
    }
}

#[test]
fn check_hook_configured_accepts_some_and_rejects_none() {
    let present: Option<Vec<String>> = Some(vec!["echo hi".to_string()]);
    let absent: Option<Vec<String>> = None;
    assert!(check_hook_configured(&present, Stage::PostStart).is_ok());
    match check_hook_configured(&absent, Stage::PostStart) {
        Err(HookError::NotConfigured(s)) => assert_eq!(s, Stage::PostStart),
        _ => panic!("expected a configuration-absence error"),
    }
}

#[test]
fn target_branch_degrades_to_main() {
    assert_eq!(resolve_target_branch(None), "main");
    assert_eq!(resolve_target_branch(Some("trunk".to_string())), "trunk");
}

#[test]
fn merge_stages_get_a_target_branch() {
    let hooks = ProjectHooks {
        post_create_command: None,
        post_start_command: None,
        pre_merge_command: Some(vec!["make check".to_string()]),
        post_merge_command: None,
    };
    let plan = plan_hook_run(hooks, Stage::PreMerge, context(None, false)).unwrap();
    assert_eq!(plan.target_branch.as_deref(), Some("main"));
    assert_eq!(plan.commands, vec!["make check".to_string()]);
    assert_eq!(plan.policy, ExecutionPolicy::Sequential);
    assert_eq!(plan.worktree_path, "/work/trees/topic");
    assert_eq!(plan.branch, "topic");
    assert!(!plan.force);

    let hooks = ProjectHooks {
        post_create_command: None,
        post_start_command: None,
        pre_merge_command: None,
        post_merge_command: Some(vec!["notify".to_string()]),
    };
    let plan = plan_hook_run(hooks, Stage::PostMerge, context(Some("develop"), true)).unwrap();
    assert_eq!(plan.target_branch.as_deref(), Some("develop"));
    assert!(plan.force);
}

#[test]
fn non_merge_stages_get_no_target_branch() {
    let hooks = ProjectHooks {
        post_create_command: Some(vec!["a".to_string(), "b".to_string()]),
        post_start_command: Some(vec!["c".to_string()]),
        pre_merge_command: None,
        post_merge_command: None,
    };
    let plan = plan_hook_run(hooks, Stage::PostCreate, context(Some("main"), false)).unwrap();
    assert!(plan.target_branch.is_none());
    assert_eq!(plan.commands, vec!["a".to_string(), "b".to_string()]);
    assert_eq!(plan.policy, ExecutionPolicy::IndependentParallel);
}

#[test]
fn by_name_planning_matches_direct_planning() {
    let hooks = ProjectHooks {
        post_create_command: None,
        post_start_command: Some(vec!["setup".to_string()]),
        pre_merge_command: None,
        post_merge_command: None,
    };
    let plan = plan_hook_run_by_name(hooks, "post-start", context(None, false)).unwrap();
    assert_eq!(plan.stage, Stage::PostStart);
    assert_eq!(plan.commands, vec!["setup".to_string()]);
    assert_eq!(plan.policy, ExecutionPolicy::Sequential);
}

/// Drive a run over commands whose outcomes are given, returning how
/// many ran and whether the stage succeeded.
fn drive(outcomes: &[bool], force: bool) -> (usize, bool) {
    let mut run = HookRun::new(outcomes.len(), force);
    while let Some(i) = run.next_command() {
        run.record(outcomes[i]);
    }
    (run.commands_run(), run.stage_succeeded())
}

#[test]
fn fail_fast_stops_at_first_failure() {
    // Command 2 of 4 (1-based) fails: exactly 2 run, the stage fails.
    let (ran, ok) = drive(&[true, false, true, true], false);
    assert_eq!(ran, 2);
    assert!(!ok);

    // First command fails: exactly 1 runs.
    let (ran, ok) = drive(&[false, true, true], false);
    assert_eq!(ran, 1);
    assert!(!ok);

    // Last command fails: all run, the stage still fails.
    let (ran, ok) = drive(&[true, true, false], false);
    assert_eq!(ran, 3);
    assert!(!ok);
}

#[test]
fn force_runs_every_command() {
    let (ran, ok) = drive(&[true, false, false, true], true);
    assert_eq!(ran, 4);
    assert!(ok);
}

#[test]
fn all_successes_run_to_completion() {
    let (ran, ok) = drive(&[true, true, true], false);
    assert_eq!(ran, 3);
    assert!(ok);
}

#[test]
fn empty_command_set_is_a_no_op_success() {
    let (ran, ok) = drive(&[], false);
    assert_eq!(ran, 0);
    assert!(ok);
}
