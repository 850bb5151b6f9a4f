use dig::common::contextualize_command;
use dig::common::default_false;
use dig::effect::Answer;
use dig::effect::Command;
use dig::effect::Pause;
use dig::effect::Request;
use dig::error::DigError;
use dig::gate::test_run_gates;
use dig::gate::RunGate;
use dig::gate::RunGateNonZeroExit;
use dig::gate::RunGateTestConfig;
use dig::run_context::EnvMap;
use dig::run_context::ForcingBehaviour;
use dig::run_context::ForcingContext;
use dig::run_context::RunContext;
use dig::text::decimal;
use dig::text::join_text;
use dig::text::split_text;
use dig::text::trimmed;
use dig::value::JsonValue;
use dig::vars::VariableSet;

fn text(t: &str) -> JsonValue {
    JsonValue::Str(t.to_string())
}

fn context(forcing: ForcingContext) -> RunContext {
    let mut c = RunContext::default();
    c.forcing = forcing;
    c
}

#[test]
fn default_context_is_unforced_and_bare() {
    let c = RunContext::default();
    assert_eq!(c.forcing, ForcingContext::NotForced);
    assert_eq!(c.env, None);
    assert_eq!(c.dir, None);
    assert!(!c.silent);
    assert!(!c.is_forced());
    assert!(!default_false());
}

#[test]
fn forcing_transition_table() {
    let (always, inherit, never) =
        (ForcingBehaviour::Always, ForcingBehaviour::Inherit, ForcingBehaviour::Never);
    let everything = ForcingContext::EverythingForced;
    let explicitly = ForcingContext::ExplicitlyForced;
    let as_main = ForcingContext::ForcedAsMainTask;
    let not = ForcingContext::NotForced;
    let parent_is = ForcingContext::ParentIsForced;
    let table = [
        (everything, always, everything),
        (everything, inherit, everything),
        (everything, never, everything),
        (as_main, always, explicitly),
        (as_main, inherit, explicitly),
        (as_main, never, explicitly),
        (explicitly, always, explicitly),
        (explicitly, inherit, explicitly),
        (explicitly, never, not),
        (parent_is, always, explicitly),
        (parent_is, inherit, parent_is),
        (parent_is, never, not),
        (not, always, explicitly),
        (not, inherit, not),
        (not, never, not),
    ];
    for (parent, behaviour, child) in table {
        assert_eq!(context(parent).child_context(behaviour).forcing, child);
    }
}

#[test]
fn is_forced_for_the_three_forced_kinds() {
    assert!(context(ForcingContext::EverythingForced).is_forced());
    assert!(context(ForcingContext::ForcedAsMainTask).is_forced());
    assert!(context(ForcingContext::ExplicitlyForced).is_forced());
    assert!(!context(ForcingContext::ParentIsForced).is_forced());
    assert!(!context(ForcingContext::NotForced).is_forced());
}

#[test]
fn forced_stays_forced_down_an_inheriting_line() {
    for start in [
        ForcingContext::EverythingForced,
        ForcingContext::ForcedAsMainTask,
        ForcingContext::ExplicitlyForced,
    ] {
        let mut c = context(start);
        for behaviour in [
            ForcingBehaviour::Inherit,
            ForcingBehaviour::Always,
            ForcingBehaviour::Inherit,
            ForcingBehaviour::Inherit,
        ] {
            c = c.child_context(behaviour);
            assert!(c.is_forced());
        }
    }
}

#[test]
fn child_context_inherits_overlays() {
    let mut parent = RunContext::default();
    let mut env = EnvMap::new();
    env.insert("A".into(), "1".into());
    parent.env = Some(env);
    parent.dir = Some("/".into());
    parent.silent = true;
    let child = parent.child_context(ForcingBehaviour::Always);
    assert_eq!(child.env, parent.env);
    assert_eq!(child.dir, parent.dir);
    assert!(child.silent);
}

#[test]
fn update_merges_env_checks_dir_and_ors_silent() {
    let mut vars = VariableSet::new();
    vars.insert("v".into(), text("val"));
    vars.insert("d".into(), text("/"));
    let mut c = RunContext::default();
    let mut base = EnvMap::new();
    base.insert("KEEP".into(), "old".into());
    base.insert("CHANGE".into(), "old".into());
    c.env = Some(base);
    c.silent = true;

    let mut add = EnvMap::new();
    add.insert("CHANGE".into(), "{{v}}".into());
    add.insert("NEW_{{v}}".into(), "x".into());
    let dir = "{{d}}".to_string();

    let answers: Vec<Answer> = Vec::new();
    let mut cursor = 0;
    let before = c.clone();
    let paused = c.update(Some(&add), Some(&dir), false, &vars, &answers, &mut cursor);
    assert_eq!(paused, Err(Pause::Ask(Request::DirExists("/".to_string()))));
    assert_eq!(c, before);

    let answers = vec![Answer::Flag(true)];
    let mut cursor = 0;
    assert_eq!(
        c.update(Some(&add), Some(&dir), false, &vars, &answers, &mut cursor),
        Ok(())
    );
    assert_eq!(cursor, 1);
    assert_eq!(
        c.env.as_ref().unwrap().entries,
        vec![
            ("KEEP".to_string(), "old".to_string()),
            ("CHANGE".to_string(), "val".to_string()),
            ("NEW_val".to_string(), "x".to_string()),
        ]
    );
    assert_eq!(c.dir, Some("/".to_string()));
    assert!(c.silent);

    let answers = vec![Answer::Flag(false)];
    let mut cursor = 0;
    let mut d = RunContext::default();
    assert_eq!(
        d.update(None, Some(&dir), true, &vars, &answers, &mut cursor),
        Err(Pause::Fail(DigError::InvalidDirectory("/".to_string())))
    );
    assert_eq!(d, RunContext::default());

    let mut cursor = 0;
    assert_eq!(d.update(None, None, true, &vars, &answers, &mut cursor), Ok(()));
    assert!(d.silent);
    assert_eq!(cursor, 0);
}

#[test]
fn env_value_must_be_a_string() {
    let mut vars = VariableSet::new();
    vars.insert("n".into(), JsonValue::Number("1".into()));
    let mut add = EnvMap::new();
    add.insert("A".into(), "{{n}}".into());
    let mut c = RunContext::default();
    assert_eq!(
        c.update_env(Some(&add), &vars),
        Err(DigError::NotAString("env-value".into(), "1".into()))
    );
}

#[test]
fn new_context_takes_forcing_dir_and_env() {
    let vars = VariableSet::new();
    let mut env = EnvMap::new();
    env.insert("A".into(), "b".into());
    let dir = "/".to_string();
    let answers = vec![Answer::Flag(true)];
    let mut cursor = 0;
    let c = RunContext::new(
        &ForcingContext::ForcedAsMainTask,
        Some(&env),
        Some(&dir),
        &vars,
        &answers,
        &mut cursor,
    )
    .unwrap();
    assert_eq!(c.forcing, ForcingContext::ForcedAsMainTask);
    assert_eq!(c.env, Some(env));
    assert_eq!(c.dir, Some(dir));
    assert!(!c.silent);
}

#[test]
fn contextualize_puts_overlays_on_the_command() {
    let mut command = Command {
        program: "p".into(),
        args: vec!["a".into()],
        env: None,
        dir: Some("/old".into()),
        shown: "p a".into(),
        silent: false,
    };
    let bare = RunContext::default();
    contextualize_command(&mut command, &bare);
    assert_eq!(command.dir, Some("/old".to_string()));
    assert_eq!(command.env, None);

    let mut c = RunContext::default();
    let mut env = EnvMap::new();
    env.insert("A".into(), "1".into());
    c.env = Some(env.clone());
    c.dir = Some("/new".into());
    contextualize_command(&mut command, &c);
    assert_eq!(command.env, Some(env));
    assert_eq!(command.dir, Some("/new".to_string()));
    assert_eq!(command.program, "p");
    assert_eq!(command.args, vec!["a".to_string()]);
}

fn internal(entry: &str, vars: &VariableSet) -> Result<Option<RunGateNonZeroExit>, DigError> {
    RunGate::evaluate_internal(entry, vars)
}

#[test]
fn internal_gate_compares_both_sides() {
    let mut vars = VariableSet::new();
    vars.insert("x".into(), text("yes"));
    vars.insert("n".into(), JsonValue::Number("3".into()));
    vars.insert("t".into(), JsonValue::Bool(true));
    vars.insert("f".into(), JsonValue::Bool(false));
    assert_eq!(internal("{{x}} = yes", &vars), Ok(None));
    assert_eq!(internal("  {{x}}=yes  ", &vars), Ok(None));
    assert_eq!(
        internal("{{x}} = no", &vars),
        Ok(Some(RunGateNonZeroExit { code: 1, statement: "yes = no".into() }))
    );
    assert_eq!(
        internal("{{n}} = 3", &vars),
        Ok(Some(RunGateNonZeroExit { code: 1, statement: "3 = 3".into() }))
    );
    assert_eq!(internal("{{n}} = {{n}}", &vars), Ok(None));
    assert_eq!(internal("{{t}}", &vars), Ok(None));
    assert_eq!(
        internal("{{f}}", &vars),
        Ok(Some(RunGateNonZeroExit { code: 1, statement: "true = false".into() }))
    );
    assert_eq!(
        internal("true", &vars),
        Ok(Some(RunGateNonZeroExit { code: 1, statement: "true = true".into() }))
    );
}

#[test]
fn internal_gate_with_two_equals_is_a_syntax_error() {
    let vars = VariableSet::new();
    let err = internal("a = b = c", &vars).unwrap_err();
    assert_eq!(err, DigError::GateSyntax);
    assert_eq!(
        err.message(),
        "An If-Statement should only be splittable along one '=' character"
    );
}

#[test]
fn internal_gate_expands_the_right_side_first() {
    let vars = VariableSet::new();
    assert_eq!(
        internal("{{left}} = {{right}}", &vars),
        Err(DigError::UnknownKey("right".into()))
    );
}

#[test]
fn gates_stop_at_the_first_failure() {
    let mut vars = VariableSet::new();
    vars.insert("x".into(), text("1"));
    let gates = vec![
        RunGate::Internal("a = a".into()),
        RunGate::Test(RunGateTestConfig { test: "-n {{x}}".into(), allow: None, deny: None }),
        RunGate::Test(RunGateTestConfig { test: "-z {{x}}".into(), allow: None, deny: None }),
        RunGate::Internal("{{unbound}} = a".into()),
    ];
    let c = RunContext::default();

    let answers: Vec<Answer> = vec![];
    let mut cursor = 0;
    match test_run_gates(Some(&gates), &vars, &c, &answers, &mut cursor) {
        Err(Pause::Ask(Request::Run(command))) => {
            assert_eq!(command.program, "bash");
            assert_eq!(command.args, vec!["-c".to_string(), "test -n 1".to_string()]);
            assert!(command.silent);
        }
        other => panic!("expected a request, got {:?}", other),
    }

    let answers = vec![
        Answer::Exit(Some(0), String::new(), String::new()),
        Answer::Exit(Some(2), String::new(), String::new()),
    ];
    let mut cursor = 0;
    assert_eq!(
        test_run_gates(Some(&gates), &vars, &c, &answers, &mut cursor),
        Ok(Some((2, RunGateNonZeroExit { code: 2, statement: "-z 1".into() })))
    );
    assert_eq!(cursor, 2);

    let answers = vec![
        Answer::Exit(Some(0), String::new(), String::new()),
        Answer::Exit(Some(0), String::new(), String::new()),
    ];
    let mut cursor = 0;
    assert_eq!(
        test_run_gates(Some(&gates), &vars, &c, &answers, &mut cursor),
        Err(Pause::Fail(DigError::UnknownKey("unbound".into())))
    );

    let mut cursor = 0;
    assert_eq!(test_run_gates(None, &vars, &c, &answers, &mut cursor), Ok(None));
    assert_eq!(cursor, 0);

    let answers = vec![Answer::Exit(None, String::new(), String::new())];
    let mut cursor = 0;
    let err = test_run_gates(Some(&gates), &vars, &c, &answers, &mut cursor);
    assert_eq!(err, Err(Pause::Fail(DigError::TestCanceled)));
    assert_eq!(DigError::TestCanceled.message(), "The test has been canceled");
}

#[test]
fn trimming_splitting_joining() {
    assert_eq!(trimmed("  a b \t\n"), "a b");
    assert_eq!(trimmed(" \u{a0}\u{3000} "), "");
    assert_eq!(trimmed(""), "");
    assert_eq!(trimmed("x"), "x");
    assert_eq!(split_text("a b  c", ' '), vec!["a", "b", "", "c"]);
    assert_eq!(split_text("", ' '), vec![""]);
    assert_eq!(split_text(" ", ' '), vec!["", ""]);
    let parts = vec!["a".to_string(), "".to_string(), "c".to_string()];
    assert_eq!(join_text(&parts, ", "), "a, , c");
    assert_eq!(join_text(&Vec::new(), ", "), "");
    assert_eq!(decimal(0), "0");
    assert_eq!(decimal(9), "9");
    assert_eq!(decimal(10), "10");
    assert_eq!(decimal(1234567890), "1234567890");
}
