use dig::effect::Answer;
use dig::effect::Command;
use dig::effect::Pause;
use dig::effect::Request;
use dig::error::DigError;
use dig::gate::RunGate;
use dig::raw::RawVariable;
use dig::raw::RawVariableMap;
use dig::run_context::EnvMap;
use dig::run_context::RunContext;
use dig::step::bash_step::BashStep;
use dig::step::basic_step::default_command_entry;
use dig::step::basic_step::BasicStep;
use dig::step::basic_step::RawCommandEntry;
use dig::step::common::CommandConfig;
use dig::step::common::SingularStepConfig;
use dig::step::common::StepMethods;
use dig::step::common::StepConfig;
use dig::step::common::StepEvaluationResult;
use dig::step::parallel_step::ParallelStepConfig;
use dig::step::python_step::PythonStep;
use dig::step::python_step::PythonStepType;
use dig::step::python_step::PythonStepTypeCondaConfig;
use dig::step::python_step::PythonStepTypeConfig;
use dig::step::python_step::PythonStepTypeVenvConfig;
use dig::step::task_step::TaskStepConfig;
use dig::value::JsonValue;
use dig::vars::VariableMap;
use dig::vars::VariableSet;

fn num(text: &str) -> JsonValue {
    JsonValue::Number(text.to_string())
}

fn text(t: &str) -> JsonValue {
    JsonValue::Str(t.to_string())
}

fn strings(items: &[&str]) -> Vec<String> {
    items.iter().map(|s| s.to_string()).collect()
}

/// Calls `f` again and again, each time with one more answer, to its end.
fn drive<T>(
    mut f: impl FnMut(&Vec<Answer>, &mut usize) -> Result<T, Pause>,
    mut respond: impl FnMut(&Request) -> Answer,
) -> Result<T, DigError> {
    let mut answers: Vec<Answer> = Vec::new();
    loop {
        let mut cursor = 0;
        match f(&answers, &mut cursor) {
            Ok(v) => return Ok(v),
            Err(Pause::Fail(e)) => return Err(e),
            Err(Pause::Ask(request)) => answers.push(respond(&request)),
        }
    }
}

fn exit_ok(stdout: &str) -> Answer {
    Answer::Exit(Some(0), stdout.to_string(), String::new())
}

/// Stands in for the machine: `/` is the one directory, and a few commands
/// are known by their text.
fn machine(request: &Request) -> Answer {
    match request {
        Request::DirExists(path) => Answer::Flag(path == "/"),
        Request::Run(command) => {
            let line = command.args.last().cloned().unwrap_or_default();
            if command.program == "whoami" || line == "whoami" {
                exit_ok("tester\n")
            } else if line == "pwd" {
                exit_ok(&format!("{}\n", command.dir.clone().unwrap_or("/home".to_string())))
            } else if line.ends_with("date +%s") {
                exit_ok("1700000000\n")
            } else if command.program == "whoamiwhoamiwhoami" {
                Answer::SpawnFailed("No such file or directory (os error 2)".to_string())
            } else if line.starts_with(">&2 echo") {
                Answer::Exit(Some(1), String::new(), "This is an expected error\n".to_string())
            } else if line.starts_with("sleep") {
                exit_ok("")
            } else {
                panic!("unknown command {:?}", command)
            }
        }
        other => panic!("unexpected request {:?}", other),
    }
}

fn basic(entry: &str, cmd: RawCommandEntry) -> BasicStep {
    BasicStep {
        cmd,
        entry: entry.into(),
        env: None,
        dir: None,
        run_if: None,
        store: None,
        silent: false,
    }
}

fn _make_vars() -> VariableSet {
    let mut output = VariableSet::new();
    output.insert(
        "key1".into(),
        JsonValue::Array(vec![text("hats"), text("bats"), text("rats")]),
    );
    output.insert("key2".into(), num("17"));
    output
}

fn _make_raw_vars() -> RawVariableMap {
    let mut output = RawVariableMap::new();
    output.insert("key2".into(), RawVariable::Json(text("{{key2}}")));
    output.insert("key3".into(), RawVariable::Json(text("cats")));
    output.insert("key4".into(), RawVariable::Json(num("22")));
    output
}

fn task_step(task: &str) -> TaskStepConfig {
    TaskStepConfig {
        task: task.to_string(),
        vars: None,
        env: None,
        dir: None,
        run_if: None,
        over: None,
        silent: false,
    }
}

fn frame(entries: Vec<(&str, JsonValue)>) -> VariableMap {
    let mut map = VariableMap::new();
    for (k, v) in entries {
        map.insert(k.to_string(), v);
    }
    map
}

#[test]
fn bash_step_test_usage() {
    let bash_command_config = BashStep {
        executable: "/bin/bash".into(),
        bash: "whoami".into(),
        env: None,
        dir: None,
        run_if: None,
        store: None,
        silent: false,
    };
    let vars = VariableSet::new();
    let context = RunContext::default();
    let output = drive(|a, c| bash_command_config.evaluate(&vars, &context, a, c), machine).unwrap();
    match output {
        StepEvaluationResult::Completed(_) => (),
        _ => panic!("Expected an completion with output"),
    };
}

#[test]
fn bash_step_runs_the_shell_with_c() {
    let step = BashStep::new("echo hi");
    assert_eq!(step.executable, "/bin/bash");
    let vars = VariableSet::new();
    let context = RunContext::default();
    let mut seen: Vec<Command> = Vec::new();
    let output = drive(
        |a, c| step.evaluate(&vars, &context, a, c),
        |request| match request {
            Request::Run(command) => {
                seen.push(Command {
                    program: command.program.clone(),
                    args: command.args.clone(),
                    env: command.env.clone(),
                    dir: command.dir.clone(),
                    shown: command.shown.clone(),
                    silent: command.silent,
                });
                exit_ok("hi\n")
            }
            other => panic!("unexpected request {:?}", other),
        },
    )
    .unwrap();
    assert_eq!(output, StepEvaluationResult::Completed("hi".to_string()));
    assert_eq!(seen.len(), 1);
    assert_eq!(seen[0].program, "/bin/bash");
    assert_eq!(seen[0].args, strings(&["-c", "echo hi"]));
    assert_eq!(seen[0].shown, "/bin/bash -c echo hi");
    assert_eq!(seen[0].env, None);
    assert_eq!(seen[0].dir, None);
    assert!(!seen[0].silent);
}

#[test]
fn basic_step_test_whoami() {
    let cmdconfig = basic("whoami", RawCommandEntry::Empty);
    let vars = VariableSet::new();
    let context = RunContext::default();
    let output = drive(|a, c| cmdconfig.evaluate(&vars, &context, a, c), machine).unwrap();
    match output {
        StepEvaluationResult::Completed(_) => (),
        _ => panic!("The step did not complete"),
    };
}

#[test]
fn basic_step_test_sadpath() {
    let cmdconfig = basic("whoamiwhoamiwhoami", RawCommandEntry::Empty);
    let vars = VariableSet::new();
    let context = RunContext::default();
    let output = drive(|a, c| cmdconfig.evaluate(&vars, &context, a, c), machine);
    match output {
        Ok(val) => panic!("We expected a failure, but got '{:?}'", val),
        Err(error) => assert_eq!(error.message(), "No such file or directory (os error 2)"),
    };
}

#[test]
fn basic_step_test_dir_usage() {
    let mut cmdconfig = basic("bash -c", RawCommandEntry::Single("pwd".into()));
    cmdconfig.dir = Some("/".into());
    let vars = VariableSet::new();
    let context = RunContext::default();
    let output_dir = drive(|a, c| cmdconfig.evaluate(&vars, &context, a, c), machine).unwrap();
    assert_eq!(output_dir, StepEvaluationResult::Completed("/".to_string()));
}

#[test]
fn basic_step_rejects_a_missing_dir() {
    let mut cmdconfig = basic("bash -c", RawCommandEntry::Single("pwd".into()));
    cmdconfig.dir = Some("/no/such/dir".into());
    let vars = VariableSet::new();
    let context = RunContext::default();
    let err = drive(|a, c| cmdconfig.evaluate(&vars, &context, a, c), machine).unwrap_err();
    assert_eq!(err, DigError::InvalidDirectory("/no/such/dir".to_string()));
    assert_eq!(err.message(), "Invalid directory '/no/such/dir'");
}

#[test]
fn basic_step_test_env_usage() {
    let mut envmap = EnvMap::new();
    envmap.insert("IM_AN_ENV".into(), "IM_A_VARIABLE".into());
    envmap.insert("IM_A_{{KEY_1}}".into(), "IM_A_{{KEY_2}}".into());

    let mut vars = VariableSet::new();
    vars.insert("KEY_1".into(), text("cats"));
    vars.insert("KEY_2".into(), text("dogs"));

    let mut cmdconfig = basic(
        "bash -c",
        RawCommandEntry::Single("echo \"${IM_AN_ENV}, but ${IM_A_{{KEY_1}}}\"".into()),
    );
    cmdconfig.env = Some(envmap);

    let context = RunContext::default();
    let message = drive(
        |a, c| cmdconfig.evaluate(&vars, &context, a, c),
        |request| match request {
            Request::Run(command) => {
                assert_eq!(command.program, "bash");
                assert_eq!(
                    command.args,
                    strings(&["-c", "echo \"${IM_AN_ENV}, but ${IM_A_cats}\""])
                );
                let env = command.env.as_ref().unwrap();
                assert_eq!(
                    env.entries,
                    vec![
                        ("IM_AN_ENV".to_string(), "IM_A_VARIABLE".to_string()),
                        ("IM_A_cats".to_string(), "IM_A_dogs".to_string()),
                    ]
                );
                exit_ok("IM_A_VARIABLE, but IM_A_dogs\n")
            }
            other => panic!("unexpected request {:?}", other),
        },
    )
    .unwrap();
    assert_eq!(
        message,
        StepEvaluationResult::Completed("IM_A_VARIABLE, but IM_A_dogs".into())
    );
}

#[test]
fn basic_step_test_if_usage() {
    let mut vars = VariableSet::new();
    vars.insert("KEY_1".into(), text("cats"));
    vars.insert("KEY_2".into(), text("dogs"));

    let if_statements = vec![
        RunGate::Internal("{{KEY_1}} = cats".into()),
        RunGate::Internal("{{KEY_2}} = monkeys".into()),
    ];

    let mut cmdconfig = basic("bash -c", RawCommandEntry::Single("badcommand".into()));
    cmdconfig.run_if = Some(if_statements);

    let context = RunContext::default();
    let outcome = drive(|a, c| cmdconfig.evaluate(&vars, &context, a, c), machine).unwrap();
    match outcome {
        StepEvaluationResult::SkippedDueToIfStatement((i, statement)) => {
            assert_eq!(i, 1);
            assert_eq!(statement, "dogs = monkeys".to_string());
        }
        _ => panic!("Did not skip as expected"),
    }
}

fn assert_is_number(output: StepEvaluationResult) {
    match output {
        StepEvaluationResult::Completed(output) => {
            match serde_json::from_str::<serde_json::Value>(&output) {
                Ok(val) => match val {
                    serde_json::Value::Number(_) => (),
                    other => panic!("We expected a number, but got '{:?}'", other),
                },
                Err(_) => panic!("Could not convert output to json"),
            }
        }
        _ => panic!("Did not get the correct result"),
    }
}

#[test]
fn basic_step_inline_many() {
    let cmdconfig = basic(
        "bash",
        RawCommandEntry::Many(vec!["-c".into(), "date +%s".into()]),
    );
    let vars = VariableSet::new();
    let context = RunContext::default();
    let output = drive(|a, c| cmdconfig.evaluate(&vars, &context, a, c), machine).unwrap();
    assert_is_number(output);
}

#[test]
fn basic_step_token_vars() {
    let mut vars = VariableSet::new();
    vars.insert("hats".into(), text("date"));
    vars.insert("entry".into(), text("bash"));

    let cmdconfig = basic(
        "{{entry}}",
        RawCommandEntry::Many(vec!["-c".into(), "{{hats}} +%s".into()]),
    );
    let context = RunContext::default();
    let output = drive(
        |a, c| cmdconfig.evaluate(&vars, &context, a, c),
        |request| match request {
            Request::Run(command) => {
                assert_eq!(command.program, "bash");
                assert_eq!(command.args, strings(&["-c", "date +%s"]));
                machine(request)
            }
            other => machine(other),
        },
    )
    .unwrap();
    assert_is_number(output);
}

#[test]
fn build_command_splits_the_entry_at_spaces() {
    let vars = VariableSet::new();
    let step = basic(
        "env  FOO=1 bash",
        RawCommandEntry::Many(vec!["-c".into(), " echo  x ".into()]),
    );
    let command = step.build_command(true, &vars).unwrap();
    assert_eq!(command.program, "env");
    assert_eq!(command.args, strings(&["", "FOO=1", "bash", "-c", " echo  x "]));
    assert_eq!(command.shown, "env  FOO=1 bash -c  echo  x ");
    assert_eq!(command.env, None);
    assert_eq!(command.dir, None);
    assert!(command.silent);
    assert_eq!(default_command_entry(), "bash -c");
}

#[test]
fn build_command_wants_strings() {
    let mut vars = VariableSet::new();
    vars.insert("n".into(), num("5"));
    let step = basic("bash -c", RawCommandEntry::Single("{{n}}".into()));
    let err = step.build_command(false, &vars).unwrap_err();
    assert_eq!(err, DigError::NotAString("command".to_string(), "5".to_string()));
}

#[test]
fn failing_process_gives_its_stderr() {
    let step = basic("bash -c", RawCommandEntry::Single("false".into()));
    let vars = VariableSet::new();
    let context = RunContext::default();
    let err = drive(
        |a, c| step.evaluate(&vars, &context, a, c),
        |_| Answer::Exit(Some(3), "ignored".to_string(), "  it broke\n".to_string()),
    )
    .unwrap_err();
    assert_eq!(err, DigError::Subprocess("it broke".to_string()));
    assert_eq!(err.message(), "it broke");
}

#[test]
fn answer_of_the_wrong_kind_is_an_error() {
    let step = basic("bash -c", RawCommandEntry::Single("true".into()));
    let vars = VariableSet::new();
    let context = RunContext::default();
    let err = drive(|a, c| step.evaluate(&vars, &context, a, c), |_| Answer::Flag(true)).unwrap_err();
    assert_eq!(err, DigError::UnexpectedAnswer);
}

#[test]
fn step_pauses_with_its_request_until_answered() {
    let step = basic("bash -c", RawCommandEntry::Single("true".into()));
    let vars = VariableSet::new();
    let context = RunContext::default();
    let answers: Vec<Answer> = Vec::new();
    let mut cursor = 0;
    match step.evaluate(&vars, &context, &answers, &mut cursor) {
        Err(Pause::Ask(Request::Run(command))) => {
            assert_eq!(command.program, "bash");
            assert_eq!(command.args, strings(&["-c", "true"]));
        }
        other => panic!("expected a request, got {:?}", other),
    }
    let answers = vec![exit_ok(" done ")];
    let mut cursor = 0;
    assert_eq!(
        step.evaluate(&vars, &context, &answers, &mut cursor),
        Ok(StepEvaluationResult::Completed("done".to_string()))
    );
    assert_eq!(cursor, 1);
}

#[test]
fn python_step_test_usage() {
    let mut vars = VariableSet::new();
    vars.insert("SOME_NUM".into(), num("17"));

    let command_config = PythonStep {
        executable: "python3".into(),
        py: "\nimport math\nprint(math.sqrt( {{SOME_NUM}} ))".into(),
        kind: PythonStepTypeConfig::Native(PythonStepType::Inline),
        ..PythonStep::default()
    };
    let context = RunContext::default();

    let output = drive(
        |a, c| command_config.evaluate(&vars, &context, a, c),
        |request| match request {
            Request::Run(command) => {
                assert_eq!(command.program, "python3");
                assert_eq!(
                    command.args,
                    strings(&["-c", "\nimport math\nprint(math.sqrt( 17 ))"])
                );
                exit_ok("4.123105625617661\n")
            }
            other => panic!("unexpected request {:?}", other),
        },
    )
    .unwrap();
    match output {
        StepEvaluationResult::Completed(output) => {
            match serde_json::from_str::<serde_json::Value>(&output) {
                Ok(val) => match val {
                    serde_json::Value::Number(val) => {
                        assert!((val.as_f64().unwrap() - 4.123105625617661).abs() < 1e-6)
                    }
                    other => panic!("We expected a number, but got '{:?}'", other),
                },
                Err(_) => panic!("Could not convert output to json"),
            }
        }
        _ => panic!("Did not get the correct result"),
    }
}

#[test]
fn python_step_spellings() {
    let mut step = PythonStep::new("script.py");
    assert_eq!(step.py, "script.py");
    assert_eq!(PythonStep::default().py, "print(\"Hello World\")");
    assert_eq!(PythonStepType::default(), PythonStepType::Script);
    assert_eq!(
        PythonStepTypeConfig::default(),
        PythonStepTypeConfig::Native(PythonStepType::Script)
    );

    let basic = step.to_basic();
    assert_eq!(basic.entry, "python3 -c");
    assert_eq!(basic.cmd, RawCommandEntry::Single("script.py".into()));

    step.kind = PythonStepTypeConfig::Native(PythonStepType::Script);
    let basic = step.to_basic();
    assert_eq!(basic.entry, "python3");
    assert_eq!(basic.cmd, RawCommandEntry::Single("script.py".into()));

    step.kind = PythonStepTypeConfig::Conda(PythonStepTypeCondaConfig {
        conda: "science".into(),
        kind: PythonStepType::Inline,
    });
    let basic = step.to_basic();
    assert_eq!(basic.entry, "conda");
    assert_eq!(
        basic.cmd,
        RawCommandEntry::Many(strings(&["run", "-n", "science", "python3", "-c", "script.py"]))
    );

    step.kind = PythonStepTypeConfig::Conda(PythonStepTypeCondaConfig {
        conda: "science".into(),
        kind: PythonStepType::Script,
    });
    assert_eq!(
        step.to_basic().cmd,
        RawCommandEntry::Many(strings(&["run", "-n", "science", "python3", "script.py"]))
    );

    step.kind = PythonStepTypeConfig::Venv(PythonStepTypeVenvConfig {
        venv: "/opt/env".into(),
        kind: PythonStepType::Inline,
    });
    let basic = step.to_basic();
    assert_eq!(basic.entry, "bash -c");
    assert_eq!(
        basic.cmd,
        RawCommandEntry::Single(
            "source /opt/env/bin/activate && python3 -c script.py".into()
        )
    );

    step.kind = PythonStepTypeConfig::Venv(PythonStepTypeVenvConfig {
        venv: "/opt/env".into(),
        kind: PythonStepType::Script,
    });
    assert_eq!(
        step.to_basic().cmd,
        RawCommandEntry::Single("source /opt/env/bin/activate && python3 script.py".into())
    );
}

#[test]
fn bash_step_to_basic() {
    let mut step = BashStep::new("ls");
    step.store = Some("listing".into());
    step.silent = true;
    let basic = step.to_basic();
    assert_eq!(basic.entry, "/bin/bash -c");
    assert_eq!(basic.cmd, RawCommandEntry::Single("ls".into()));
    assert_eq!(basic.store, Some("listing".to_string()));
    assert!(basic.silent);
    assert_eq!(step.get_store(), Some(&"listing".to_string()));
    assert_eq!(
        StepConfig::Single(SingularStepConfig::Config(CommandConfig::Bash(step))).get_store(),
        Some(&"listing".to_string())
    );
    assert_eq!(
        StepConfig::Single(SingularStepConfig::Simple("ls".into())).get_store(),
        None
    );
}

fn evaluate_children(
    group: &ParallelStepConfig,
    vars: &VariableSet,
    context: &RunContext,
) -> Result<StepEvaluationResult, DigError> {
    let outcomes = group
        .parallel
        .iter()
        .map(|child| drive(|a, c| child.evaluate(vars, context, a, c), machine))
        .collect();
    group.evaluate(outcomes)
}

#[test]
fn parallel_step_test_parallel_bash_steps() {
    let step_config = ParallelStepConfig {
        parallel: vec![
            SingularStepConfig::Simple("whoami".into()),
            SingularStepConfig::Simple("pwd".into()),
        ],
    };
    let vars = VariableSet::new();
    let context = RunContext::default();
    let output = evaluate_children(&step_config, &vars, &context).unwrap();

    match output {
        StepEvaluationResult::Completed(val) => {
            assert_eq!(val, "".to_string());
        }
        other => panic!("Expected an empty completion, instead got '{:?}'", other),
    };
}

#[test]
fn parallel_step_test_parallel_with_failure() {
    let step_config = ParallelStepConfig {
        parallel: vec![
            SingularStepConfig::Simple("whoami".into()),
            SingularStepConfig::Simple(">&2 echo \"This is an expected error\"; exit 1".into()),
        ],
    };
    let vars = VariableSet::new();
    let context = RunContext::default();
    let output = evaluate_children(&step_config, &vars, &context);

    match output {
        Ok(value) => panic!("Expected a failure, but instead got '{:?}'", value),
        Err(error) => {
            let expected_error = "This is an expected error";
            assert_eq!(error.message(), expected_error);
        }
    };
}

#[test]
fn parallel_group_gathers_subtasks_in_order() {
    let group = ParallelStepConfig {
        parallel: vec![
            SingularStepConfig::Task(task_step("first")),
            SingularStepConfig::Simple("whoami".into()),
            SingularStepConfig::Task(task_step("second")),
        ],
    };
    let vars = VariableSet::new();
    let context = RunContext::default();
    match evaluate_children(&group, &vars, &context).unwrap() {
        StepEvaluationResult::SubmitTasks(tasks) => {
            let names: Vec<&str> = tasks.iter().map(|t| t.task.as_str()).collect();
            assert_eq!(names, vec!["first", "second"]);
        }
        other => panic!("Expected to 'SubmitTasks', got '{:?}'", other),
    }
    let failed = group.evaluate(vec![
        Ok(StepEvaluationResult::Completed("x".into())),
        Err(DigError::Subprocess("one".into())),
        Err(DigError::Subprocess("two".into())),
    ]);
    assert_eq!(failed, Err(DigError::Subprocess("one".into())));
}

#[test]
fn task_step_test_only_name() {
    let task_config = task_step("test_task");
    let vars = _make_vars();
    let context = RunContext::default();

    let output = drive(|a, c| task_config.evaluate(&vars, &context, a, c), machine).unwrap();

    match output {
        StepEvaluationResult::SubmitTasks(mut tasks) => {
            assert_eq!(tasks.len(), 1);
            let task_def = tasks.pop().unwrap();
            assert_eq!(task_def.task, "test_task");
            assert_eq!(task_def.vars.parent().unwrap(), &vars.local_vars);
            assert_eq!(task_def.vars.local_vars, vars.local_vars);
            assert!(task_def.context.env.is_none());
            assert!(task_def.context.dir.is_none());
        }
        other => panic!("Expected to 'SubmitTasks', got '{:?}'", other),
    }
}

#[test]
fn task_step_test_env_dir() {
    let mut env = EnvMap::new();
    env.insert("WHO_YOU_GUNNA_CALL".to_string(), "mom?".to_string());
    let dir = "/".to_string();

    let mut task_config = task_step("test_task");
    task_config.env = Some(env.clone());
    task_config.dir = Some(dir.clone());

    let vars = _make_vars();
    let context = RunContext::default();
    let output = drive(|a, c| task_config.evaluate(&vars, &context, a, c), machine).unwrap();

    match output {
        StepEvaluationResult::SubmitTasks(mut tasks) => {
            assert_eq!(tasks.len(), 1);
            let task_def = tasks.pop().unwrap();
            assert_eq!(task_def.task, "test_task");
            assert_eq!(task_def.vars.parent().unwrap(), &vars.local_vars);
            assert_eq!(task_def.vars.local_vars, vars.local_vars);
            assert_eq!(task_def.context.env, Some(env));
            assert_eq!(task_def.context.dir, Some(dir));
        }
        other => panic!("Expected to 'SubmitTasks', got '{:?}'", other),
    }
}

#[test]
fn task_step_test_skippable() {
    let mut task_config = task_step("test_task");
    task_config.run_if = Some(vec![RunGate::Internal("\"cats\" = \"dogs\"".into())]);

    let vars = _make_vars();
    let context = RunContext::default();
    let output = drive(|a, c| task_config.evaluate(&vars, &context, a, c), machine).unwrap();

    match output {
        StepEvaluationResult::SkippedDueToIfStatement((statement_num, reason)) => {
            assert_eq!(statement_num, 0);
            assert_eq!(reason, "\"cats\" = \"dogs\"");
        }
        other => panic!("Expected a 'SkippedDueToIfStatement', got '{:?}'", other),
    }
}

#[test]
fn task_step_test_empty_vars() {
    let mut task_config = task_step("test_task");
    task_config.vars = Some(RawVariableMap::new());

    let vars = _make_vars();
    let context = RunContext::default();
    let output = drive(|a, c| task_config.evaluate(&vars, &context, a, c), machine).unwrap();

    match output {
        StepEvaluationResult::SubmitTasks(mut tasks) => {
            assert_eq!(tasks.len(), 1);
            let task_def = tasks.pop().unwrap();
            assert_eq!(task_def.task, "test_task");
            assert_eq!(task_def.vars.parent().unwrap(), &vars.local_vars);
            assert!(task_def.vars.local_vars.is_empty());
            assert!(task_def.context.env.is_none());
            assert!(task_def.context.dir.is_none());
        }
        other => panic!("Expected to 'SubmitTasks', got '{:?}'", other),
    }
}

#[test]
fn task_step_test_loop_over() {
    let mut task_config = task_step("test_task");
    task_config.vars = Some(_make_raw_vars());
    task_config.over = Some(vec![("key3".to_string(), "{{key1}}".to_string())]);

    let vars = _make_vars();
    let context = RunContext::default();
    let output = drive(|a, c| task_config.evaluate(&vars, &context, a, c), machine).unwrap();

    match output {
        StepEvaluationResult::SubmitTasks(mut tasks) => {
            assert_eq!(tasks.len(), 3);

            let task_def = tasks.pop().unwrap();
            assert_eq!(task_def.task, "test_task");
            assert!(task_def.context.env.is_none());
            assert!(task_def.context.dir.is_none());
            assert_eq!(task_def.vars.parent().unwrap(), &vars.local_vars);

            let expected_vars = frame(vec![
                ("key2", num("17")),
                ("key3", text("rats")),
                ("key4", num("22")),
            ]);
            assert_eq!(task_def.vars.local_vars, expected_vars);

            let task_def = tasks.pop().unwrap();
            let expected_vars = frame(vec![
                ("key2", num("17")),
                ("key3", text("bats")),
                ("key4", num("22")),
            ]);
            assert_eq!(task_def.vars.local_vars, expected_vars);

            let task_def = tasks.pop().unwrap();
            let expected_vars = frame(vec![
                ("key2", num("17")),
                ("key3", text("hats")),
                ("key4", num("22")),
            ]);
            assert_eq!(task_def.vars.local_vars, expected_vars);
        }
        other => panic!("Expected to 'SubmitTasks', got '{:?}'", other),
    }
}

#[test]
fn fan_out_is_the_cartesian_product() {
    let mut vars = VariableSet::new();
    vars.insert("nums".into(), JsonValue::Array(vec![num("1"), num("2")]));
    vars.insert("chars".into(), JsonValue::Array(vec![text("a"), text("b")]));
    let mut step = task_step("B");
    step.over = Some(vec![
        ("n".to_string(), "{{nums}}".to_string()),
        ("c".to_string(), "{{chars}}".to_string()),
    ]);
    let context = RunContext::default();
    let output = drive(|a, c| step.evaluate(&vars, &context, a, c), machine).unwrap();
    match output {
        StepEvaluationResult::SubmitTasks(tasks) => {
            let seen: Vec<(JsonValue, JsonValue)> = tasks
                .iter()
                .map(|t| {
                    assert_eq!(t.task, "B");
                    (
                        t.vars.get_from_locals("n").unwrap().clone(),
                        t.vars.get_from_locals("c").unwrap().clone(),
                    )
                })
                .collect();
            assert_eq!(
                seen,
                vec![
                    (num("1"), text("a")),
                    (num("2"), text("a")),
                    (num("1"), text("b")),
                    (num("2"), text("b")),
                ]
            );
        }
        other => panic!("Expected to 'SubmitTasks', got '{:?}'", other),
    }
}

#[test]
fn fan_out_counts_multiply() {
    let mut vars = VariableSet::new();
    vars.insert(
        "three".into(),
        JsonValue::Array(vec![num("1"), num("2"), num("3")]),
    );
    vars.insert("two".into(), JsonValue::Array(vec![num("1"), num("2")]));
    vars.insert("one".into(), text("single"));
    vars.insert("none".into(), JsonValue::Array(vec![]));
    let context = RunContext::default();

    let mut step = task_step("t");
    step.over = Some(vec![
        ("a".to_string(), "{{three}}".to_string()),
        ("b".to_string(), "{{two}}".to_string()),
        ("c".to_string(), "{{one}}".to_string()),
    ]);
    match step.prepare_subtasks(&vars, &context).unwrap() {
        StepEvaluationResult::SubmitTasks(tasks) => assert_eq!(tasks.len(), 6),
        other => panic!("Expected to 'SubmitTasks', got '{:?}'", other),
    }

    step.over = Some(vec![
        ("a".to_string(), "{{three}}".to_string()),
        ("b".to_string(), "{{none}}".to_string()),
    ]);
    match step.prepare_subtasks(&vars, &context).unwrap() {
        StepEvaluationResult::SubmitTasks(tasks) => assert_eq!(tasks.len(), 0),
        other => panic!("Expected to 'SubmitTasks', got '{:?}'", other),
    }

    step.over = Some(vec![]);
    match step.prepare_subtasks(&vars, &context).unwrap() {
        StepEvaluationResult::SubmitTasks(tasks) => assert_eq!(tasks.len(), 1),
        other => panic!("Expected to 'SubmitTasks', got '{:?}'", other),
    }
}

#[test]
fn fan_out_over_an_object_is_an_error() {
    let mut vars = VariableSet::new();
    vars.insert(
        "obj".into(),
        JsonValue::Object(vec![("k".to_string(), num("1"))]),
    );
    let mut step = task_step("t");
    step.over = Some(vec![("a".to_string(), "{{obj}}".to_string())]);
    let context = RunContext::default();
    let err = step.prepare_subtasks(&vars, &context).unwrap_err();
    assert_eq!(err, DigError::MapOverObject("{{obj}}".to_string()));
    assert_eq!(err.message(), "Unable to map over object variable '{{obj}}'");
}

fn evaluate_any<S: StepMethods>(step: &S, vars: &VariableSet) -> Result<StepEvaluationResult, DigError> {
    let context = RunContext::default();
    drive(|a, c| StepMethods::evaluate(step, vars, &context, a, c), machine)
}

#[test]
fn every_kind_of_step_is_evaluated_alike() {
    let vars = VariableSet::new();
    let completed = Ok(StepEvaluationResult::Completed("tester".to_string()));
    assert_eq!(evaluate_any(&BashStep::new("whoami"), &vars), completed);
    assert_eq!(evaluate_any(&basic("whoami", RawCommandEntry::Empty), &vars), completed);
    assert_eq!(
        evaluate_any(&CommandConfig::Bash(BashStep::new("whoami")), &vars),
        completed
    );
    assert_eq!(
        evaluate_any(&SingularStepConfig::Simple("whoami".into()), &vars),
        completed
    );
    let mut python = PythonStep::new("whoami");
    python.store = Some("me".into());
    assert_eq!(evaluate_any(&python, &vars), completed);
    assert_eq!(StepMethods::get_store(&python), Some(&"me".to_string()));
    assert_eq!(StepMethods::get_store(&task_step("t")), None);
    match evaluate_any(&task_step("t"), &vars) {
        Ok(StepEvaluationResult::SubmitTasks(tasks)) => assert_eq!(tasks.len(), 1),
        other => panic!("Expected to 'SubmitTasks', got '{:?}'", other),
    }
}

#[test]
fn further_answers_change_nothing() {
    let mut step = basic("bash -c", RawCommandEntry::Single("pwd".into()));
    step.dir = Some("/".into());
    step.run_if = Some(vec![RunGate::Test(dig::gate::RunGateTestConfig {
        test: "1 = 1".into(),
        allow: None,
        deny: None,
    })]);
    let vars = VariableSet::new();
    let context = RunContext::default();
    let mut answers = vec![Answer::Flag(true), exit_ok(""), exit_ok("/\n")];
    let mut cursor = 0;
    let first = step.evaluate(&vars, &context, &answers, &mut cursor);
    assert_eq!(first, Ok(StepEvaluationResult::Completed("/".to_string())));
    assert_eq!(cursor, 3);
    answers.push(Answer::Flag(false));
    answers.push(Answer::SpawnFailed("late".into()));
    let mut cursor = 0;
    assert_eq!(step.evaluate(&vars, &context, &answers, &mut cursor), first);
    assert_eq!(cursor, 3);
}
