use dig::effect::Answer;
use dig::effect::Pause;
use dig::effect::Request;
use dig::error::DigError;
use dig::raw::RawVariable;
use dig::raw::RawVariableMap;
use dig::run_context::RunContext;
use dig::step::common::CommandConfig;
use dig::step::python_step::PythonStep;
use dig::value::JsonValue;
use dig::vars::StackMode;
use dig::vars::VariableMap;
use dig::vars::VariableSet;

fn num(text: &str) -> JsonValue {
    JsonValue::Number(text.to_string())
}

fn text(t: &str) -> JsonValue {
    JsonValue::Str(t.to_string())
}

fn stack_raw(
    vars: &VariableSet,
    raw: &RawVariableMap,
    mode: StackMode,
    mut respond: impl FnMut(&Request) -> Answer,
) -> Result<VariableSet, DigError> {
    let context = RunContext::default();
    let mut answers: Vec<Answer> = Vec::new();
    loop {
        let mut cursor = 0;
        match vars.stack_raw_variables(raw, mode, &context, &answers, &mut cursor) {
            Ok(v) => return Ok(v),
            Err(Pause::Fail(e)) => return Err(e),
            Err(Pause::Ask(request)) => answers.push(respond(&request)),
        }
    }
}

fn no_process(request: &Request) -> Answer {
    panic!("no request expected, got {:?}", request)
}

#[test]
fn vars_raw_string_map() {
    let mut raw_var_map = RawVariableMap::new();
    raw_var_map.insert("fixed_int".into(), RawVariable::Json(num("22")));
    raw_var_map.insert("fixed_str".into(), RawVariable::Json(text("mama")));
    raw_var_map.insert(
        "token_str".into(),
        RawVariable::Json(text("papa loves {{fixed_str}}")),
    );
    raw_var_map.insert(
        "fixed_array".into(),
        RawVariable::Json(JsonValue::Array(vec![num("1"), num("2"), num("3")])),
    );
    raw_var_map.insert("token_key_{{fixed_int}}".into(), RawVariable::Json(num("5")));
    raw_var_map.insert(
        "nested_token_map".into(),
        RawVariable::Json(JsonValue::Object(vec![(
            "nested_key_{{fixed_str}}".to_string(),
            text("{{fixed_array}}"),
        )])),
    );

    let vars = VariableSet::new();
    let evaluated = stack_raw(&vars, &raw_var_map, StackMode::EmptyLocals, no_process).unwrap();

    let result = evaluated.get("fixed_int").unwrap();
    assert_eq!(result, &num("22"));

    let result = evaluated.get("token_str").unwrap();
    assert_eq!(result, &text("papa loves mama"));

    let result = evaluated.get("token_key_22").unwrap();
    assert_eq!(result, &num("5"));

    let result = match evaluated.get("nested_token_map").unwrap() {
        JsonValue::Object(nested_result) => nested_result
            .iter()
            .find(|(k, _)| k == "nested_key_mama")
            .map(|(_, v)| v)
            .expect("bad 'nested_key'"),
        other => panic!("Nested map is not a map. It's a '{:?}'", other),
    };
    assert_eq!(result, &JsonValue::Array(vec![num("1"), num("2"), num("3")]));
}

#[test]
fn vars_raw_command_map() {
    let mut rawvars = RawVariableMap::new();
    rawvars.insert("fixed_key".into(), RawVariable::Json(text("dyn_key")));
    rawvars.insert(
        "{{fixed_key}}".into(),
        RawVariable::Executable(CommandConfig::Python(PythonStep::new("print(\"19\")"))),
    );

    let vars = VariableSet::new();
    let evaluated = stack_raw(&vars, &rawvars, StackMode::EmptyLocals, |request| match request {
        Request::Run(command) => {
            assert_eq!(command.program, "python3");
            assert_eq!(command.args, vec!["-c".to_string(), "print(\"19\")".to_string()]);
            Answer::Exit(Some(0), "19\n".to_string(), String::new())
        }
        other => panic!("unexpected request {:?}", other),
    })
    .unwrap();

    let value = evaluated.get("dyn_key").unwrap();
    assert_eq!(value, &num("19"));
}

#[test]
fn raw_entry_sees_only_earlier_entries() {
    let mut raw = RawVariableMap::new();
    raw.insert("a".into(), RawVariable::Json(text("{{b}}")));
    raw.insert("b".into(), RawVariable::Json(text("late")));
    let vars = VariableSet::new();
    let err = stack_raw(&vars, &raw, StackMode::EmptyLocals, no_process).unwrap_err();
    assert_eq!(err, DigError::UnknownKey("b".to_string()));

    let mut raw = RawVariableMap::new();
    raw.insert("b".into(), RawVariable::Json(text("early")));
    raw.insert("a".into(), RawVariable::Json(text("{{b}}")));
    let out = stack_raw(&vars, &raw, StackMode::EmptyLocals, no_process).unwrap();
    assert_eq!(out.get("a").unwrap(), &text("early"));
}

#[test]
fn parent_value_overrides_raw_definition() {
    let mut vars = VariableSet::new();
    vars.insert("iso3".to_string(), text("MEX"));
    let mut raw = RawVariableMap::new();
    raw.insert("iso3".into(), RawVariable::Json(text("DEU")));
    raw.insert("other".into(), RawVariable::Json(text("{{iso3}}!")));

    let out = stack_raw(&vars, &raw, StackMode::EmptyLocals, no_process).unwrap();
    assert_eq!(out.get_from_locals("iso3"), Some(&text("MEX")));
    assert_eq!(out.get("other").unwrap(), &text("MEX!"));

    let out = stack_raw(&vars, &raw, StackMode::CopyLocals, no_process).unwrap();
    assert_eq!(out.get_from_locals("iso3"), Some(&text("MEX")));
    assert_eq!(out.local_vars.len(), 2);
}

#[test]
fn command_without_output_is_an_error() {
    let mut raw = RawVariableMap::new();
    let mut step = PythonStep::new("print(1)");
    step.run_if = Some(vec![dig::gate::RunGate::Internal("a = b".to_string())]);
    raw.insert("x".into(), RawVariable::Executable(CommandConfig::Python(step)));
    let vars = VariableSet::new();
    let err = stack_raw(&vars, &raw, StackMode::EmptyLocals, no_process).unwrap_err();
    assert_eq!(err, DigError::NoOutput);
    assert_eq!(err.message(), "Command did not result in an output");
}

#[test]
fn command_output_that_is_no_json_is_a_string() {
    let mut raw = RawVariableMap::new();
    raw.insert(
        "who".into(),
        RawVariable::Executable(CommandConfig::Python(PythonStep::new("print('me')"))),
    );
    let vars = VariableSet::new();
    let out = stack_raw(&vars, &raw, StackMode::EmptyLocals, |_| {
        Answer::Exit(Some(0), "  me \n".to_string(), String::new())
    })
    .unwrap();
    assert_eq!(out.get("who").unwrap(), &text("me"));
}

#[test]
fn get_prefers_local_then_newest_parent() {
    let mut base = VariableSet::new();
    base.insert("k".to_string(), num("1"));
    base.insert("only_old".to_string(), text("old"));
    let mut mid = base.stack(StackMode::EmptyLocals);
    mid.insert("k".to_string(), num("2"));
    mid.insert("only_mid".to_string(), text("mid"));
    let mut top = mid.stack(StackMode::EmptyLocals);

    assert_eq!(top.get("k").unwrap(), &num("2"));
    assert_eq!(top.get_from_parent("k"), Some(&num("2")));
    assert_eq!(top.get_from_locals("k"), None);
    assert_eq!(top.get("only_old").unwrap(), &text("old"));
    assert_eq!(top.get_from_parent("only_old"), None);

    top.insert("k".to_string(), num("3"));
    assert_eq!(top.get("k").unwrap(), &num("3"));
    assert_eq!(top.get_from_locals("k"), Some(&num("3")));

    let err = top.get("nowhere").unwrap_err();
    assert_eq!(err, DigError::UnknownKey("nowhere".to_string()));
}

#[test]
fn stack_copies_or_empties_the_local_frame() {
    let mut vars = VariableSet::new();
    assert!(vars.parent().is_none());
    vars.insert("a".to_string(), num("1"));

    let empty = vars.stack(StackMode::EmptyLocals);
    assert!(empty.local_vars.is_empty());
    assert_eq!(empty.parent().unwrap(), &vars.local_vars);
    assert_eq!(empty.stacked_vars.len(), 1);

    let copied = vars.stack(StackMode::CopyLocals);
    assert_eq!(copied.local_vars, vars.local_vars);
    assert_eq!(copied.parent().unwrap(), &vars.local_vars);

    let deeper = copied.stack(StackMode::EmptyLocals);
    assert_eq!(deeper.stacked_vars.len(), 2);
}

#[test]
fn insert_overwrites_in_place() {
    let mut map = VariableMap::new();
    map.insert("a".to_string(), num("1"));
    map.insert("b".to_string(), num("2"));
    map.insert("a".to_string(), num("3"));
    assert_eq!(map.len(), 2);
    assert_eq!(
        map.entries,
        vec![("a".to_string(), num("3")), ("b".to_string(), num("2"))]
    );
    assert_eq!(map.get("a"), Some(&num("3")));
    assert_eq!(map.get("c"), None);
}
