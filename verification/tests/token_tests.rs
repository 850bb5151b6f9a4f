use dig::error::DigError;
use dig::token::evaluate_tokens;
use dig::token::evaluate_tokens_to_string;
use dig::token::is_control_char;
use dig::token::parse_all_elements;
use dig::token::ParsedElement;
use dig::token::TokenedJsonValue;
use dig::value::JsonValue;
use dig::vars::VariableSet;

fn num(text: &str) -> JsonValue {
    JsonValue::Number(text.to_string())
}

fn text(t: &str) -> JsonValue {
    JsonValue::Str(t.to_string())
}

fn variable_set_bob() -> VariableSet {
    let mut vars = VariableSet::new();
    vars.insert("NAME".to_string(), text("bob"));
    vars.insert("AGE".to_string(), num("43.7"));
    vars.insert(
        "FAVORITE_NUMBERS".to_string(),
        JsonValue::Array(vec![num("7"), num("13"), num("99")]),
    );
    vars.insert("FEARS".to_string(), JsonValue::Null);
    vars.insert(
        "CHILDREN_AGES".to_string(),
        JsonValue::Object(vec![
            ("sarah".to_string(), num("8")),
            ("timmy".to_string(), num("3")),
        ]),
    );
    vars
}

fn expand(token: &str) -> String {
    let vars = variable_set_bob();
    evaluate_tokens_to_string(token, "string", &vars).unwrap()
}

#[test]
fn test_multiline() {
    let vars = variable_set_bob();
    let raw = text(
        "import math
import json
print(json.dumps({ \"{{NAME}}\": math.sqrt( {{AGE}} )}))",
    );
    let output = raw.evaluate_tokens(&vars).unwrap();
    let expected = text(
        "import math
import json
print(json.dumps({ \"bob\": math.sqrt( 43.7 )}))",
    );
    assert_eq!(output, expected);
}

#[test]
fn object_token() {
    let vars = variable_set_bob();
    let output = evaluate_tokens("{{CHILDREN_AGES}}", &vars).unwrap();
    let expected = vars.get("CHILDREN_AGES").unwrap();
    assert_eq!(&output, expected);
}

#[test]
fn string_tokens_plain_string() {
    assert_eq!(expand("just some regular string"), "just some regular string");
}

#[test]
fn string_tokens_single_braces() {
    assert_eq!(expand("{NAME}"), "{NAME}");
}

#[test]
fn string_tokens_bare_token() {
    assert_eq!(expand("{{NAME}}"), "bob");
}

#[test]
fn string_tokens_trailing_spaces() {
    assert_eq!(expand("{{NAME}}  "), "bob  ");
}

#[test]
fn string_tokens_spaces_around() {
    assert_eq!(expand("  {{NAME}}  "), "  bob  ");
}

#[test]
fn string_tokens_leading_spaces() {
    assert_eq!(expand("  {{NAME}}"), "  bob");
}

#[test]
fn string_tokens_space_inside_left() {
    assert_eq!(expand("{{  NAME}}"), "bob");
}

#[test]
fn string_tokens_space_inside_both() {
    assert_eq!(expand("{{  NAME  }}"), "bob");
}

#[test]
fn string_tokens_space_inside_right() {
    assert_eq!(expand("{{NAME  }}"), "bob");
}

#[test]
fn string_tokens_triple_braces() {
    assert_eq!(expand("{{{NAME}}}"), "{bob}");
}

#[test]
fn string_tokens_quadruple_braces() {
    assert_eq!(expand("{{{{NAME}}}}"), "{{bob}}");
}

#[test]
fn string_tokens_comment() {
    assert_eq!(expand("/*{{NAME}}*/"), "{{NAME}}");
}

#[test]
fn string_tokens_array_in_a_sentence() {
    assert_eq!(
        expand("{{NAME}}'s number are {{FAVORITE_NUMBERS}}"),
        "bob's number are [7,13,99]"
    );
}

#[test]
fn string_tokens_array_alone_is_no_string() {
    let vars = variable_set_bob();
    let err = evaluate_tokens_to_string("{{FAVORITE_NUMBERS}}", "string", &vars).unwrap_err();
    assert_eq!(
        err,
        DigError::NotAString("string".to_string(), "[7,13,99]".to_string())
    );
    assert_eq!(
        err.message(),
        "A string must evaluate to a String. Got '[7,13,99]'"
    );
}

#[test]
fn empty_string_expands_to_null() {
    let vars = variable_set_bob();
    assert_eq!(evaluate_tokens("", &vars).unwrap(), JsonValue::Null);
}

#[test]
fn literal_without_tokens_expands_to_itself() {
    let vars = VariableSet::new();
    for s in ["a", "a/b", "x { y } z", "{", "/", "path/to/file.txt", "a}}b"] {
        assert_eq!(evaluate_tokens(s, &vars).unwrap(), text(s));
    }
}

#[test]
fn bare_token_keeps_the_type() {
    let vars = variable_set_bob();
    assert_eq!(evaluate_tokens("{{AGE}}", &vars).unwrap(), num("43.7"));
    assert_eq!(evaluate_tokens("{{FEARS}}", &vars).unwrap(), JsonValue::Null);
    assert_eq!(
        evaluate_tokens("{{FAVORITE_NUMBERS}}", &vars).unwrap(),
        JsonValue::Array(vec![num("7"), num("13"), num("99")])
    );
    assert_eq!(evaluate_tokens("{{ NAME }}", &vars).unwrap(), text("bob"));
}

#[test]
fn comment_escapes_unbound_tokens() {
    let vars = VariableSet::new();
    assert_eq!(evaluate_tokens("/*{{k}}*/", &vars).unwrap(), text("{{k}}"));
    assert_eq!(evaluate_tokens("/**/", &vars).unwrap(), text(""));
    assert_eq!(evaluate_tokens("/*/*/", &vars).unwrap(), text("/"));
}

#[test]
fn unknown_key_is_an_error() {
    let vars = variable_set_bob();
    let err = evaluate_tokens("hello {{NOBODY}}", &vars).unwrap_err();
    assert_eq!(err, DigError::UnknownKey("NOBODY".to_string()));
    assert_eq!(err.message(), "Failed to get key 'NOBODY'");
    let err = evaluate_tokens("{{NOBODY}}", &vars).unwrap_err();
    assert_eq!(err, DigError::UnknownKey("NOBODY".to_string()));
}

#[test]
fn unterminated_forms_are_literals() {
    let vars = variable_set_bob();
    assert_eq!(evaluate_tokens("{{NAME", &vars).unwrap(), text("{{NAME"));
    assert_eq!(evaluate_tokens("/*NAME", &vars).unwrap(), text("/*NAME"));
    assert_eq!(evaluate_tokens("{{}}", &vars).unwrap(), text("{{}}"));
    assert_eq!(evaluate_tokens("{{NA!ME}}", &vars).unwrap(), text("{{NA!ME}}"));
}

#[test]
fn elements_are_parsed_in_order() {
    let els = parse_all_elements("a{{ k }}/*c*/d/e");
    assert_eq!(
        els,
        vec![
            ParsedElement::Literal("a".to_string()),
            ParsedElement::Token("k".to_string()),
            ParsedElement::Literal("c".to_string()),
            ParsedElement::Literal("d".to_string()),
            ParsedElement::Literal("/e".to_string()),
        ]
    );
    assert!(parse_all_elements("").is_empty());
}

#[test]
fn control_chars_are_brace_and_slash() {
    assert!(is_control_char('{'));
    assert!(is_control_char('/'));
    assert!(!is_control_char('}'));
    assert!(!is_control_char('a'));
}

#[test]
fn values_are_expanded_in_depth() {
    let mut vars = VariableSet::new();
    vars.insert("k".to_string(), text("key"));
    vars.insert("n".to_string(), num("5"));
    let raw = JsonValue::Object(vec![
        (
            "{{k}}_1".to_string(),
            JsonValue::Array(vec![text("{{n}}"), text("n is {{n}}"), JsonValue::Bool(true)]),
        ),
        ("plain".to_string(), num("1")),
    ]);
    let expected = JsonValue::Object(vec![
        (
            "key_1".to_string(),
            JsonValue::Array(vec![num("5"), text("n is 5"), JsonValue::Bool(true)]),
        ),
        ("plain".to_string(), num("1")),
    ]);
    assert_eq!(raw.evaluate_tokens(&vars).unwrap(), expected);
}

#[test]
fn object_key_must_expand_to_a_string() {
    let mut vars = VariableSet::new();
    vars.insert("n".to_string(), num("5"));
    let raw = JsonValue::Object(vec![("{{n}}".to_string(), JsonValue::Null)]);
    let err = raw.evaluate_tokens(&vars).unwrap_err();
    assert_eq!(
        err,
        DigError::KeyNotString("{{n}}".to_string(), "5".to_string())
    );
    assert_eq!(
        err.message(),
        "Map keys should always map to strings: '{{n}}' became '5'"
    );
}

#[test]
fn later_object_entry_overwrites_equal_key() {
    let mut vars = VariableSet::new();
    vars.insert("a".to_string(), text("x"));
    let raw = JsonValue::Object(vec![
        ("x".to_string(), num("1")),
        ("{{a}}".to_string(), num("2")),
    ]);
    assert_eq!(
        raw.evaluate_tokens(&vars).unwrap(),
        JsonValue::Object(vec![("x".to_string(), num("2"))])
    );
}

#[test]
fn strings_and_values_share_one_interface() {
    let vars = variable_set_bob();
    assert_eq!(
        "{{NAME}}!".evaluate_tokens_to_string("string", &vars),
        Ok("bob!".to_string())
    );
    assert_eq!(
        "{{AGE}}".to_string().evaluate_tokens_to_string("label", &vars),
        Err(DigError::NotAString("label".to_string(), "43.7".to_string()))
    );
    assert_eq!(
        TokenedJsonValue::evaluate_tokens(&"{{AGE}}", &vars),
        Ok(num("43.7"))
    );
    assert_eq!(
        TokenedJsonValue::evaluate_tokens(&text("{{AGE}}").clone(), &vars),
        Ok(num("43.7"))
    );
    assert_eq!(
        TokenedJsonValue::evaluate_tokens_to_string(&text("is {{AGE}}"), "x", &vars),
        Ok("is 43.7".to_string())
    );
    assert_eq!(
        TokenedJsonValue::evaluate_tokens_to_string(&JsonValue::Null, "x", &vars),
        Err(DigError::NotAString("x".to_string(), "null".to_string()))
    );
}
