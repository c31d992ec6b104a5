use hello_formula::environment::Environment;
use hello_formula::resolve::{bool_or_default, resolve_boolean, resolve_list, resolve_text, text_or_default};

#[test]
fn unset_text_and_list_resolve_to_none() {
    let env = Environment::new();
    assert_eq!(resolve_text(&env, "SAMPLE_TEXT"), "none");
    assert_eq!(resolve_list(&env, "SAMPLE_LIST"), "none");
    assert_eq!(resolve_text(&env, ""), "none");
}

#[test]
fn unset_text_ignores_other_names() {
    let mut env = Environment::new();
    env.set("OTHER", "value");
    env.set("sample_text", "lower");
    assert_eq!(resolve_text(&env, "SAMPLE_TEXT"), "none");
    assert_eq!(resolve_list(&env, "SAMPLE_LIST"), "none");
}

#[test]
fn unset_boolean_resolves_to_false() {
    let mut env = Environment::new();
    assert!(!resolve_boolean(&env, "SAMPLE_BOOL"));
    env.set("OTHER", "true");
    assert!(!resolve_boolean(&env, "SAMPLE_BOOL"));
}

#[test]
fn set_text_and_list_are_returned_unmodified() {
    let mut env = Environment::new();
    env.set("RIT_INPUT_TEXT", "  Mixed Case \t");
    env.set("RIT_INPUT_LIST", "a,b, c");
    assert_eq!(resolve_text(&env, "RIT_INPUT_TEXT"), "  Mixed Case \t");
    assert_eq!(resolve_list(&env, "RIT_INPUT_LIST"), "a,b, c");
}

#[test]
fn set_empty_value_is_not_the_default() {
    let mut env = Environment::new();
    env.set("RIT_INPUT_TEXT", "");
    assert_eq!(resolve_text(&env, "RIT_INPUT_TEXT"), "");
}

#[test]
fn set_value_none_is_kept() {
    let mut env = Environment::new();
    env.set("RIT_INPUT_LIST", "none");
    assert_eq!(resolve_list(&env, "RIT_INPUT_LIST"), "none");
}

#[test]
fn canonical_true_resolves_to_true() {
    let mut env = Environment::new();
    env.set("RIT_INPUT_BOOLEAN", "true");
    assert!(resolve_boolean(&env, "RIT_INPUT_BOOLEAN"));
}

#[test]
fn canonical_false_resolves_to_false() {
    let mut env = Environment::new();
    env.set("RIT_INPUT_BOOLEAN", "false");
    assert!(!resolve_boolean(&env, "RIT_INPUT_BOOLEAN"));
}

#[test]
fn non_canonical_booleans_resolve_to_false() {
    for word in ["yes", "1", "TRUE ", "TRUE", "True", " true", "", "none"] {
        let mut env = Environment::new();
        env.set("SAMPLE_BOOL", word);
        assert!(!resolve_boolean(&env, "SAMPLE_BOOL"), "{:?}", word);
    }
}

#[test]
fn later_value_replaces_earlier() {
    let mut env = Environment::new();
    env.set("NAME", "first");
    env.set("OTHER", "x");
    env.set("NAME", "second");
    assert_eq!(env.get("NAME"), Some("second".to_string()));
    assert_eq!(env.get("OTHER"), Some("x".to_string()));
    assert_eq!(env.get("MISSING"), None);
    env.set("FLAG", "true");
    env.set("FLAG", "no");
    assert!(!resolve_boolean(&env, "FLAG"));
}

#[test]
fn looked_up_values_resolve_directly() {
    assert_eq!(text_or_default(None), "none");
    assert_eq!(text_or_default(Some("Ana".to_string())), "Ana");
    assert!(bool_or_default(Some("true".to_string())));
    assert!(!bool_or_default(Some("false".to_string())));
    assert!(!bool_or_default(Some("yes".to_string())));
    assert!(!bool_or_default(None));
}
