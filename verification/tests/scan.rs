use kubectl_check::opts::from_args;
use kubectl_check::parse_option::get_value;

fn args(tokens: &[&str]) -> Vec<String> {
    tokens.iter().map(|t| t.to_string()).collect()
}

#[test]
fn get_value_next_token_form() {
    let next = "c1".to_string();
    assert_eq!(get_value("--context", "--context", Some(&next)), Some("c1".to_string()));
}

#[test]
fn get_value_equals_form() {
    assert_eq!(get_value("--context=c1", "--context", None), Some("c1".to_string()));
}

#[test]
fn get_value_equals_form_trims_whitespace() {
    assert_eq!(get_value("--context=\t c1 \t", "--context", None), Some("c1".to_string()));
}

#[test]
fn get_value_equals_form_may_be_empty() {
    assert_eq!(get_value("--context=", "--context", None), Some(String::new()));
}

#[test]
fn get_value_missing_next_token() {
    assert_eq!(get_value("--context", "--context", None), None);
}

#[test]
fn get_value_other_flag_does_not_match() {
    let next = "x".to_string();
    assert_eq!(get_value("--namespace", "--context", Some(&next)), None);
}

#[test]
fn get_value_longer_flag_does_not_match() {
    assert_eq!(get_value("--contextual=x", "--context", None), None);
}

#[test]
fn from_args_collects_overrides_and_command() {
    let o = from_args(&args(&["--context", "c2", "-n", "ns2", "apply", "-f", "x.yaml"]));
    assert_eq!(o.context, Some("c2".to_string()));
    assert_eq!(o.namespace, Some("ns2".to_string()));
    assert_eq!(o.first_command, Some("apply".to_string()));
}

#[test]
fn from_args_empty_vector() {
    let o = from_args(&args(&[]));
    assert_eq!(o.context, None);
    assert_eq!(o.namespace, None);
    assert_eq!(o.first_command, None);
}

#[test]
fn from_args_last_occurrence_wins() {
    let o = from_args(&args(&["--context=a", "--context", "b", "-n", "x", "--namespace=y"]));
    assert_eq!(o.context, Some("b".to_string()));
    assert_eq!(o.namespace, Some("y".to_string()));
}

#[test]
fn from_args_first_command_wins() {
    let o = from_args(&args(&["get", "delete"]));
    assert_eq!(o.first_command, Some("get".to_string()));
}

#[test]
fn from_args_consumed_value_is_not_a_command() {
    let o = from_args(&args(&["--namespace", "delete", "get"]));
    assert_eq!(o.namespace, Some("delete".to_string()));
    assert_eq!(o.first_command, Some("get".to_string()));
}

#[test]
fn from_args_dangling_flag_is_dropped() {
    let o = from_args(&args(&["get", "--namespace"]));
    assert_eq!(o.namespace, None);
    assert_eq!(o.first_command, Some("get".to_string()));
}

#[test]
fn from_args_unrecognized_flags_have_no_effect() {
    let o = from_args(&args(&["--all-namespaces", "-o=wide", "top"]));
    assert_eq!(o.context, None);
    assert_eq!(o.namespace, None);
    assert_eq!(o.first_command, Some("top".to_string()));
}

#[test]
fn flag_name_can_be_consumed_as_value() {
    let o = from_args(&args(&["--context", "--namespace", "x", "get"]));
    assert_eq!(o.context, Some("--namespace".to_string()));
    assert_eq!(o.namespace, None);
    assert_eq!(o.first_command, Some("x".to_string()));
}

#[test]
fn empty_token_counts_as_command() {
    let o = from_args(&args(&["", "get"]));
    assert_eq!(o.first_command, Some(String::new()));
}
