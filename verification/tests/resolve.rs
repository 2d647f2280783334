use kubectl_check::error::Error;
use kubectl_check::kubeconfig::{KubeConfig, KubeContext, KubeContextMetadata};
use kubectl_check::metadata::from;

fn args(tokens: &[&str]) -> Vec<String> {
    tokens.iter().map(|t| t.to_string()).collect()
}

fn entry(name: &str, namespace: Option<&str>) -> KubeContext {
    KubeContext {
        name: name.to_string(),
        context: KubeContextMetadata { namespace: namespace.map(|n| n.to_string()) },
    }
}

fn config(current: &str, contexts: Vec<KubeContext>) -> KubeConfig {
    KubeConfig { current_context: current.to_string(), contexts }
}

#[test]
fn scenario_current_context_and_configured_namespace() {
    let cfg = config("c1", vec![entry("c1", Some("ns1"))]);
    let m = from(cfg, &args(&["get", "pods"])).unwrap();
    assert_eq!(m.target_context, "c1");
    assert_eq!(m.target_namespace, "ns1");
    assert_eq!(m.command, "get");
}

#[test]
fn scenario_overrides_win() {
    let cfg = config("c1", vec![entry("c1", Some("ns1"))]);
    let m = from(cfg, &args(&["--context", "c1", "--namespace", "ns2", "delete", "pod", "x"]))
        .unwrap();
    assert_eq!(m.target_context, "c1");
    assert_eq!(m.target_namespace, "ns2");
    assert_eq!(m.command, "delete");
}

#[test]
fn scenario_missing_namespace_falls_to_default() {
    let cfg = config("c1", vec![entry("c1", None)]);
    let m = from(cfg, &args(&["get"])).unwrap();
    assert_eq!(m.target_context, "c1");
    assert_eq!(m.target_namespace, "default");
    assert_eq!(m.command, "get");
}

#[test]
fn scenario_unknown_context_fails() {
    let cfg = config("missing", vec![]);
    match from(cfg, &args(&["get"])) {
        Err(Error::CurrentContextNotFound(name)) => assert_eq!(name, "missing"),
        _ => panic!("expected CurrentContextNotFound"),
    }
}

#[test]
fn scenario_no_subcommand_fails() {
    let cfg = config("c1", vec![entry("c1", Some("ns1"))]);
    let r = from(cfg, &args(&["--context=c1"]));
    assert!(matches!(r, Err(Error::NoCommandSpecified)));
}

#[test]
fn context_override_wins_over_configuration() {
    let cfg = config("c1", vec![entry("c1", Some("ns1")), entry("c2", Some("ns2"))]);
    let m = from(cfg, &args(&["--context", "c2", "get"])).unwrap();
    assert_eq!(m.target_context, "c2");
    assert_eq!(m.target_namespace, "ns2");
}

#[test]
fn last_context_occurrence_wins() {
    let cfg = config("c1", vec![entry("c1", Some("ns1"))]);
    let m = from(cfg, &args(&["--context", "a", "--context=b", "--namespace", "ns", "get"]))
        .unwrap();
    assert_eq!(m.target_context, "b");
}

#[test]
fn last_namespace_occurrence_wins() {
    let cfg = config("c1", vec![entry("c1", Some("ns1"))]);
    let m = from(cfg, &args(&["--namespace", "x", "-n", "y", "get"])).unwrap();
    assert_eq!(m.target_namespace, "y");
}

#[test]
fn equals_form_value_is_trimmed() {
    let cfg = config("c1", vec![entry("c1", Some("ns1"))]);
    let m = from(cfg, &args(&["--context= c2 ", "--namespace=ns2", "get"])).unwrap();
    assert_eq!(m.target_context, "c2");
    assert_eq!(m.target_namespace, "ns2");
}

#[test]
fn namespace_override_skips_context_lookup() {
    let cfg = config("nowhere", vec![]);
    let m = from(cfg, &args(&["--namespace", "ns2", "get"])).unwrap();
    assert_eq!(m.target_context, "nowhere");
    assert_eq!(m.target_namespace, "ns2");
}

#[test]
fn dangling_flag_yields_no_override() {
    let cfg = config("c1", vec![entry("c1", Some("ns1"))]);
    let m = from(cfg, &args(&["get", "--context"])).unwrap();
    assert_eq!(m.target_context, "c1");
    assert_eq!(m.target_namespace, "ns1");
    assert_eq!(m.command, "get");
}

#[test]
fn flag_value_is_not_taken_as_command() {
    let cfg = config("c1", vec![entry("c1", Some("ns1"))]);
    let r = from(cfg, &args(&["-n", "ns2", "--context", "get"]));
    assert!(matches!(r, Err(Error::NoCommandSpecified)));
}

#[test]
fn consumed_context_value_feeds_the_lookup() {
    let cfg = config("c1", vec![entry("c1", Some("ns1"))]);
    match from(cfg, &args(&["--context", "get"])) {
        Err(Error::CurrentContextNotFound(name)) => assert_eq!(name, "get"),
        _ => panic!("expected CurrentContextNotFound"),
    }
}

#[test]
fn unknown_flags_are_ignored() {
    let cfg = config("c1", vec![entry("c1", Some("ns1"))]);
    let m = from(cfg, &args(&["--output=json", "-v", "get"])).unwrap();
    assert_eq!(m.target_context, "c1");
    assert_eq!(m.command, "get");
}

#[test]
fn later_non_flag_tokens_are_ignored() {
    let cfg = config("c1", vec![entry("c1", Some("ns1"))]);
    let m = from(cfg, &args(&["get", "pods", "delete"])).unwrap();
    assert_eq!(m.command, "get");
}

#[test]
fn first_context_entry_of_a_name_wins() {
    let cfg = config("c1", vec![entry("c1", Some("first")), entry("c1", Some("second"))]);
    let m = from(cfg, &args(&["get"])).unwrap();
    assert_eq!(m.target_namespace, "first");
}

#[test]
fn short_alias_sets_namespace() {
    let cfg = config("c1", vec![entry("c1", Some("ns1"))]);
    let m = from(cfg, &args(&["-n", "ns9", "get"])).unwrap();
    assert_eq!(m.target_namespace, "ns9");
    let cfg = config("c1", vec![entry("c1", Some("ns1"))]);
    let m = from(cfg, &args(&["-n=ns8", "get"])).unwrap();
    assert_eq!(m.target_namespace, "ns8");
}

#[test]
fn resolution_is_idempotent() {
    let make = || config("c1", vec![entry("c1", Some("ns1")), entry("c2", None)]);
    let a = args(&["--context", "c2", "get", "pods"]);
    let m1 = from(make(), &a).unwrap();
    let m2 = from(make(), &a).unwrap();
    assert_eq!(m1.target_context, m2.target_context);
    assert_eq!(m1.target_namespace, m2.target_namespace);
    assert_eq!(m1.command, m2.command);
}

#[test]
fn context_not_found_outranks_missing_command() {
    let cfg = config("missing", vec![]);
    let r = from(cfg, &args(&[]));
    assert!(matches!(r, Err(Error::CurrentContextNotFound(_))));
}

#[test]
fn empty_context_override_falls_back() {
    let cfg = config("c1", vec![entry("c1", Some("ns1"))]);
    let m = from(cfg, &args(&["--context=", "get"])).unwrap();
    assert_eq!(m.target_context, "c1");
    assert_eq!(m.target_namespace, "ns1");
}

#[test]
fn empty_namespace_override_falls_back() {
    let cfg = config("c1", vec![entry("c1", Some("ns1"))]);
    let m = from(cfg, &args(&["-n=", "get"])).unwrap();
    assert_eq!(m.target_namespace, "ns1");
}

#[test]
fn empty_current_context_is_not_found() {
    let cfg = config("", vec![]);
    match from(cfg, &args(&["-n", "x", "get"])) {
        Err(Error::CurrentContextNotFound(name)) => assert_eq!(name, ""),
        _ => panic!("expected CurrentContextNotFound"),
    }
}

#[test]
fn empty_configured_namespace_resolves_to_default() {
    let cfg = config("c1", vec![entry("c1", Some(""))]);
    let m = from(cfg, &args(&["get"])).unwrap();
    assert_eq!(m.target_namespace, "default");
}

#[test]
fn resolved_fields_are_nonempty() {
    let cfg = config("c1", vec![entry("c1", None)]);
    let m = from(cfg, &args(&["--context= ", "-n=\t", "get"])).unwrap();
    assert!(!m.target_context.is_empty());
    assert!(!m.target_namespace.is_empty());
    assert_eq!(m.target_context, "c1");
    assert_eq!(m.target_namespace, "default");
}
