use kubectl_check::error::Error;
use kubectl_check::kubeconfig::parse;
use kubectl_check::metadata::from;

#[test]
fn parse_valid_document() {
    let text = "current-context: c1\ncontexts:\n- name: c1\n  context:\n    namespace: ns1\n- name: c2\n  context: {}\n";
    let cfg = parse(text).unwrap();
    assert_eq!(cfg.current_context, "c1");
    assert_eq!(cfg.contexts.len(), 2);
    assert_eq!(cfg.contexts[0].name, "c1");
    assert_eq!(cfg.contexts[0].context.namespace, Some("ns1".to_string()));
    assert_eq!(cfg.contexts[1].name, "c2");
    assert_eq!(cfg.contexts[1].context.namespace, None);
}

#[test]
fn parse_rejects_invalid_yaml() {
    let r = parse("current-context: [");
    assert!(matches!(r, Err(Error::KubeconfigParse(_))));
}

#[test]
fn parse_rejects_missing_current_context() {
    let r = parse("contexts:\n- name: c1\n  context:\n    namespace: ns1\n");
    assert!(matches!(r, Err(Error::MalformedKubeconfig)));
}

#[test]
fn parse_rejects_non_string_current_context() {
    let r = parse("current-context: 7\ncontexts: []\n");
    assert!(matches!(r, Err(Error::MalformedKubeconfig)));
}

#[test]
fn parse_rejects_entry_without_name() {
    let r = parse("current-context: c1\ncontexts:\n- context:\n    namespace: ns1\n");
    assert!(matches!(r, Err(Error::MalformedKubeconfig)));
}

#[test]
fn parse_empty_stream_is_malformed() {
    let r = parse("");
    assert!(matches!(r, Err(Error::MalformedKubeconfig)));
}

#[test]
fn parse_without_contexts_sequence_leaves_list_empty() {
    let cfg = parse("current-context: c1\n").unwrap();
    assert_eq!(cfg.current_context, "c1");
    assert!(cfg.contexts.is_empty());
}

#[test]
fn parsed_configuration_resolves() {
    let text = "current-context: c1\ncontexts:\n- name: c1\n  context:\n    namespace: ns1\n";
    let cfg = parse(text).unwrap();
    let argv: Vec<String> = vec!["get".to_string(), "pods".to_string()];
    let m = from(cfg, &argv).unwrap();
    assert_eq!(m.target_context, "c1");
    assert_eq!(m.target_namespace, "ns1");
    assert_eq!(m.command, "get");
}

#[test]
fn parsed_configuration_without_namespace_resolves_to_default() {
    let cfg = parse("current-context: c2\ncontexts:\n- name: c2\n  context: {}\n").unwrap();
    let argv: Vec<String> = vec!["get".to_string()];
    let m = from(cfg, &argv).unwrap();
    assert_eq!(m.target_namespace, "default");
}

#[test]
fn parse_rejects_scalar_context_entry() {
    let r = parse("current-context: c1\ncontexts:\n- just-a-string\n");
    assert!(matches!(r, Err(Error::MalformedKubeconfig)));
}
