use zedc::resolve::{classify, is_accepted_extension, resolve_paths, Candidate, Verdict};

fn candidate(original: &str, resolved: Option<&str>) -> Candidate {
    Candidate { original: original.to_string(), resolved: resolved.map(|p| p.to_string()) }
}

#[test]
fn accepted_extensions_are_gz_tgz_vsix() {
    assert!(is_accepted_extension(&Some("gz".to_string())));
    assert!(is_accepted_extension(&Some("tgz".to_string())));
    assert!(is_accepted_extension(&Some("vsix".to_string())));
    assert!(!is_accepted_extension(&Some("exe".to_string())));
    assert!(!is_accepted_extension(&Some("tar".to_string())));
    assert!(!is_accepted_extension(&Some("".to_string())));
    assert!(!is_accepted_extension(&None));
}

#[test]
fn classify_accepts_resolved_archives() {
    assert_eq!(classify(&candidate("a.vsix", Some("/abs/a.vsix"))), Verdict::Accepted);
    assert_eq!(classify(&candidate("b.tgz", Some("/abs/b.tgz"))), Verdict::Accepted);
    assert_eq!(classify(&candidate("c.tar.gz", Some("/abs/c.tar.gz"))), Verdict::Accepted);
}

#[test]
fn classify_rejects_other_extensions() {
    assert_eq!(classify(&candidate("b.exe", Some("/abs/b.exe"))), Verdict::InvalidExtension);
    assert_eq!(classify(&candidate("plain", Some("/abs/plain"))), Verdict::InvalidExtension);
}

#[test]
fn classify_reports_unresolved_paths() {
    assert_eq!(classify(&candidate("missing.tgz", None)), Verdict::NotResolved);
}

#[test]
fn resolves_example_inputs() {
    let candidates = vec![
        candidate("a.vsix", Some("/abs/a.vsix")),
        candidate("b.exe", Some("/abs/b.exe")),
        candidate("missing.tgz", None),
    ];
    let out = resolve_paths(candidates);
    assert_eq!(out, vec!["/abs/a.vsix".to_string()]);
}

#[test]
fn resolve_preserves_input_order() {
    let candidates = vec![
        candidate("z.tgz", Some("/abs/z.tgz")),
        candidate("a.gz", Some("/abs/a.gz")),
        candidate("m.vsix", Some("/abs/m.vsix")),
    ];
    let out = resolve_paths(candidates);
    assert_eq!(
        out,
        vec!["/abs/z.tgz".to_string(), "/abs/a.gz".to_string(), "/abs/m.vsix".to_string()]
    );
}

#[test]
fn unresolved_entry_does_not_stop_later_entries() {
    let candidates = vec![
        candidate("missing.tgz", None),
        candidate("after.vsix", Some("/abs/after.vsix")),
    ];
    let out = resolve_paths(candidates);
    assert_eq!(out, vec!["/abs/after.vsix".to_string()]);
}

#[test]
fn resolve_of_nothing_is_nothing() {
    assert_eq!(resolve_paths(Vec::new()), Vec::<String>::new());
}
