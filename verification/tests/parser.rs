use autosort::extract_code;

#[test]
fn code_is_taken_from_the_query() {
    assert_eq!(extract_code(b"/?code=ABC123"), Some(b"ABC123".to_vec()));
}

#[test]
fn target_without_query_has_no_code() {
    assert_eq!(extract_code(b"/"), None);
    assert_eq!(extract_code(b""), None);
    assert_eq!(extract_code(b"/callback"), None);
}

#[test]
fn empty_query_has_no_code() {
    assert_eq!(extract_code(b"/?"), None);
}

#[test]
fn other_parameters_are_ignored() {
    assert_eq!(
        extract_code(b"/?state=xyz&code=ok&scope=mail"),
        Some(b"ok".to_vec())
    );
}

#[test]
fn first_code_parameter_wins() {
    assert_eq!(extract_code(b"/?code=one&code=two"), Some(b"one".to_vec()));
}

#[test]
fn key_must_be_exactly_code() {
    assert_eq!(extract_code(b"/?codex=1"), None);
    assert_eq!(extract_code(b"/?cod=1"), None);
    assert_eq!(extract_code(b"/?decode=1"), None);
}

#[test]
fn code_without_equals_sign_is_empty() {
    assert_eq!(extract_code(b"/?code"), Some(Vec::new()));
}

#[test]
fn code_with_empty_value_is_empty() {
    assert_eq!(extract_code(b"/?code="), Some(Vec::new()));
}

#[test]
fn fragment_closes_the_query() {
    assert_eq!(extract_code(b"/?code=abc#frag"), Some(b"abc".to_vec()));
    assert_eq!(extract_code(b"/?foo=1#code=abc"), None);
}

#[test]
fn question_mark_inside_fragment_opens_no_query() {
    assert_eq!(extract_code(b"/page#?code=abc"), None);
}

#[test]
fn value_is_url_decoded() {
    assert_eq!(extract_code(b"/?code=a%20b+c"), Some(b"a b c".to_vec()));
    assert_eq!(extract_code(b"/?code=%41%62%63"), Some(b"Abc".to_vec()));
}

#[test]
fn hex_escapes_accept_both_cases() {
    assert_eq!(extract_code(b"/?code=%4a%4A"), Some(b"JJ".to_vec()));
}

#[test]
fn ill_formed_escapes_pass_through_unchanged() {
    assert_eq!(extract_code(b"/?code=a%2"), Some(b"a%2".to_vec()));
    assert_eq!(extract_code(b"/?code=%zz"), Some(b"%zz".to_vec()));
    assert_eq!(extract_code(b"/?code=%"), Some(b"%".to_vec()));
    assert_eq!(extract_code(b"/?code=100%25"), Some(b"100%".to_vec()));
}

#[test]
fn key_is_decoded_before_the_comparison() {
    assert_eq!(extract_code(b"/?c%6Fde=x"), Some(b"x".to_vec()));
    assert_eq!(extract_code(b"/?code+=1"), None);
}

#[test]
fn empty_pairs_do_not_match() {
    assert_eq!(extract_code(b"/?&&code=v&&"), Some(b"v".to_vec()));
}
