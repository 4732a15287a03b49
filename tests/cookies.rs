use isekai_links::parse_session_token;

#[test]
fn token_alone() {
    assert_eq!(parse_session_token("session_token=abc"), Some("abc".to_string()));
}

#[test]
fn token_among_other_cookies_with_spaces() {
    assert_eq!(
        parse_session_token("theme=dark;  session_token=XyZ09 ; lang=en"),
        Some("XyZ09".to_string())
    );
}

#[test]
fn value_keeps_later_equals_signs() {
    assert_eq!(
        parse_session_token("a=1; session_token=abc=def=="),
        Some("abc=def==".to_string())
    );
}

#[test]
fn first_matching_pair_wins() {
    assert_eq!(
        parse_session_token("session_token=first; session_token=second"),
        Some("first".to_string())
    );
}

#[test]
fn empty_value_is_a_token() {
    assert_eq!(parse_session_token("session_token="), Some(String::new()));
}

#[test]
fn missing_cookie_gives_nothing() {
    assert_eq!(parse_session_token(""), None);
    assert_eq!(parse_session_token("theme=dark; lang=en"), None);
    assert_eq!(parse_session_token(";;;"), None);
}

#[test]
fn similar_names_do_not_match() {
    assert_eq!(parse_session_token("xsession_token=1"), None);
    assert_eq!(parse_session_token("session_token =1"), None);
    assert_eq!(parse_session_token("session_tokens=1"), None);
    assert_eq!(parse_session_token("session_token"), None);
}

#[test]
fn tabs_and_newlines_are_trimmed() {
    assert_eq!(
        parse_session_token("a=b;\t session_token=tok\t\n"),
        Some("tok".to_string())
    );
    assert_eq!(
        parse_session_token("a=b;\u{3000}session_token=wide\u{a0}"),
        Some("wide".to_string())
    );
}

#[test]
fn inner_spaces_of_the_value_are_kept() {
    assert_eq!(
        parse_session_token("session_token=a b "),
        Some("a b".to_string())
    );
}
