use rename_files::syntax::{check_for_common_syntax_error, AmbiguousReference};

#[test]
fn test_check_for_common_syntax_error() {
    let test_cases = vec![
        ("$1abc", true),
        ("${1}abc", false),
        //
        ("$1a", true),
        ("${1}a", false),
        //
        ("$1", false),
        ("${1}", false),
        //
        ("$1 ", false),
        ("${1} ", false),
        //
        ("${1} abc ", false),
        ("$1 abc ", false),
        //
        ("$1abc$2", true),
        ("${1}abc$2", false),
        //
        ("$1abc$2def", true),
        ("${1}abc$2def", true),
        ("$1abc${2}def", true),
        ("${1}abc${2}def", false),
        //
        ("${1} $2", false),
        ("$1$2 ", false),
    ];
    for (input, expect_error) in test_cases {
        let result = check_for_common_syntax_error(input);
        match (result.is_err(), expect_error) {
            (true, true) => continue,
            (false, false) => continue,
            (true, false) => panic!("Expected no error for input: {}", input),
            (false, true) => panic!("Expected an error for input: {}", input),
        }
    }
}

#[test]
fn ambiguous_reference_position_is_reported() {
    assert_eq!(check_for_common_syntax_error("x$1abc"), Err(AmbiguousReference { at: 1, upto: 3 }));
    assert_eq!(check_for_common_syntax_error("${1}abc$2def"), Err(AmbiguousReference { at: 7, upto: 9 }));
}

#[test]
fn several_digits_then_text_is_ambiguous() {
    assert_eq!(check_for_common_syntax_error("$12abc"), Err(AmbiguousReference { at: 0, upto: 3 }));
    assert_eq!(check_for_common_syntax_error("$12"), Ok(()));
}

#[test]
fn punctuation_after_bare_reference_is_ambiguous() {
    assert!(check_for_common_syntax_error("$1.txt").is_err());
    assert!(check_for_common_syntax_error("$1_x").is_err());
}

#[test]
fn whitespace_or_dollar_after_reference_is_fine() {
    assert_eq!(check_for_common_syntax_error("$1\tabc"), Ok(()));
    assert_eq!(check_for_common_syntax_error("$1\u{3000}abc"), Ok(()));
    assert_eq!(check_for_common_syntax_error("$1$$"), Ok(()));
    assert_eq!(check_for_common_syntax_error(""), Ok(()));
    assert_eq!(check_for_common_syntax_error("$abc"), Ok(()));
    assert_eq!(check_for_common_syntax_error("abc$"), Ok(()));
}

#[test]
fn braced_references_before_letters_pass() {
    assert_eq!(check_for_common_syntax_error("${1}a${2}b${10}c"), Ok(()));
}
