//! Tests of the parameter encoder.

use proxer_rs::params::{param, param_build, param_opt, param_opt_bool, param_opt_i8,
    param_opt_u64, param_u64, Param};

#[test]
fn encode_scenario_skips_absent() {
    let params: Vec<Param> = vec![
        param_u64("id", 5),
        param_opt_u64("episode", None),
        param("language", "gersub".to_string()),
    ];
    assert_eq!(param_build(&params), "id=5&language=gersub");
}

#[test]
fn encode_twice_is_deterministic() {
    let params: Vec<Param> = vec![
        param("a", "1".to_string()),
        param_opt("b", None),
        param("c", "x y".to_string()),
    ];
    let first = param_build(&params);
    let second = param_build(&params);
    assert_eq!(first, second);
}

#[test]
fn encode_empty_list_is_empty() {
    let params: Vec<Param> = Vec::new();
    assert_eq!(param_build(&params), "");
}

#[test]
fn encode_all_absent_is_empty() {
    let params: Vec<Param> = vec![
        param_opt("a", None),
        param_opt_u64("b", None),
        param_opt_bool("c", None),
    ];
    assert_eq!(param_build(&params), "");
}

#[test]
fn encode_leading_absent_writes_no_separator() {
    let params: Vec<Param> = vec![
        param_opt("a", None),
        param("b", "2".to_string()),
        param("c", "3".to_string()),
    ];
    assert_eq!(param_build(&params), "b=2&c=3");
}

#[test]
fn encode_trailing_absent_writes_no_separator() {
    let params: Vec<Param> = vec![param("a", "1".to_string()), param_opt("b", None)];
    assert_eq!(param_build(&params), "a=1");
}

#[test]
fn encode_absent_entry_changes_nothing() {
    let with_absent: Vec<Param> = vec![
        param("a", "1".to_string()),
        param_opt("gone", None),
        param("b", "2".to_string()),
    ];
    let without: Vec<Param> = vec![param("a", "1".to_string()), param("b", "2".to_string())];
    assert_eq!(param_build(&with_absent), param_build(&without));
}

#[test]
fn encode_numbers_and_booleans() {
    let params: Vec<Param> = vec![
        param_u64("zero", 0),
        param_u64("big", u64::MAX),
        param_opt_i8("neg", Some(-1)),
        param_opt_i8("low", Some(i8::MIN)),
        param_opt_bool("yes", Some(true)),
        param_opt_bool("no", Some(false)),
    ];
    assert_eq!(
        param_build(&params),
        "zero=0&big=18446744073709551615&neg=-1&low=-128&yes=true&no=false"
    );
}

#[test]
fn encode_values_are_taken_verbatim() {
    let params: Vec<Param> = vec![param("q", "a&b=c".to_string())];
    assert_eq!(param_build(&params), "q=a&b=c");
}
