use cliparse::Parser;

fn config() -> Parser {
    let mut parser = Parser::new(
        "test".to_string(),
        "A test program".to_string(),
        "test -n=\"John Doe\" --age=20".to_string(),
    );
    parser.add_command(
        "name".to_string(),
        true,
        "n".to_string(),
        "The name of the person".to_string(),
    );
    parser.add_command(
        "age".to_string(),
        true,
        "a".to_string(),
        "The age of the person".to_string(),
    );
    parser
}

fn config_with_flag() -> Parser {
    let mut parser = config();
    parser.add_command(
        "verbose".to_string(),
        false,
        "v".to_string(),
        "Say more".to_string(),
    );
    parser
}

#[test]
fn test_parse() {
    let mut tester = Parser::new(
        "test".to_string(),
        "A test program".to_string(),
        "test -n=\"John Doe\" --age=20".to_string(),
    );
    tester.add_command(
        "name".to_string(),
        true,
        "n".to_string(),
        "The name of the person".to_string(),
    );
    tester.add_command(
        "age".to_string(),
        true,
        "a".to_string(),
        "The age of the person".to_string(),
    );
    let hash = tester.parse("--help name".to_string());
    println!("{:?}", hash);
}

#[test]
fn values_for_mixed_forms() {
    let parser = config();
    let result = parser.parse("--name=John --age 20".to_string());
    let map = result.map().expect("expected a value mapping");
    assert_eq!(map.get("name").unwrap().as_str(), "John");
    assert_eq!(map.get("age").unwrap().as_str(), "20");
    assert!(result.help().is_none());
    assert!(result.error().is_none());
}

#[test]
fn global_help_for_sole_help_token() {
    let parser = config();
    let result = parser.parse("--help".to_string());
    let help = result.help().expect("expected help text");
    let expected = "Usage: test [OPTIONS] ...\n\nA test program\n\n  -n --name: The name of the person (takes input)\n\n  -a --age: The age of the person (takes input)\nExamples:\n    test -n=\"John Doe\" --age=20\n\n";
    assert_eq!(help, expected.to_string());
    assert!(help.contains("test"));
    assert!(help.contains("The name of the person"));
    assert!(help.contains("The age of the person"));
    assert!(result.map().is_none());
    assert!(result.error().is_none());
}

#[test]
fn global_help_for_sole_short_help_token() {
    let parser = config();
    let result = parser.parse("-h".to_string());
    assert!(result.help().is_some());
}

#[test]
fn single_option_help() {
    let parser = config();
    let result = parser.parse("--help name".to_string());
    let help = result.help().expect("expected help text");
    assert_eq!(
        help,
        "-n --name: The name of the person (takes input)\n".to_string()
    );
}

#[test]
fn single_option_help_unknown_key() {
    let parser = config();
    let result = parser.parse("--help bogus".to_string());
    assert_eq!(
        result.error().expect("expected an error"),
        "Invalid flag/option: bogus".to_string()
    );
    assert!(result.help().is_none());
    assert!(result.map().is_none());
}

#[test]
fn help_with_three_tokens_is_an_error() {
    let parser = config();
    let result = parser.parse("--name John --help extra".to_string());
    assert_eq!(
        result.error().expect("expected an error"),
        "Invalid usage of help flag up top".to_string()
    );
}

#[test]
fn missing_value_at_end_is_an_error() {
    let parser = config();
    let result = parser.parse("--name".to_string());
    assert_eq!(
        result.error().expect("expected an error"),
        "Invalid argument: --name".to_string()
    );
}

#[test]
fn value_followed_by_option_like_token_is_an_error() {
    let parser = config();
    let result = parser.parse("--name --age".to_string());
    assert_eq!(
        result.error().expect("expected an error"),
        "Invalid argument: --name".to_string()
    );
}

#[test]
fn unknown_option_is_an_error() {
    let parser = config();
    let result = parser.parse("--unknown".to_string());
    assert_eq!(
        result.error().expect("expected an error"),
        "Invalid argument: --unknown".to_string()
    );
}

#[test]
fn lone_dash_is_an_error() {
    let parser = config();
    let result = parser.parse("-".to_string());
    assert_eq!(
        result.error().expect("expected an error"),
        "Invalid argument: -".to_string()
    );
}

#[test]
fn short_option_with_attached_value() {
    let parser = config();
    let result = parser.parse("-n=Jo".to_string());
    let map = result.map().expect("expected a value mapping");
    assert_eq!(map.get("name").unwrap().as_str(), "Jo");
}

#[test]
fn short_option_consumes_next_token() {
    let parser = config();
    let result = parser.parse("-n John".to_string());
    let map = result.map().expect("expected a value mapping");
    assert_eq!(map.get("name").unwrap().as_str(), "John");
}

#[test]
fn unknown_short_option_is_an_error() {
    let parser = config();
    let result = parser.parse("-x".to_string());
    assert_eq!(
        result.error().expect("expected an error"),
        "Invalid argument: -x".to_string()
    );
}

#[test]
fn equals_form_skips_takes_value_check() {
    let parser = config_with_flag();
    let result = parser.parse("--verbose=yes".to_string());
    let map = result.map().expect("expected a value mapping");
    assert_eq!(map.get("verbose").unwrap().as_str(), "yes");
}

#[test]
fn flag_without_value_is_present() {
    let parser = config_with_flag();
    let result = parser.parse("--verbose".to_string());
    let map = result.map().expect("expected a value mapping");
    assert_eq!(map.get("verbose").unwrap().as_str(), "present");
}

#[test]
fn bare_word_is_looked_up_as_flag() {
    let parser = config_with_flag();
    let result = parser.parse("verbose".to_string());
    let map = result.map().expect("expected a value mapping");
    assert_eq!(map.get("verbose").unwrap().as_str(), "present");
}

#[test]
fn unknown_bare_word_is_an_error() {
    let parser = config();
    let result = parser.parse("bogus".to_string());
    assert_eq!(
        result.error().expect("expected an error"),
        "Invalid argument: bogus".to_string()
    );
}

#[test]
fn empty_input_yields_empty_mapping() {
    let parser = config();
    let result = parser.parse("".to_string());
    let map = result.map().expect("expected a value mapping");
    assert!(map.get("name").is_none());
    assert!(map.get("").is_none());
    assert!(result.help().is_none());
    assert!(result.error().is_none());
}

#[test]
fn parse_twice_yields_identical_outcomes() {
    let parser = config();
    let first = parser.parse("--name=John --age 20".to_string());
    let second = parser.parse("--name=John --age 20".to_string());
    let first_map = first.map().expect("expected a value mapping");
    let second_map = second.map().expect("expected a value mapping");
    assert_eq!(first_map.get("name"), second_map.get("name"));
    assert_eq!(first_map.get("age"), second_map.get("age"));
    assert_eq!(first.help(), second.help());
    assert_eq!(first.error(), second.error());

    let first_err = parser.parse("--unknown".to_string());
    let second_err = parser.parse("--unknown".to_string());
    assert_eq!(first_err.error(), second_err.error());
}

#[test]
fn no_foreign_keys_in_values_outcome() {
    let parser = config();
    let result = parser.parse("--name John".to_string());
    let map = result.map().expect("expected a value mapping");
    assert!(map.get("name").is_some());
    assert!(map.get("age").is_none());
    assert!(map.get("help").is_none());
    assert!(map.get("--name").is_none());
    assert!(map.get("John").is_none());
}
