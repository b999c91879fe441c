use easy_uuid::{parse_uuid_count, ParseIssue, UuidError};

fn args(tokens: &[&str]) -> Vec<String> {
    tokens.iter().map(|t| t.to_string()).collect()
}

#[test]
fn no_positional_arguments_defaults_to_one() {
    assert_eq!(parse_uuid_count(&args(&["prog"])), Ok(1));
}

#[test]
fn empty_argument_list_defaults_to_one() {
    assert_eq!(parse_uuid_count(&args(&[])), Ok(1));
}

#[test]
fn single_numeric_argument_is_the_count() {
    assert_eq!(parse_uuid_count(&args(&["prog", "5"])), Ok(5));
    assert_eq!(parse_uuid_count(&args(&["prog", "0"])), Ok(0));
    assert_eq!(parse_uuid_count(&args(&["prog", "1000"])), Ok(1000));
    assert_eq!(parse_uuid_count(&args(&["prog", "1001"])), Ok(1001));
}

#[test]
fn plus_sign_is_accepted() {
    assert_eq!(parse_uuid_count(&args(&["prog", "+7"])), Ok(7));
}

#[test]
fn largest_count_fits() {
    assert_eq!(parse_uuid_count(&args(&["prog", "4294967295"])), Ok(u32::MAX));
}

#[test]
fn count_above_u32_overflows() {
    assert_eq!(
        parse_uuid_count(&args(&["prog", "4294967296"])),
        Err(UuidError::CountParseError(ParseIssue::Overflow))
    );
}

#[test]
fn far_too_large_count_overflows() {
    assert_eq!(
        parse_uuid_count(&args(&["prog", "99999999999999999999"])),
        Err(UuidError::CountParseError(ParseIssue::Overflow))
    );
}

#[test]
fn non_numeric_argument_is_a_parse_error() {
    assert_eq!(
        parse_uuid_count(&args(&["prog", "abc"])),
        Err(UuidError::CountParseError(ParseIssue::InvalidDigit))
    );
}

#[test]
fn negative_count_is_a_parse_error() {
    assert_eq!(
        parse_uuid_count(&args(&["prog", "-1"])),
        Err(UuidError::CountParseError(ParseIssue::InvalidDigit))
    );
}

#[test]
fn empty_token_is_a_parse_error() {
    assert_eq!(
        parse_uuid_count(&args(&["prog", ""])),
        Err(UuidError::CountParseError(ParseIssue::Empty))
    );
}

#[test]
fn bare_sign_is_a_parse_error() {
    assert_eq!(
        parse_uuid_count(&args(&["prog", "+"])),
        Err(UuidError::CountParseError(ParseIssue::Empty))
    );
}

#[test]
fn two_positional_arguments_are_rejected() {
    assert_eq!(
        parse_uuid_count(&args(&["prog", "3", "4"])),
        Err(UuidError::InvalidArgumentCount)
    );
}

#[test]
fn invalid_argument_count_message() {
    assert_eq!(
        UuidError::InvalidArgumentCount.message(),
        "Invalid arguments count. Enter the count of UUIDs you want to generate as an argument, or do not enter any arguments if you want to generate only one UUID."
    );
}

#[test]
fn parse_error_message_wraps_the_description() {
    assert_eq!(
        UuidError::CountParseError(ParseIssue::InvalidDigit).message(),
        "Parsing of UUID count error: invalid digit found in string"
    );
    assert_eq!(
        UuidError::CountParseError(ParseIssue::Empty).message(),
        "Parsing of UUID count error: cannot parse integer from empty string"
    );
    assert_eq!(
        UuidError::CountParseError(ParseIssue::Overflow).message(),
        "Parsing of UUID count error: number too large to fit in target type"
    );
}

#[test]
fn worker_error_messages_carry_the_detail() {
    assert_eq!(
        UuidError::WorkerPanicked("boom".to_string()).message(),
        "Thread panicked: boom"
    );
    assert_eq!(
        UuidError::ThreadJoinFailed("stuck".to_string()).message(),
        "Thread joining error: stuck"
    );
    assert_eq!(
        UuidError::WorkerFailed("oops".to_string()).message(),
        "Worker failed: oops"
    );
}
