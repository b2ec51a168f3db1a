use substance_kinetics::ApiError;

#[test]
fn api_error_counts_messages() {
    let err = ApiError::new(vec![String::from("first"), String::from("second")]);
    assert_eq!(err.err_count(), 2);
    assert_eq!(err.messages().len(), 2);
    assert_eq!(err.messages()[0], "first");
    assert_eq!(err.messages()[1], "second");
}

#[test]
fn api_error_with_no_messages() {
    let err = ApiError::new(Vec::new());
    assert_eq!(err.err_count(), 0);
    assert_eq!(err.joined_messages(), "");
}

#[test]
fn api_error_joins_messages_line_by_line() {
    let err = ApiError::new(vec![String::from("bad query"), String::from("rate limited")]);
    assert_eq!(err.joined_messages(), "bad query\nrate limited\n");
}
