use eroteme::error::Error;
use eroteme::pagination::{extract_pagination, pagination_or_default, Pagination};

fn params(pairs: &[(&str, &str)]) -> Vec<(String, String)> {
    pairs.iter().map(|(k, v)| (k.to_string(), v.to_string())).collect()
}

#[test]
fn valid_pagination() {
    let params = params(&[("limit", "1"), ("offset", "1")]);
    let pagination_result = extract_pagination(&params);
    let expected = Pagination { limit: Some(1), offset: 1 };
    assert_eq!(pagination_result.unwrap(), expected);
}

#[test]
fn missing_offset_parameter() {
    let params = params(&[("limit", "1")]);
    let pagination_result = extract_pagination(&params).unwrap_err().message();
    let expected = Error::MissingParameters.message();
    assert_eq!(pagination_result, expected);
}

#[test]
fn missing_limit_parameter() {
    let params = params(&[("offset", "1")]);
    let pagination_result = extract_pagination(&params).unwrap_err().message();
    let expected = Error::MissingParameters.message();
    assert_eq!(pagination_result, expected);
}

#[test]
fn wrong_offset_type() {
    let params = params(&[("limit", "1"), ("offset", "NOT_A_NUMBER")]);
    let pagination_result = extract_pagination(&params).unwrap_err().message();
    let expected = "cannot parse parameter: invalid digit found in string".to_owned();
    assert_eq!(pagination_result, expected);
}

#[test]
fn wrong_limt_type() {
    let params = params(&[("limit", "NOT_A_NUMBER"), ("offset", "1")]);
    let pagination_result = extract_pagination(&params).unwrap_err().message();
    let expected = "cannot parse parameter: invalid digit found in string".to_owned();
    assert_eq!(pagination_result, expected);
}

#[test]
fn empty_params_take_the_default() {
    let r = pagination_or_default(&Vec::new()).unwrap();
    assert_eq!(r, Pagination { limit: None, offset: 0 });
}

#[test]
fn first_occurrence_wins() {
    let params = params(&[("limit", "5"), ("limit", "7"), ("offset", "2")]);
    let r = extract_pagination(&params).unwrap();
    assert_eq!(r, Pagination { limit: Some(5), offset: 2 });
}

#[test]
fn negative_and_signed_values_parse() {
    let params = params(&[("limit", "-3"), ("offset", "+12")]);
    let r = extract_pagination(&params).unwrap();
    assert_eq!(r, Pagination { limit: Some(-3), offset: 12 });
}
