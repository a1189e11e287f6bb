use eroteme::claims::{claims_string, parse_claims};

#[test]
fn claims_render_as_one_json_object() {
    let s = claims_string(42, 1_700_086_400, 1_700_000_000);
    assert_eq!(s, "{\"account_id\":42,\"exp\":1700086400,\"nbf\":1700000000}");
    let s = claims_string(-7, 10, 0);
    assert_eq!(s, "{\"account_id\":-7,\"exp\":10,\"nbf\":0}");
}

#[test]
fn claims_parse_back_to_what_was_rendered() {
    for (id, exp, nbf) in [
        (0, 0, 0),
        (42, 1_700_086_400, 1_700_000_000),
        (-1, i64::MAX, i64::MAX),
        (i32::MIN, 1, 0),
        (i32::MAX, 2, 1),
    ] {
        let s = claims_string(id, exp, nbf);
        assert_eq!(parse_claims(&s), Some((id, exp, nbf)));
    }
}

#[test]
fn only_canonical_claims_are_accepted() {
    assert_eq!(parse_claims(""), None);
    assert_eq!(parse_claims("{}"), None);
    assert_eq!(parse_claims("{\"account_id\":1,\"exp\":2,\"nbf\":3}x"), None);
    // Leading zeroes, a plus sign, or a minus zero are not canonical.
    assert_eq!(parse_claims("{\"account_id\":01,\"exp\":2,\"nbf\":3}"), None);
    assert_eq!(parse_claims("{\"account_id\":+1,\"exp\":2,\"nbf\":3}"), None);
    assert_eq!(parse_claims("{\"account_id\":-0,\"exp\":2,\"nbf\":3}"), None);
    // Out-of-range values are refused, not wrapped.
    assert_eq!(parse_claims("{\"account_id\":2147483648,\"exp\":2,\"nbf\":3}"), None);
    assert_eq!(
        parse_claims("{\"account_id\":1,\"exp\":9223372036854775808,\"nbf\":3}"),
        None
    );
    // Reordered fields are not the canonical form.
    assert_eq!(parse_claims("{\"nbf\":3,\"exp\":2,\"account_id\":1}"), None);
}
