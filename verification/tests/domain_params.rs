//! Validation tests for every per-route query parameter.

use battlemon_rest::domain::{
    Limit, NftTokenDays, NftTokenLimit, NftTokenOffset, NftTokenOwnerId, NftTokenTokenId, Offset,
    PaidDays, PaidLimit, PaidOffset, SaleDays, SaleLimit, SaleOffset, TokenId,
};

#[test]
fn limit_negative_limit_is_rejected() {
    let limit = Some(-10);
    let actual = Limit::parse(limit);
    assert!(
        actual.is_err(),
        "`Limit` isn't `Err`, actual value is {:?}",
        actual
    );
}

#[test]
fn limit_none_limit_equals_default() {
    let limit = None;
    let actual = Limit::parse(limit);
    assert!(
        actual.is_ok(),
        "The actual `Limit` isn't `Ok`, actual value is {:?}",
        actual
    );
    assert_eq!(
        actual,
        Ok(Limit::default()),
        "The actual `Limit` doesn't equal default value, actual value is {:?}",
        actual
    );
}

#[test]
fn limit_default_limit_is_100() {
    let actual = Limit::default();
    assert_eq!(
        actual,
        Limit::new(100),
        "The actual `Limit` doesn't contain `100i64`, actual value is {:?}",
        actual
    );
}

#[test]
fn nft_token_days_none_value_is_valid_for_being_parsed_successfully_by_sale_days() {
    let days = None;
    let actual = NftTokenDays::parse(days);
    assert!(
        actual.is_ok(),
        "The actual `NftTokenDays` isn't `Ok`, actual value is {:?}",
        actual
    )
}

#[test]
fn nft_token_days_any_some_values_for_days_is_rejected() {
    let days = Some(10);
    let actual = NftTokenDays::parse(days);
    assert!(
        actual.is_err(),
        "The actual `NftTokenDays` isn't `Err(..)`, actual value is {:?}",
        actual
    )
}

#[test]
fn nft_token_limit_negative_limit_is_rejected() {
    let limit = Some(-10);
    let actual = NftTokenLimit::parse(limit);
    assert!(
        actual.is_err(),
        "`NftTokenLimit` isn't `Err`, actual value is {:?}",
        actual
    );
}

#[test]
fn nft_token_limit_none_limit_equals_default() {
    let limit = None;
    let actual = NftTokenLimit::parse(limit);
    assert!(
        actual.is_ok(),
        "The actual `NftTokenLimit` isn't `Ok`, actual value is {:?}",
        actual
    );
    assert_eq!(
        actual,
        Ok(NftTokenLimit::default()),
        "The actual `NftTokenLimit` doesn't equal default value, actual value is {:?}",
        actual
    );
}

#[test]
fn nft_token_limit_default_limit_is_100() {
    let actual = NftTokenLimit::default();
    assert_eq!(
        actual,
        NftTokenLimit::new(100),
        "The actual `NftTokenLimit` doesn't contain `100i64`, actual value is {:?}",
        actual
    );
}

#[test]
fn nft_token_offset_negative_offset_is_rejected() {
    let offset = Some(-10);
    let actual = NftTokenOffset::parse(offset);
    assert!(
        actual.is_err(),
        "`NftTokenOffset` isn't `Err`, actual value is {:?}",
        actual
    );
}

#[test]
fn nft_token_offset_none_offset_equals_default() {
    let offset = None;
    let actual = NftTokenOffset::parse(offset);
    assert!(
        actual.is_ok(),
        "The actual `NftTokenOffset` isn't `Ok`, actual value is {:?}",
        actual
    );
    assert_eq!(
        actual,
        Ok(NftTokenOffset::default()),
        "The actual `NftTokenOffset` doesn't equal default value, actual value is {:?}",
        actual
    );
}

#[test]
fn nft_token_offset_default_offset_is_100() {
    let actual = NftTokenOffset::default();
    assert_eq!(
        actual,
        NftTokenOffset::new(0),
        "The actual `NftTokenOffset` doesn't contain `0i64`, actual value is {:?}",
        actual
    );
}

#[test]
fn nft_token_token_id_user_id_contains_wrong_chars() {
    let invalid_token_ids = ["a", "1a", "a1", "123a", "12.", ".12", "+12", "-12", "1+2"];
    for id in invalid_token_ids {
        let actual = NftTokenTokenId::parse(Some(id));
        assert!(
            actual.is_err(),
            "The actual `TokenId` isn't `Err`, actual value {:?}",
            actual
        );
    }
}

#[test]
fn nft_token_token_id_empty_token_id_is_rejected() {
    let id = Some(String::new());
    let actual = NftTokenTokenId::parse(id.as_deref());
    assert!(
        actual.is_err(),
        "The actual `TokenId` isn't `Err`, actual value {:?}",
        actual
    );
}

#[test]
fn nft_token_token_id_when_token_id_is_none_then_parsed_is_ok_none() {
    let id: Option<String> = None;
    let actual = NftTokenTokenId::parse(id.as_deref());
    assert!(
        actual.is_ok(),
        "The actual `TokenId` isn't `Ok`, actual value {:?}",
        actual
    );
    let inner_actual = actual.unwrap().into_inner();
    assert!(
        inner_actual.is_none(),
        "The actual inner of `TokenId` isn't `None`, actual inner value {:?}",
        inner_actual
    )
}

#[test]
fn owner_id_too_short() {
    let id = Some("a");
    let actual = NftTokenOwnerId::parse(id);
    assert!(
        actual.is_err(),
        "The actual `UserId` isn't `Err`, actual value {:?}",
        actual
    );
}

#[test]
fn owner_id_too_long() {
    let id = "a".repeat(65);
    let actual = NftTokenOwnerId::parse(Some(id.as_str()));
    assert!(
        actual.is_err(),
        "The actual `UserId` isn't `Err`, actual value {:?}",
        actual
    );
}

#[test]
fn owner_id_contains_wrong_chars() {
    let invalid_owner_ids = ["fomo@.testnet", "dev-1603749005325-6/432576", "alice;"];
    for id in invalid_owner_ids {
        let actual = NftTokenOwnerId::parse(Some(id));
        assert!(
            actual.is_err(),
            "The actual `UserId` isn't `Err`, actual value {:?}",
            actual
        );
    }
}

#[test]
fn valid_owner_id() {
    let valid_owner_ids = [
        "fomo.testnet",
        "fomo.alice.testnet",
        "alice.near",
        "alice.fomo.near",
        "dev-1603749005325-6432576",
    ];
    for id in valid_owner_ids {
        let actual = NftTokenOwnerId::parse(Some(id));
        assert!(
            actual.is_ok(),
            "The actual `UserId` isn't `Ok`, actual value {:?}",
            actual
        );
    }
}

#[test]
fn none_is_ok_none() {
    let token_id: Option<String> = None;
    let actual = NftTokenOwnerId::parse(token_id.as_deref());
    assert!(
        actual.is_ok(),
        "The actual `UserId` isn't `Ok`, actual value {:?}",
        actual
    );
    let inner_actual = actual.unwrap().into_inner();
    assert!(
        inner_actual.is_none(),
        "The actual inner of `UserId` isn't `None`, actual inner value {:?}",
        inner_actual
    );
}

#[test]
fn offset_negative_offset_is_rejected() {
    let offset = Some(-10);
    let actual = Offset::parse(offset);
    assert!(
        actual.is_err(),
        "`Offset` isn't `Err`, actual value is {:?}",
        actual
    );
}

#[test]
fn offset_none_offset_equals_default() {
    let offset = None;
    let actual = Offset::parse(offset);
    assert!(
        actual.is_ok(),
        "The actual `Offset` isn't `Ok`, actual value is {:?}",
        actual
    );
    assert_eq!(
        actual,
        Ok(Offset::default()),
        "The actual `Offset` doesn't equal default value, actual value is {:?}",
        actual
    );
}

#[test]
fn offset_default_offset_is_100() {
    let actual = Offset::default();
    assert_eq!(
        actual,
        Offset::new(0),
        "The actual `Offset` doesn't contain `0i64`, actual value is {:?}",
        actual
    );
}

#[test]
fn negative_days_is_rejected() {
    let days = Some(-5);
    let actual = PaidDays::parse(days);
    assert!(
        actual.is_err(),
        "`PaidDays` isn't `Err`, actual value is {:?}",
        actual
    );
}

#[test]
fn none_days_equals_default() {
    let days = None;
    let actual = PaidDays::parse(days);
    assert!(
        actual.is_ok(),
        "The actual `PaidDays` isn't ok, actual value is {:?}",
        actual
    );
    assert_eq!(
        actual,
        Ok(PaidDays::default()),
        "The actual `PaidDays` doesn't equal `default`, actual value is {:?}",
        actual
    );
}

#[test]
fn default_days_equals_1() {
    let actual = PaidDays::default();
    assert_eq!(
        actual,
        PaidDays(1),
        "The actual `PaidDays` value doesn't equal 1, actual value is {:?}",
        actual
    );
}

#[test]
fn paid_limit_negative_limit_is_rejected() {
    let limit = Some(-10);
    let actual = PaidLimit::parse(limit);
    assert!(
        actual.is_err(),
        "The actual `PaidLimit` isn't `Err`, actual value is {:?}",
        actual
    );
}

#[test]
fn paid_limit_none_limit_equals_default() {
    let limit = None;
    let actual = PaidLimit::parse(limit);
    assert!(
        actual.is_ok(),
        "The actual `PaidLimit` isn't `Ok`, actual value is {:?}",
        actual
    );
    assert_eq!(
        actual,
        Ok(PaidLimit::default()),
        "The actual `PaidLimit` doesn't equal default value, actual value is {:?}",
        actual
    )
}

#[test]
fn paid_limit_default_limit_is_100() {
    let actual = PaidLimit::default();
    assert_eq!(
        actual,
        PaidLimit::new(100),
        "The actual `PaidLimit` doesn't contain `100i64`, actual value is {:?}",
        actual
    );
}

#[test]
fn paid_offset_negative_offset_is_rejected() {
    let offset = Some(-10);
    let actual = PaidOffset::parse(offset);
    assert!(
        actual.is_err(),
        "The actual `PaidOffset` isn't `Err`, actual value is {:?}",
        actual
    );
}

#[test]
fn paid_offset_none_offset_equals_default() {
    let offset = None;
    let actual = PaidOffset::parse(offset);
    assert!(
        actual.is_ok(),
        "The actual `PaidOffset` isn't `Ok`, actual value is {:?}",
        actual
    );
    assert_eq!(
        actual,
        Ok(PaidOffset::default()),
        "The actual `PaidOffset` doesn't equal `Ok(PaidOffset(0))`, actual value is {:?}",
        actual
    );
}

#[test]
fn default_offset_is_0() {
    let actual = PaidOffset::default();
    assert_eq!(
        actual,
        PaidOffset::new(0),
        "The actual `PaidOffset` doesn't contain `0i64`, actual value is {:?}",
        actual
    );
}

#[test]
fn sale_days_none_value_is_valid_for_being_parsed_successfully_by_sale_days() {
    let days = None;
    let actual = SaleDays::parse(days);
    assert!(
        actual.is_ok(),
        "The actual `SaleDays` isn't `Ok`, actual value is {:?}",
        actual
    )
}

#[test]
fn sale_days_any_some_values_for_days_is_rejected() {
    let days = Some(10);
    let actual = SaleDays::parse(days);
    assert!(
        actual.is_err(),
        "The actual `SaleDays` isn't `Err(..)`, actual value is {:?}",
        actual
    )
}

#[test]
fn sale_limit_negative_limit_is_rejected() {
    let limit = Some(-10);
    let actual = SaleLimit::parse(limit);
    assert!(
        actual.is_err(),
        "`SaleLimit` isn't `Err`, actual value is {:?}",
        actual
    );
}

#[test]
fn sale_limit_none_limit_equals_default() {
    let limit = None;
    let actual = SaleLimit::parse(limit);
    assert!(
        actual.is_ok(),
        "The actual `SaleLimit` isn't `Ok`, actual value is {:?}",
        actual
    );
    assert_eq!(
        actual,
        Ok(SaleLimit::default()),
        "The actual `SaleLimit` doesn't equal default value, actual value is {:?}",
        actual
    );
}

#[test]
fn sale_limit_default_limit_is_100() {
    let actual = SaleLimit::default();
    assert_eq!(
        actual,
        SaleLimit::new(100),
        "The actual `SaleLimit` doesn't contain `100i64`, actual value is {:?}",
        actual
    );
}

#[test]
fn sale_offset_negative_offset_is_rejected() {
    let offset = Some(-10);
    let actual = SaleOffset::parse(offset);
    assert!(
        actual.is_err(),
        "`SaleOffset` isn't `Err`, actual value is {:?}",
        actual
    );
}

#[test]
fn sale_offset_none_offset_equals_default() {
    let offset = None;
    let actual = SaleOffset::parse(offset);
    assert!(
        actual.is_ok(),
        "The actual `SaleOffset` isn't `Ok`, actual value is {:?}",
        actual
    );
    assert_eq!(
        actual,
        Ok(SaleOffset::default()),
        "The actual `SaleOffset` doesn't equal default value, actual value is {:?}",
        actual
    );
}

#[test]
fn token_id_user_id_contains_wrong_chars() {
    let invalid_token_ids = ["a", "1a", "a1", "123a", "12.", ".12", "+12", "-12", "1+2"];
    for id in invalid_token_ids {
        let actual = TokenId::parse(Some(id));
        assert!(
            actual.is_err(),
            "The actual `TokenId` isn't `Err`, actual value {:?}",
            actual
        );
    }
}

#[test]
fn token_id_empty_token_id_is_rejected() {
    let id = Some(String::new());
    let actual = TokenId::parse(id.as_deref());
    assert!(
        actual.is_err(),
        "The actual `TokenId` isn't `Err`, actual value {:?}",
        actual
    );
}

#[test]
fn token_id_when_token_id_is_none_then_parsed_is_ok_none() {
    let id: Option<String> = None;
    let actual = TokenId::parse(id.as_deref());
    assert!(
        actual.is_ok(),
        "The actual `TokenId` isn't `Ok`, actual value {:?}",
        actual
    );
    let inner_actual = actual.unwrap().into_inner();
    assert!(
        inner_actual.is_none(),
        "The actual inner of `TokenId` isn't `None`, actual inner value {:?}",
        inner_actual
    )
}

#[test]
fn token_id_valid_digits_accepted() {
    let actual = TokenId::parse(Some("123"));
    assert!(actual.is_ok(), "actual value {:?}", actual);
    assert_eq!(actual.unwrap().into_inner(), Some("123".to_string()));
}

#[test]
fn token_id_is_trimmed_before_validation() {
    let actual = TokenId::parse(Some("  123\t"));
    assert!(actual.is_ok(), "actual value {:?}", actual);
    assert_eq!(actual.unwrap().into_inner(), Some("123".to_string()));
}

#[test]
fn owner_id_valid_value_is_kept() {
    let actual = NftTokenOwnerId::parse(Some("alice.near"));
    assert!(actual.is_ok(), "actual value {:?}", actual);
    assert_eq!(actual.unwrap().into_inner(), Some("alice.near".to_string()));
}

#[test]
fn owner_id_semicolon_is_rejected() {
    let actual = NftTokenOwnerId::parse(Some("alice;"));
    assert!(actual.is_err(), "actual value {:?}", actual);
}

#[test]
fn limit_zero_is_the_literal_value_zero() {
    let actual = Limit::parse(Some(0));
    assert_eq!(actual, Ok(Limit::new(0)));
}
