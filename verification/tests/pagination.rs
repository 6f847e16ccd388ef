//! Tests of the pagination report builder and the per-route filter
//! assembly.

use battlemon_rest::domain::{AskFilter, BidFilter, NftTokenFilter, PaidFilter, SaleFilter};
use battlemon_rest::routes::{NftTokenQuery, PaginationQuery, RowsJsonReport};

fn rows(n: usize) -> Vec<u32> {
    (0..n as u32).collect()
}

#[test]
fn report_keeps_all_rows_when_fewer_than_limit() {
    let report = RowsJsonReport::from_rows(rows(50), 100);
    assert_eq!(report.rows.len(), 50);
    assert!(report.end);
    assert_eq!(report.rows, rows(50));
}

#[test]
fn report_drops_lookahead_row_when_more_data_exists() {
    let report = RowsJsonReport::from_rows(rows(101), 100);
    assert_eq!(report.rows.len(), 100);
    assert!(!report.end);
    assert_eq!(report.rows, rows(100));
}

#[test]
fn report_exact_limit_is_the_last_page() {
    let report = RowsJsonReport::from_rows(rows(100), 100);
    assert_eq!(report.rows.len(), 100);
    assert!(report.end);
}

#[test]
fn report_empty_fetch_is_the_end() {
    let report = RowsJsonReport::from_rows(Vec::<u32>::new(), 100);
    assert_eq!(report.rows.len(), 0);
    assert!(report.end);
}

#[test]
fn report_limit_zero_with_a_row_available_is_not_the_end() {
    let report = RowsJsonReport::from_rows(rows(1), 0);
    assert_eq!(report.rows.len(), 0);
    assert!(!report.end);
}

#[test]
fn report_limit_zero_with_empty_store_is_the_end() {
    let report = RowsJsonReport::from_rows(Vec::<u32>::new(), 0);
    assert_eq!(report.rows.len(), 0);
    assert!(report.end);
}

fn empty_query() -> PaginationQuery {
    PaginationQuery { days: None, limit: None, offset: None, token_id: None }
}

#[test]
fn sale_filter_defaults() {
    let filter = SaleFilter::try_from(empty_query()).unwrap();
    assert_eq!(filter.limit(), 100);
    assert_eq!(filter.offset(), 0);
    assert_eq!(filter.token_id(), None);
}

#[test]
fn sale_filter_rejects_days() {
    let query = PaginationQuery { days: Some(1), ..empty_query() };
    let err = SaleFilter::try_from(query).unwrap_err();
    assert_eq!(err, "query 'days' is prohibited for the `sales` route");
}

#[test]
fn sale_filter_reports_first_failing_field() {
    let query = PaginationQuery {
        days: Some(1),
        limit: Some(-1),
        offset: Some(-1),
        token_id: Some("12a".to_string()),
    };
    let err = SaleFilter::try_from(query).unwrap_err();
    assert_eq!(err, "The token id must contain only digits");
}

#[test]
fn sale_filter_keeps_explicit_values() {
    let query = PaginationQuery {
        days: None,
        limit: Some(7),
        offset: Some(3),
        token_id: Some("42".to_string()),
    };
    let filter = SaleFilter::try_from(query).unwrap();
    assert_eq!(filter.limit(), 7);
    assert_eq!(filter.offset(), 3);
    assert_eq!(filter.token_id(), Some("42"));
}

#[test]
fn ask_filter_accepts_days_and_validates_limit() {
    let query = PaginationQuery { days: Some(5), limit: Some(-2), ..empty_query() };
    let err = AskFilter::try_from(query).unwrap_err();
    assert_eq!(err, "The limit value must be positive.");
    let ok = AskFilter::try_from(PaginationQuery { days: Some(5), ..empty_query() }).unwrap();
    assert_eq!(ok.limit(), 100);
    assert_eq!(ok.token_id(), None);
}

#[test]
fn bid_filter_validates_offset() {
    let query = PaginationQuery { offset: Some(-3), ..empty_query() };
    let err = BidFilter::try_from(query).unwrap_err();
    assert_eq!(err, "The offset value must be positive.");
    let ok = BidFilter::try_from(empty_query()).unwrap();
    assert_eq!(ok.offset(), 0);
}

#[test]
fn paid_filter_defaults_days_to_one() {
    let filter = PaidFilter::try_from(empty_query()).unwrap();
    assert_eq!(filter.limit(), 100);
    assert_eq!(filter.offset(), 0);
    assert_eq!(filter.days(), 1);
}

#[test]
fn paid_filter_limit_error_comes_before_days_error() {
    let query = PaginationQuery { days: Some(-1), limit: Some(-1), ..empty_query() };
    let err = PaidFilter::try_from(query).unwrap_err();
    assert_eq!(err, "The limit value must be positive.");
}

#[test]
fn paid_filter_rejects_negative_days() {
    let query = PaginationQuery { days: Some(-1), ..empty_query() };
    let err = PaidFilter::try_from(query).unwrap_err();
    assert_eq!(err, "The parsed value must be positive.");
}

fn empty_nft_query() -> NftTokenQuery {
    NftTokenQuery { days: None, limit: None, offset: None, owner_id: None, token_id: None }
}

#[test]
fn nft_token_filter_defaults() {
    let filter = NftTokenFilter::try_from(empty_nft_query()).unwrap();
    assert_eq!(filter.limit(), 100);
    assert_eq!(filter.offset(), 0);
    assert_eq!(filter.owner_id(), None);
    assert_eq!(filter.token_id(), None);
}

#[test]
fn nft_token_filter_validates_owner_and_token() {
    let query = NftTokenQuery {
        owner_id: Some("alice.near".to_string()),
        token_id: Some("7".to_string()),
        ..empty_nft_query()
    };
    let filter = NftTokenFilter::try_from(query).unwrap();
    assert_eq!(filter.owner_id(), Some("alice.near"));
    assert_eq!(filter.token_id(), Some("7"));
}

#[test]
fn nft_token_filter_token_error_comes_before_owner_error() {
    let query = NftTokenQuery {
        owner_id: Some("a".to_string()),
        token_id: Some("".to_string()),
        ..empty_nft_query()
    };
    let err = NftTokenFilter::try_from(query).unwrap_err();
    assert_eq!(err, "Token id is empty");
}

#[test]
fn nft_token_filter_rejects_days() {
    let query = NftTokenQuery { days: Some(2), ..empty_nft_query() };
    let err = NftTokenFilter::try_from(query).unwrap_err();
    assert_eq!(err, "query 'days' is prohibited for the `nft_tokens` route");
}
