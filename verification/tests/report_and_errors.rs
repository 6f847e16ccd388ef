//! Tests of the trade-statistics report, the error taxonomy, and the
//! environment switch.

use battlemon_rest::config::Environment;
use battlemon_rest::errors::{
    AskError, AuthError, BidError, ContractError, IsOwnerError, JsonError, NftTokensError,
    PaidError, SaleError,
};
use battlemon_rest::routes::paid::calculate_report;

#[test]
fn calculate_report_empty() {
    let rows = vec![];
    let (top_trade, total_trades_volume) = calculate_report(&rows);
    assert_eq!(top_trade, 0);
    assert_eq!(total_trades_volume, 0);
}

#[test]
fn calculate_report_one_trade() {
    let rows = vec![10];
    let (top_trade, total_trades_volume) = calculate_report(&rows);
    assert_eq!(top_trade, 10);
    assert_eq!(total_trades_volume, 10);
}

#[test]
fn calculate_report_two_trades() {
    let rows = vec![1, 10];
    let (top_trade, total_trade_volume) = calculate_report(&rows);
    assert_eq!(top_trade, 10);
    assert_eq!(total_trade_volume, 11);
}

#[test]
fn calculate_report_tree_trades() {
    let rows = vec![5, 3, 1];
    let (top_trade, total_trades_volume) = calculate_report(&rows);
    assert_eq!(top_trade, 5);
    assert_eq!(total_trades_volume, 9);
}

#[test]
fn calculate_report_does_not_overflow_u64_sums() {
    let rows = vec![u64::MAX, u64::MAX, 1];
    let (top_trade, total) = calculate_report(&rows);
    assert_eq!(top_trade, u64::MAX);
    assert_eq!(total, 2 * (u64::MAX as u128) + 1);
}

#[test]
fn json_error_wraps_the_message() {
    let err = JsonError::new("boom".to_string());
    assert_eq!(err.error, "boom");
}

#[test]
fn auth_error_statuses() {
    assert_eq!(AuthError::BadRequest("x".to_string()).status_code(), 400);
    assert_eq!(AuthError::InvalidCredentials("x".to_string()).status_code(), 401);
    assert_eq!(AuthError::UnexpectedError("x".to_string()).status_code(), 500);
}

#[test]
fn auth_error_messages_hide_the_cause() {
    assert_eq!(AuthError::BadRequest("secret cause".to_string()).client_message(), "Bad request");
    assert_eq!(
        AuthError::InvalidCredentials("secret cause".to_string()).client_message(),
        "Invalid credentials"
    );
    assert_eq!(
        AuthError::UnexpectedError("secret cause".to_string()).client_message(),
        "An unexpected error occurred."
    );
}

#[test]
fn unexpected_errors_with_different_causes_look_identical_to_clients() {
    let a = AuthError::UnexpectedError("connection reset".to_string());
    let b = AuthError::UnexpectedError("hash table corrupt".to_string());
    assert_eq!(a.client_message(), b.client_message());
    assert_eq!(a.status_code(), b.status_code());
    let c = SaleError::UnexpectedError("disk full".to_string());
    let d = SaleError::UnexpectedError("socket closed".to_string());
    assert_eq!(c.client_message(), d.client_message());
}

#[test]
fn route_error_statuses() {
    assert_eq!(SaleError::ValidationError("m".to_string()).status_code(), 400);
    assert_eq!(SaleError::UnexpectedError("m".to_string()).status_code(), 500);
    assert_eq!(AskError::ValidationError("m".to_string()).status_code(), 400);
    assert_eq!(AskError::UnexpectedError("m".to_string()).status_code(), 500);
    assert_eq!(BidError::ValidationError("m".to_string()).status_code(), 400);
    assert_eq!(BidError::UnexpectedError("m".to_string()).status_code(), 500);
    assert_eq!(PaidError::ValidationError("m".to_string()).status_code(), 400);
    assert_eq!(PaidError::UnexpectedError("m".to_string()).status_code(), 500);
    assert_eq!(NftTokensError::ValidationError("m".to_string()).status_code(), 400);
    assert_eq!(NftTokensError::UnexpectedError("m".to_string()).status_code(), 500);
    assert_eq!(IsOwnerError::ValidationError("m".to_string()).status_code(), 400);
    assert_eq!(IsOwnerError::UnexpectedError("m".to_string()).status_code(), 500);
    assert_eq!(ContractError::UnexpectedError("m".to_string()).status_code(), 500);
}

#[test]
fn route_error_messages_surface_validation_text() {
    assert_eq!(
        SaleError::ValidationError("The limit value must be positive.".to_string())
            .client_message(),
        "The limit value must be positive."
    );
    assert_eq!(
        PaidError::UnexpectedError("db down".to_string()).client_message(),
        "An unexpected error occurred."
    );
}

#[test]
fn environment_names() {
    assert_eq!(Environment::Local.as_str(), "local");
    assert_eq!(Environment::Production.as_str(), "production");
}

#[test]
fn environment_parse_ignores_ascii_case() {
    assert_eq!(Environment::try_from("LOCAL".to_string()).unwrap(), Environment::Local);
    assert_eq!(Environment::try_from("Production".to_string()).unwrap(), Environment::Production);
}

#[test]
fn environment_parse_rejects_anything_else() {
    let err = Environment::try_from("staging".to_string()).unwrap_err();
    assert_eq!(err, "staging is not a supported environment. Use either `local` or `production`");
}
