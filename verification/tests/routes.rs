use zero2prod::database::InMemoryPool;
use zero2prod::database::QueryOutcome;
use zero2prod::database::StorageError;
use zero2prod::routes::build_new_subscriber;
use zero2prod::routes::greet;
use zero2prod::routes::handle_subscription_request;
use zero2prod::routes::health_check;
use zero2prod::routes::insert_outcome_status;
use zero2prod::routes::subscribe;
use zero2prod::routes::FormData;

#[test]
fn health_check_works() {
    let response = health_check();
    assert_eq!(response.status, 200);
    assert_eq!(response.body.len(), 0);
}

#[test]
fn greet_answers_with_the_fixed_greeting() {
    let response = greet();
    assert_eq!(response.status, 200);
    assert_eq!(response.body, "Hello World!");
}

#[test]
fn subscribe_returns_a_200_for_valid_form_data() {
    let mut pool = InMemoryPool::with_capacity(10);
    let response = handle_subscription_request(
        Some("le guin".to_string()),
        Some("ursula_le_guin@gmail.com".to_string()),
        &mut pool,
    );
    assert_eq!(response.status, 200);
    assert_eq!(response.body.len(), 0);
    assert_eq!(
        pool.count_matching(&"ursula_le_guin@gmail.com".to_string(), &"le guin".to_string()),
        1
    );
    assert_eq!(pool.row_count(), 1);
}

#[test]
fn subscribe_returns_a_400_when_data_is_missing() {
    let test_cases: [(Option<&str>, Option<&str>, &str); 3] = [
        (Some("le guin"), None, "missing the email"),
        (None, Some("ursula_le_guin@gmail.com"), "missing the name"),
        (None, None, "missing both name and email"),
    ];
    for (name, email, error_message) in test_cases {
        let mut pool = InMemoryPool::with_capacity(10);
        let response = handle_subscription_request(
            name.map(str::to_string),
            email.map(str::to_string),
            &mut pool,
        );
        assert_eq!(
            response.status, 400,
            "the request was not refused when the payload was {}",
            error_message
        );
        assert_eq!(pool.row_count(), 0, "a row was inserted {}", error_message);
    }
}

#[test]
fn subscribe_returns_a_400_when_a_field_is_invalid() {
    let test_cases = [
        ("", "ursula_le_guin@gmail.com"),
        ("Ursula {Le Guin}", "ursula_le_guin@gmail.com"),
        ("le guin", ""),
        ("le guin", "definitely-not-an-email"),
    ];
    for (name, email) in test_cases {
        let mut pool = InMemoryPool::with_capacity(10);
        let response = subscribe(
            FormData { email: email.to_string(), name: name.to_string() },
            &mut pool,
        );
        assert_eq!(response.status, 400, "accepted name {:?} email {:?}", name, email);
        assert_eq!(pool.row_count(), 0);
    }
}

#[test]
fn subscribe_returns_a_500_when_no_connection_is_free() {
    let mut pool = InMemoryPool::with_capacity(0);
    let response = subscribe(
        FormData {
            email: "ursula_le_guin@gmail.com".to_string(),
            name: "le guin".to_string(),
        },
        &mut pool,
    );
    assert_eq!(response.status, 500);
    assert_eq!(response.body.len(), 0);
    assert_eq!(pool.row_count(), 0);
}

#[test]
fn building_a_subscriber_reports_the_first_refusal() {
    let name_refused = build_new_subscriber(FormData {
        email: "ursula_le_guin@gmail.com".to_string(),
        name: "/".to_string(),
    })
    .unwrap_err();
    assert_eq!(name_refused, "/ is not a valid subscriber name.");

    let email_refused = build_new_subscriber(FormData {
        email: "ursuladomain.com".to_string(),
        name: "le guin".to_string(),
    })
    .unwrap_err();
    assert_eq!(email_refused, "ursuladomain.com is not a valid subscriber email.");
}

#[test]
fn storage_outcomes_map_to_the_expected_statuses() {
    let ok: Result<QueryOutcome, StorageError> = Ok(QueryOutcome { rows_affected: 1 });
    assert_eq!(insert_outcome_status(&ok), 200);
    let constraint: Result<QueryOutcome, StorageError> = Err(StorageError::ConstraintViolation);
    assert_eq!(insert_outcome_status(&constraint), 500);
    let transport: Result<QueryOutcome, StorageError> = Err(StorageError::Transport);
    assert_eq!(insert_outcome_status(&transport), 500);
}
