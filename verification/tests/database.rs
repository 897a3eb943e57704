use zero2prod::configuration::DatabaseSettings;
use zero2prod::configuration::SecretString;
use zero2prod::database::pg_insert_statement;
use zero2prod::database::prepare_subscription_record;
use zero2prod::database::ConnectError;
use zero2prod::database::InMemoryPool;
use zero2prod::database::StorageError;
use zero2prod::database::Zero2ProdDatabase;
use zero2prod::database::ACQUIRE_TIMEOUT_SECS;
use zero2prod::database::DEFAULT_POOL_CAPACITY;
use zero2prod::domain::NewSubscriber;
use zero2prod::domain::SubscriberEmail;
use zero2prod::domain::SubscriberName;

fn sample_settings() -> DatabaseSettings {
    DatabaseSettings {
        username: "postgres".to_string(),
        password: SecretString::new("a-test-password".to_string()),
        port: 5432,
        host: "127.0.0.1".to_string(),
        database_name: "newsletter".to_string(),
        require_ssl: false,
    }
}

fn subscriber(email: &str, name: &str) -> NewSubscriber {
    NewSubscriber {
        email: SubscriberEmail::parse(email.to_string()).unwrap(),
        name: SubscriberName::parse(name.to_string()).unwrap(),
    }
}

#[test]
fn connecting_builds_an_empty_pool() {
    let pool = InMemoryPool::connect(&sample_settings()).unwrap();
    assert_eq!(pool.row_count(), 0);
}

#[test]
fn an_insert_commits_exactly_one_row() {
    let mut pool = InMemoryPool::connect(&sample_settings()).unwrap();
    let outcome = pool
        .insert_subscriber(&subscriber("ursula_le_guin@gmail.com", "le guin"))
        .unwrap();
    assert_eq!(outcome.rows_affected, 1);
    assert_eq!(pool.row_count(), 1);
    assert_eq!(
        pool.count_matching(&"ursula_le_guin@gmail.com".to_string(), &"le guin".to_string()),
        1
    );
}

#[test]
fn an_exhausted_pool_times_out_instead_of_blocking() {
    let mut pool = InMemoryPool::with_capacity(1);
    assert!(pool.acquire().is_ok());
    assert!(matches!(pool.acquire(), Err(ConnectError::PoolTimedOut)));
    let refused = pool.insert_subscriber(&subscriber("ursula_le_guin@gmail.com", "le guin"));
    assert!(matches!(
        refused,
        Err(StorageError::Connect(ConnectError::PoolTimedOut))
    ));
    assert_eq!(pool.row_count(), 0);
    pool.release();
    let accepted = pool.insert_subscriber(&subscriber("ursula_le_guin@gmail.com", "le guin"));
    assert!(accepted.is_ok());
    assert_eq!(pool.row_count(), 1);
}

#[test]
fn a_batch_within_capacity_commits_distinct_rows() {
    let mut pool = InMemoryPool::with_capacity(DEFAULT_POOL_CAPACITY);
    let inputs = [
        ("ursula_le_guin@gmail.com", "le guin"),
        ("arthur@clarke.example", "arthur clarke"),
        ("octavia@butler.example", "octavia butler"),
    ];
    for (email, name) in inputs {
        assert!(pool.insert_subscriber(&subscriber(email, name)).is_ok());
    }
    assert_eq!(pool.row_count(), 3);
    for (email, name) in inputs {
        assert_eq!(pool.count_matching(&email.to_string(), &name.to_string()), 1);
    }
    let ids = [pool.row_id(0), pool.row_id(1), pool.row_id(2)];
    assert!(ids[0] != ids[1] && ids[0] != ids[2] && ids[1] != ids[2]);
}

#[test]
fn prepared_records_carry_the_validated_fields_and_a_v4_id() {
    let record = prepare_subscription_record(&subscriber("ursula_le_guin@gmail.com", "le guin"));
    assert_eq!(record.email, "ursula_le_guin@gmail.com");
    assert_eq!(record.name, "le guin");
    assert_eq!((record.id >> 76) & 0xf, 4);
    assert_eq!((record.id >> 62) & 0x3, 2);
}

#[test]
fn two_prepared_records_differ_in_their_identifier() {
    let sub = subscriber("ursula_le_guin@gmail.com", "le guin");
    let first = prepare_subscription_record(&sub);
    let second = prepare_subscription_record(&sub);
    assert_ne!(first.id, second.id);
}

#[test]
fn the_insert_statement_is_the_single_expected_shape() {
    assert_eq!(
        pg_insert_statement(),
        "INSERT INTO subscriptions (id, email, name, subscribed_at) VALUES ($1, $2, $3, $4)"
    );
}

#[test]
fn the_acquire_timeout_is_two_seconds() {
    assert_eq!(ACQUIRE_TIMEOUT_SECS, 2);
}
