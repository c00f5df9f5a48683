use zero2prod::clock::Timestamp;
use zero2prod::identity::Id;
use zero2prod::routes::subscriptions::reject;
use zero2prod::routes::subscriptions::subscribe;
use zero2prod::routes::subscriptions::FormData;
use zero2prod::routes::subscriptions::FormError;
use zero2prod::routes::subscriptions::FormField;
use zero2prod::routes::subscriptions::StoreOutcome;
use zero2prod::routes::subscriptions::Subscription;
use zero2prod::routes::subscriptions::INSERT_SUBSCRIBER;
use zero2prod::telemetry::Level;

fn form() -> FormData {
    FormData { email: "ursula@example.com".to_string(), name: "ursula".to_string() }
}

fn waiting() -> Subscription {
    Subscription::new(
        form(),
        Id::from_u128(0xa1a2a3a4_b1b2_41c2_91d2_d3d4d5d6d7d8),
        Id::from_u128(0x00000000_0000_4000_8000_000000000001),
        Timestamp::new(1_700_000_000, 5),
    )
}

#[test]
fn a_subscription_holds_what_it_was_made_of() {
    let subscription = waiting();

    assert_eq!(subscription.context.request_id.as_u128(), 0xa1a2a3a4_b1b2_41c2_91d2_d3d4d5d6d7d8);
    assert_eq!(subscription.subscriber.id.as_u128(), 0x00000000_0000_4000_8000_000000000001);
    assert_eq!(subscription.subscriber.email, "ursula@example.com");
    assert_eq!(subscription.subscriber.name, "ursula");
    assert_eq!(subscription.subscriber.subscribed_at, Timestamp { secs: 1_700_000_000, nanos: 5 });
}

#[test]
fn a_saved_row_ends_in_200_and_an_info_line() {
    let conclusion = waiting().conclude(StoreOutcome::Saved);

    assert_eq!(conclusion.response.status(), 200);
    assert!(conclusion.response.body.is_empty());
    assert_eq!(conclusion.log.level, Level::Info);
    assert_eq!(conclusion.log.request_id, Id::from_u128(0xa1a2a3a4_b1b2_41c2_91d2_d3d4d5d6d7d8));
    assert_eq!(
        conclusion.log.message,
        "request_id a1a2a3a4-b1b2-41c2-91d2-d3d4d5d6d7d8 - successfully saved new subscriber details to database"
    );
}

#[test]
fn a_failed_insert_ends_in_500_and_an_error_line() {
    let conclusion = waiting().conclude(StoreOutcome::Failed("PoolTimedOut".to_string()));

    assert_eq!(conclusion.response.status(), 500);
    assert!(conclusion.response.body.is_empty());
    assert!(!conclusion.response.is_success());
    assert_eq!(conclusion.log.level, Level::Error);
    assert_eq!(conclusion.log.request_id, Id::from_u128(0xa1a2a3a4_b1b2_41c2_91d2_d3d4d5d6d7d8));
    assert_eq!(
        conclusion.log.message,
        "request_id a1a2a3a4-b1b2-41c2-91d2-d3d4d5d6d7d8 - failed to execute query to insert new subscriber: PoolTimedOut"
    );
}

#[test]
fn every_decoding_error_is_answered_with_400() {
    let errors = vec![
        FormError::Missing(FormField::Email),
        FormError::Missing(FormField::Name),
        FormError::Duplicate(FormField::Email),
        FormError::Duplicate(FormField::Name),
    ];

    for error in errors {
        let response = reject(error);
        assert_eq!(response.status(), 400);
        assert_eq!(response.content_length(), 0);
    }
}

#[test]
fn a_submission_draws_two_random_identifiers() {
    let subscription = subscribe(b"email=a%40b.c&name=ann").unwrap();

    assert!(subscription.context.request_id.is_random());
    assert!(subscription.subscriber.id.is_random());
    let id = uuid::Uuid::from_u128(subscription.subscriber.id.as_u128());
    assert_eq!(id.get_version_num(), 4);
    assert_eq!(id.get_variant(), uuid::Variant::RFC4122);
    assert_ne!(subscription.context.request_id, subscription.subscriber.id);
}

#[test]
fn a_submission_is_stamped_with_the_time_of_the_call() {
    let before = chrono::Utc::now();
    let subscription = subscribe(b"email=a%40b.c&name=ann").unwrap();
    let after = chrono::Utc::now();

    let at = subscription.subscriber.subscribed_at;
    let at = chrono::DateTime::from_timestamp(at.secs, at.nanos).unwrap();
    assert!(before <= at);
    assert!(at <= after);
    assert!(subscription.subscriber.subscribed_at.secs >= 0);
    assert!(subscription.subscriber.subscribed_at.nanos < 1_000_000_000);
}

#[test]
fn the_same_email_twice_makes_two_rows() {
    let body = b"email=twice%40example.com&name=twice";

    let first = subscribe(body).unwrap();
    let second = subscribe(body).unwrap();

    assert_eq!(first.subscriber.email, "twice@example.com");
    assert_eq!(second.subscriber.email, "twice@example.com");
    assert_ne!(first.subscriber.id, second.subscriber.id);
    assert_ne!(first.context.request_id, second.context.request_id);
    assert_eq!(first.conclude(StoreOutcome::Saved).response.status(), 200);
    assert_eq!(second.conclude(StoreOutcome::Saved).response.status(), 200);
}

#[test]
fn two_submissions_with_distinct_emails_are_both_taken_in() {
    let first = subscribe(b"email=one%40example.com&name=one").unwrap();
    let second = subscribe(b"email=two%40example.com&name=two").unwrap();

    assert_eq!(first.subscriber.email, "one@example.com");
    assert_eq!(first.subscriber.name, "one");
    assert_eq!(second.subscriber.email, "two@example.com");
    assert_eq!(second.subscriber.name, "two");
    assert_ne!(first.subscriber.id, second.subscriber.id);
}

#[test]
fn the_insert_names_the_four_columns_in_order() {
    assert_eq!(
        INSERT_SUBSCRIBER,
        "INSERT INTO subscriptions (id, email, name, subscribed_at) VALUES ($1, $2, $3, $4)"
    );
}
