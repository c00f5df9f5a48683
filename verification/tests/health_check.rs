use zero2prod::response::HttpOutcome;
use zero2prod::routes::health_check;
use zero2prod::routes::subscriptions::subscribe;
use zero2prod::routes::subscriptions::StoreOutcome;

#[test]
fn health_check_works() {
    let response: HttpOutcome = health_check();

    assert!(response.is_success());
    assert_eq!(Some(0), Some(response.content_length()));
}

#[test]
fn health_check_answers_200_with_an_empty_body() {
    let response = health_check();

    assert_eq!(200, response.status());
    assert!(response.body.is_empty());
}

#[test]
fn subscribe_returns_a_200_for_valid_form_data() {
    let body = "name=aliocha%20karamazov&email=aliocha_karamazov%40email.com";

    let subscription = subscribe(body.as_bytes()).expect("Failed to execute the request.");
    let conclusion = subscription.conclude(StoreOutcome::Saved);

    assert_eq!(200, conclusion.response.status());
    assert_eq!(0, conclusion.response.content_length());

    let saved = subscription.subscriber;
    assert_eq!(saved.email, "aliocha_karamazov@email.com");
    assert_eq!(saved.name, "aliocha karamazov");
}

#[test]
fn subscribe_returns_a_400_when_data_is_missing() {
    let test_cases = vec![
        ("name=fyodor%karamazov", "missing the email value"),
        ("email=dimitri_karamazov@email.com", "missing the name value"),
        ("smerdiakov", "missing both name and email values"),
    ];

    for (invalid_body, error_message) in test_cases {
        let response = match subscribe(invalid_body.as_bytes()) {
            Err(response) => response,
            Ok(_) => panic!(
                "The API did not fail with 400 Bad Request when the payload was {}.",
                error_message
            ),
        };

        assert_eq!(
            400,
            response.status(),
            "The API did not fail with 400 Bad Request when the payload was {}.",
            error_message
        );
        assert_eq!(0, response.content_length());
    }
}
