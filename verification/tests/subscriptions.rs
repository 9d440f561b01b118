use newsletter_rs::domain::SubscriberEmail;
use newsletter_rs::email_client::EmailClient;
use newsletter_rs::routes::{
    confirmation_link, plan_subscription, subscription_after_insert, subscription_response,
    ResponseStatus, SubscribeFormData, SubscribeStep,
};
use newsletter_rs::secret::SecretString;

fn form(name: &str, email: &str) -> SubscribeFormData {
    SubscribeFormData { name: name.to_string(), email: email.to_string() }
}

#[test]
fn valid_form_leads_to_storing_the_subscriber() {
    match plan_subscription(form("le guin", "ursula_le_guin@gmail.com")) {
        SubscribeStep::Insert(subscriber) => {
            assert_eq!(subscriber.name.as_ref(), "le guin");
            assert_eq!(subscriber.email.as_ref(), "ursula_le_guin@gmail.com");
        }
        _ => panic!("a valid form was not to be stored"),
    }
}

#[test]
fn invalid_name_is_answered_with_400() {
    match plan_subscription(form("()<>", "ursula_le_guin@gmail.com")) {
        SubscribeStep::Respond(status) => {
            assert_eq!(status, ResponseStatus::BadRequest);
            assert_eq!(status.code(), 400);
        }
        _ => panic!("an invalid name was accepted"),
    }
}

#[test]
fn invalid_email_is_answered_with_400() {
    match plan_subscription(form("le guin", "ursula_le_guin")) {
        SubscribeStep::Respond(status) => assert_eq!(status.code(), 400),
        _ => panic!("an invalid address was accepted"),
    }
    match plan_subscription(form("", "")) {
        SubscribeStep::Respond(status) => assert_eq!(status.code(), 400),
        _ => panic!("an empty form was accepted"),
    }
}

fn client() -> EmailClient {
    EmailClient::new(
        "http://127.0.0.1:9999".to_string(),
        SubscriberEmail::parse("sender@example.com".to_string()).unwrap(),
        SecretString::new("token".to_string()),
    )
}

fn new_subscriber() -> newsletter_rs::domain::NewSubscriber {
    match plan_subscription(form("le guin", "ursula_le_guin@gmail.com")) {
        SubscribeStep::Insert(subscriber) => subscriber,
        _ => panic!("a valid form was not to be stored"),
    }
}

#[test]
fn confirmation_link_points_at_the_confirm_route() {
    assert_eq!(
        confirmation_link("127.0.0.1", 8000, "abc123"),
        "http://127.0.0.1:8000/subscriptions/confirm?subscription_token=abc123"
    );
}

#[test]
fn stored_subscriber_is_sent_one_confirmation_email_with_the_link() {
    let link = confirmation_link("127.0.0.1", 8000, "abc123");
    match subscription_after_insert(true, &client(), new_subscriber(), &link) {
        SubscribeStep::SendConfirmation(request) => {
            assert_eq!(request.from, "sender@example.com");
            assert_eq!(request.to, "ursula_le_guin@gmail.com");
            assert_eq!(request.subject, "Welcome!");
            assert_eq!(request.html_body.matches(link.as_str()).count(), 1);
            assert_eq!(request.text_body.matches(link.as_str()).count(), 1);
            assert_eq!(
                request.html_body,
                format!("Welcome to our newsletter!<br />Click <a href=\"{}\">here</a> to confirm your subscription.", link)
            );
            assert_eq!(
                request.text_body,
                format!("Welcome to our newsletter!\nVisit {} to confirm your subscription.", link)
            );
        }
        _ => panic!("no confirmation e-mail after a successful store"),
    }
}

#[test]
fn failed_store_is_answered_with_500_and_sends_nothing() {
    match subscription_after_insert(false, &client(), new_subscriber(), "http://127.0.0.1:1/x") {
        SubscribeStep::Respond(status) => assert_eq!(status.code(), 500),
        _ => panic!("a failed store went on"),
    }
}

#[test]
fn sending_decides_between_200_and_500() {
    assert_eq!(subscription_response(true), ResponseStatus::Success);
    assert_eq!(subscription_response(true).code(), 200);
    assert_eq!(subscription_response(false), ResponseStatus::InternalServerError);
    assert_eq!(subscription_response(false).code(), 500);
}
