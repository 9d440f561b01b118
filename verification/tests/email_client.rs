use newsletter_rs::domain::SubscriberEmail;
use newsletter_rs::email_client::EmailClient;
use newsletter_rs::secret::SecretString;

fn client() -> EmailClient {
    let sender = SubscriberEmail::parse("sender@example.com".to_string()).unwrap();
    EmailClient::new(
        "http://127.0.0.1:9999".to_string(),
        sender,
        SecretString::new("token".to_string()),
    )
}

#[test]
fn new_keeps_its_arguments() {
    let client = client();
    assert_eq!(client.base_url, "http://127.0.0.1:9999");
    assert_eq!(client.sender.as_ref(), "sender@example.com");
    assert_eq!(client.authorization_token.expose_secret(), "token");
}

#[test]
fn email_is_posted_below_the_base_url() {
    assert_eq!(client().email_url(), "http://127.0.0.1:9999/email");
}

#[test]
fn request_carries_sender_recipient_and_contents() {
    let recipient = SubscriberEmail::parse("ursula_le_guin@gmail.com".to_string()).unwrap();
    let request = client().email_request(recipient, "Welcome", "<p>Hi</p>", "Hi");
    assert_eq!(request.from, "sender@example.com");
    assert_eq!(request.to, "ursula_le_guin@gmail.com");
    assert_eq!(request.subject, "Welcome");
    assert_eq!(request.html_body, "<p>Hi</p>");
    assert_eq!(request.text_body, "Hi");
}
