use crate::domain::SubscriberEmail;
use crate::secret::SecretString;
use vstd::prelude::*;

verus! {

/// What is needed to have the e-mail delivery service send a message: its
/// base address, the sender's address and the service's token.
pub struct EmailClient {
    pub base_url: String,
    pub sender: SubscriberEmail,
    pub authorization_token: SecretString,
}

/// The body of a request to send one e-mail.
pub struct SendEmailRequest {
    pub from: String,
    pub to: String,
    pub subject: String,
    pub html_body: String,
    pub text_body: String,
}

/// The address that e-mails are posted to, below the base address.
pub open spec fn email_endpoint(base_url: Seq<char>) -> Seq<char> {
    base_url + "/email"@
}

/// The endpoint is the base address itself, followed by `/email`.
pub proof fn lemma_email_endpoint_fields(base_url: Seq<char>)
    ensures
        email_endpoint(base_url).take(base_url.len() as int) == base_url,
        email_endpoint(base_url).skip(base_url.len() as int) == "/email"@,
        email_endpoint(base_url).len() == base_url.len() + 6,
{
    reveal_strlit("/email");
    assert(email_endpoint(base_url).take(base_url.len() as int) =~= base_url);
    assert(email_endpoint(base_url).skip(base_url.len() as int) =~= "/email"@);
}

impl EmailClient {
    /// A client of the delivery service at `base_url`.
    pub fn new(base_url: String, sender: SubscriberEmail, authorization_token: SecretString) -> (client: Self)
        ensures
            client.base_url == base_url,
            client.sender == sender,
            client.authorization_token == authorization_token,
    {
        EmailClient { base_url, sender, authorization_token }
    }

    /// The address that a message is posted to.
    pub fn email_url(&self) -> (url: String)
        ensures
            url@ == email_endpoint(self.base_url@),
            url@ == self.base_url@ + "/email"@,
    {
        let mut url = self.base_url.clone();
        url.append("/email");
        url
    }

    /// The request that sends `recipient` the message with this subject and
    /// these HTML and plain-text contents, from the client's sender.
    pub fn email_request(
        &self,
        recipient: SubscriberEmail,
        subject: &str,
        html_content: &str,
        text_content: &str,
    ) -> (request: SendEmailRequest)
        ensures
            request.from@ == self.sender@,
            request.to@ == recipient@,
            request.subject@ == subject@,
            request.html_body@ == html_content@,
            request.text_body@ == text_content@,
    {
        SendEmailRequest {
            from: String::from_str(self.sender.as_ref()),
            to: recipient.0,
            subject: String::from_str(subject),
            html_body: String::from_str(html_content),
            text_body: String::from_str(text_content),
        }
    }
}

} // verus!
