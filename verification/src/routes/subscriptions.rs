use crate::domain::{
    is_html5_email, is_valid_subscriber_name, NewSubscriber, SubscriberEmail, SubscriberName,
};
use crate::email_client::{EmailClient, SendEmailRequest};
use crate::text::{decimal, digits_value, is_digit_text, lemma_decimal_reads_back, push_decimal};
use vstd::prelude::*;

verus! {

/// The form of a subscription request.
pub struct SubscribeFormData {
    pub name: String,
    pub email: String,
}

/// The statuses that the service answers with.
#[derive(Debug, Clone, Copy, PartialEq, Eq, Structural)]
pub enum ResponseStatus {
    Success,
    BadRequest,
    InternalServerError,
}

/// The HTTP status code of a status.
pub open spec fn status_code(status: ResponseStatus) -> u16 {
    match status {
        ResponseStatus::Success => 200,
        ResponseStatus::BadRequest => 400,
        ResponseStatus::InternalServerError => 500,
    }
}

impl ResponseStatus {
    /// The HTTP status code.
    pub fn code(&self) -> (code: u16)
        ensures
            code == status_code(*self),
    {
        match self {
            ResponseStatus::Success => 200,
            ResponseStatus::BadRequest => 400,
            ResponseStatus::InternalServerError => 500,
        }
    }
}

/// What a step of a subscription leads to: an answer, the new subscriber to
/// be stored, or the confirmation e-mail to be sent.
pub enum SubscribeStep {
    Respond(ResponseStatus),
    Insert(NewSubscriber),
    SendConfirmation(SendEmailRequest),
}

/// `http://host:port/subscriptions/confirm?subscription_token=token`.
pub open spec fn confirmation_link_text(host: Seq<char>, port: u16, token: Seq<char>) -> Seq<char> {
    "http://"@ + host + ":"@ + decimal(port as nat) + "/subscriptions/confirm?subscription_token="@
        + token
}

/// The subject of the confirmation e-mail.
pub open spec fn confirmation_subject() -> Seq<char> {
    "Welcome!"@
}

/// The HTML body of the confirmation e-mail, with the link in it once.
pub open spec fn confirmation_html(link: Seq<char>) -> Seq<char> {
    "Welcome to our newsletter!<br />Click <a href=\""@ + link
        + "\">here</a> to confirm your subscription."@
}

/// The plain-text body of the confirmation e-mail, with the link in it once.
pub open spec fn confirmation_text(link: Seq<char>) -> Seq<char> {
    "Welcome to our newsletter!\nVisit "@ + link + " to confirm your subscription."@
}

/// The status codes: 200, 400 and 500.
pub proof fn lemma_status_codes()
    ensures
        status_code(ResponseStatus::Success) == 200,
        status_code(ResponseStatus::BadRequest) == 400,
        status_code(ResponseStatus::InternalServerError) == 500,
{
}

/// The confirmation link is `http://`, the host, `:`, the port's digits
/// (which read back as the port), the confirmation route with its query key,
/// and the token at the end.
pub proof fn lemma_confirmation_link_fields(host: Seq<char>, port: u16, token: Seq<char>)
    ensures
        ({
            let t = confirmation_link_text(host, port, token);
            let h: int = 7int + host.len();
            let r: int = t.len() - token.len() - 42;
            &&& t.take(7) == "http://"@
            &&& t.subrange(7, h) == host
            &&& t[h] == ':'
            &&& is_digit_text(t.subrange(h + 1, r))
            &&& digits_value(t.subrange(h + 1, r)) == port
            &&& t.subrange(r, t.len() - token.len()) == "/subscriptions/confirm?subscription_token="@
            &&& t.skip(t.len() - token.len()) == token
        }),
{
    reveal_strlit("http://");
    reveal_strlit(":");
    reveal_strlit("/subscriptions/confirm?subscription_token=");
    lemma_decimal_reads_back(port as nat);
    let t = confirmation_link_text(host, port, token);
    let h: int = 7int + host.len();
    let r: int = t.len() - token.len() - 42;
    let d = decimal(port as nat);
    assert(r == h + 1 + d.len());
    assert(t.take(7) =~= "http://"@);
    assert(t.subrange(7, h) =~= host);
    assert(t.subrange(h + 1, r) =~= d);
    assert(t.subrange(r, t.len() - token.len()) =~= "/subscriptions/confirm?subscription_token="@);
    assert(t.skip(t.len() - token.len()) =~= token);
}

/// Both bodies of the confirmation e-mail hold the link, whole, after their
/// opening words.
pub proof fn lemma_confirmation_bodies_hold_the_link(link: Seq<char>)
    ensures
        confirmation_html(link).subrange(47, 47int + link.len()) == link,
        confirmation_text(link).subrange(33, 33int + link.len()) == link,
        confirmation_subject() == "Welcome!"@,
{
    reveal_strlit("Welcome to our newsletter!<br />Click <a href=\"");
    reveal_strlit("Welcome to our newsletter!\nVisit ");
    assert(confirmation_html(link).subrange(47, 47int + link.len()) =~= link);
    assert(confirmation_text(link).subrange(33, 33int + link.len()) =~= link);
}

/// The link that confirms the subscription holding `subscription_token`, on
/// the service listening at `host` and `port`.
pub fn confirmation_link(host: &str, port: u16, subscription_token: &str) -> (link: String)
    ensures
        link@ == confirmation_link_text(host@, port, subscription_token@),
{
    let mut link = String::from_str("http://");
    link.append(host);
    link.append(":");
    push_decimal(&mut link, port);
    link.append("/subscriptions/confirm?subscription_token=");
    link.append(subscription_token);
    link
}

/// The first step of a subscription: the form is answered with 400 when its
/// name or its e-mail address is refused; otherwise the subscriber it names
/// is to be stored.
pub fn plan_subscription(form: SubscribeFormData) -> (step: SubscribeStep)
    ensures
        match step {
            SubscribeStep::Insert(subscriber) => {
                &&& is_valid_subscriber_name(form.name@)
                &&& is_html5_email(form.email@)
                &&& subscriber.name@ == form.name@
                &&& subscriber.email@ == form.email@
            },
            SubscribeStep::Respond(status) => {
                &&& status == ResponseStatus::BadRequest
                &&& !(is_valid_subscriber_name(form.name@) && is_html5_email(form.email@))
            },
            SubscribeStep::SendConfirmation(_) => false,
        },
{
    let name = match SubscriberName::parse(form.name) {
        Ok(name) => name,
        Err(_) => return SubscribeStep::Respond(ResponseStatus::BadRequest),
    };
    let email = match SubscriberEmail::parse(form.email) {
        Ok(email) => email,
        Err(_) => return SubscribeStep::Respond(ResponseStatus::BadRequest),
    };
    SubscribeStep::Insert(NewSubscriber { email, name })
}

/// The step after storing the subscriber: 500 when the store failed;
/// otherwise one e-mail to the new subscriber, from the client's sender,
/// welcoming them and carrying the confirmation link.
pub fn subscription_after_insert(
    stored: bool,
    email_client: &EmailClient,
    subscriber: NewSubscriber,
    confirmation_link: &str,
) -> (step: SubscribeStep)
    ensures
        !stored ==> (step matches SubscribeStep::Respond(status) && status
            == ResponseStatus::InternalServerError),
        stored ==> (step matches SubscribeStep::SendConfirmation(request) && {
            &&& request.from@ == email_client.sender@
            &&& request.to@ == subscriber.email@
            &&& request.subject@ == confirmation_subject()
            &&& request.html_body@ == confirmation_html(confirmation_link@)
            &&& request.text_body@ == confirmation_text(confirmation_link@)
        }),
{
    if !stored {
        return SubscribeStep::Respond(ResponseStatus::InternalServerError);
    }
    let mut html = String::from_str("Welcome to our newsletter!<br />Click <a href=\"");
    html.append(confirmation_link);
    html.append("\">here</a> to confirm your subscription.");
    let mut text = String::from_str("Welcome to our newsletter!\nVisit ");
    text.append(confirmation_link);
    text.append(" to confirm your subscription.");
    let request = email_client.email_request(
        subscriber.email,
        "Welcome!",
        html.as_str(),
        text.as_str(),
    );
    SubscribeStep::SendConfirmation(request)
}

/// The answer once the confirmation e-mail was sent (200) or could not be
/// (500).
pub fn subscription_response(sent: bool) -> (status: ResponseStatus)
    ensures
        sent ==> status == ResponseStatus::Success,
        !sent ==> status == ResponseStatus::InternalServerError,
{
    if sent {
        ResponseStatus::Success
    } else {
        ResponseStatus::InternalServerError
    }
}

} // verus!
