mod subscriptions;
mod subscriptions_confirm;

pub use subscriptions::{
    confirmation_html, confirmation_link, confirmation_link_text, confirmation_subject,
    confirmation_text, plan_subscription, status_code, subscription_after_insert,
    subscription_response, ResponseStatus, SubscribeFormData, SubscribeStep,
};
pub use subscriptions_confirm::Params;
