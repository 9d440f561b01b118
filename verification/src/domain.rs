mod new_subscriber;
mod subscriber_email;
mod subscriber_name;

pub use new_subscriber::NewSubscriber;
pub use subscriber_email::{
    email_rejection_message, has_inner_at_sign, is_html5_email, SubscriberEmail,
};
pub use subscriber_name::{
    contains_forbidden_name_char, extended_grapheme_count, has_forbidden_name_char,
    has_white_space_property, is_ascii_case_change, is_ascii_letter, is_blank, is_blank_text,
    is_forbidden_name_char, is_too_long_name, lemma_ascii_case_change_keeps_name_rules,
    lemma_subscriber_name_rule,
    is_valid_subscriber_name, name_rejection_message, SubscriberName, MAX_SUBSCRIBER_NAME_LENGTH,
};
