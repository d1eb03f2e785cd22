//! Value types that hold subscriber data which has passed validation.

mod new_subscriber;
mod subscriber_email;
mod subscriber_name;

pub use new_subscriber::{validated, validation_view, NewSubscriber, NewSubscriberView};
pub use subscriber_email::SubscriberEmail;
pub use subscriber_email::{email_syntax_is_valid, has_local_and_domain};
pub use subscriber_name::SubscriberName;
pub use subscriber_name::{
    extended_grapheme_count, findings_allow, has_forbidden_character, is_blank, is_control,
    is_forbidden, is_punctuation, is_symbol, is_whitespace, name_is_valid, MAX_NAME_LENGTH,
};
