//! The domain model: validated subscriber names and email addresses, and the
//! value object built from them.

mod new_subscriber;
mod subscriber_email;
mod subscriber_name;

pub use new_subscriber::NewSubscriber;
pub use subscriber_email::email_parse_post;
pub use subscriber_email::email_valid;
pub use subscriber_email::lemma_accepted_email_parses;
pub use subscriber_email::lemma_email_parse_deterministic;
pub use subscriber_email::SubscribeEmailExt;
pub use subscriber_email::SubscriberEmail;
pub use subscriber_email::SubscriberParseError;
pub use subscriber_email::SubscriberParseResult;
pub use subscriber_name::forbidden_char;
pub use subscriber_name::lemma_name_parse_deterministic;
pub use subscriber_name::name_parse_post;
pub use subscriber_name::name_valid;
pub use subscriber_name::whitespace_char;
pub use subscriber_name::SubscriberName;
