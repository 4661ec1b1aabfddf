//! The request handlers of the service.

pub mod health_check;
pub mod subscriptions;

pub use health_check::health_check;
pub use subscriptions::{
    get_subscribers, insert_subscriber, subscribe, subscribe_body, subscriber_at, subscriber_row, subscription_stored, FormData, FormError,
    SubscribeAction, Subscriber,
};
