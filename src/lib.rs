//! Paid push notifications: a sender pays a fixed fee to reserve delivery of a
//! notification, and the updater designated at registration later discloses it.
//! Each notification is delivered at most once and charged at most once.

pub mod identity;
pub mod laws;
pub mod pushnotification;
pub mod state;

pub use identity::Identity;
pub use pushnotification::{init, prepaid_notification, send, update_and_send, Init, PrepaidNotification, Send, UpdateAndSend};
pub use state::{ErrorCode, FeeTransfer, MainData, Notification, NotificationSent, RecordState};
