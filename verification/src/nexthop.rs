//! Nexthop object management.

mod add;
mod builder;
mod del;
mod get;
mod handle;

pub use self::add::NexthopAddRequest;
pub use self::builder::NexthopMessageBuilder;
pub use self::del::NexthopDelRequest;
pub use self::get::{next_nexthop_message, NexthopGetRequest};
pub use self::handle::NexthopHandle;
