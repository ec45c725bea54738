//! Address management: builders, requests, and the client-side dump
//! filter.

mod add;
mod builder;
mod del;
mod get;
mod handle;

pub use self::add::AddressAddRequest;
pub use self::builder::AddressMessageBuilder;
pub use self::del::AddressDelRequest;
pub use self::get::{next_address_message, AddressFilter, AddressGetRequest};
pub use self::handle::AddressHandle;
