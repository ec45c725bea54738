//! Policy routing rule management.

mod add;
mod del;
mod get;
mod handle;

pub use self::add::RuleAddRequest;
pub use self::del::RuleDelRequest;
pub use self::get::{next_rule_message, RuleGetRequest};
pub use self::handle::RuleHandle;
