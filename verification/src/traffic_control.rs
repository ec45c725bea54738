//! Traffic-control management: qdiscs, filters, classes, chains and
//! standalone actions.

mod add_action;
mod add_filter;
mod add_qdisc;
mod del_action;
mod del_filter;
mod del_qdisc;
mod get;
mod handle;

pub use self::add_action::TrafficActionNewRequest;
pub use self::add_filter::TrafficFilterNewRequest;
pub use self::add_qdisc::QDiscNewRequest;
pub use self::del_action::TrafficActionDelRequest;
pub use self::del_filter::TrafficFilterDelRequest;
pub use self::del_qdisc::QDiscDelRequest;
pub use self::get::{
    next_tc_message, QDiscGetRequest, TrafficChainGetRequest, TrafficClassGetRequest, TrafficFilterGetRequest,
};
pub use self::handle::{
    QDiscHandle, TrafficChainHandle, TrafficClassHandle, TrafficFilterHandle,
};
