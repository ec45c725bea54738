//! Route management: the polymorphic builder with its family
//! validation, and the route requests.

mod add;
mod builder;
mod del;
mod get;
mod handle;

pub use self::add::RouteAddRequest;
pub use self::builder::{InvalidRouteMessage, RouteMessageBuilder, RouteNextHopBuilder};
pub use self::del::RouteDelRequest;
pub use self::get::{next_route_message, IpVersion, RouteGetRequest};
pub use self::handle::RouteHandle;
