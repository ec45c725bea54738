//! Neighbour (ARP/NDP and bridge FDB) management.

mod add;
mod del;
mod get;
mod handle;

pub use self::add::NeighbourAddRequest;
pub use self::del::NeighbourDelRequest;
pub use self::get::{next_neighbour_message, NeighbourGetRequest};
pub use self::handle::NeighbourHandle;
