//! Server states, and the cost and consumption computed from them.
pub mod server_consumption;
pub mod server_cost;
pub mod server_state;
