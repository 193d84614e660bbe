//! A peer-to-peer broadcast substrate: typed packets, per-peer health statistics, the routing
//! of outbound frames to subscribers, and the decisions taken on the receive path.
//!
//! - [`packet`]: packets, their receipts and roundtrip times;
//! - [`perfstats`]: the health statistics a peer keeps of what it receives;
//! - [`routing`]: the subscriber table and which subscribers each outbound packet reaches;
//! - [`receiving`]: which peers are read, the connection retry budget, and what each line read
//!   from a peer amounts to;
//! - [`network`]: what the local handler does with an inbound packet, and heartbeats;
//! - [`mock_network`]: an in-process stand-in for the network;
//! - [`time`]: wall-clock instants.
pub mod mock_network;
pub mod network;
pub mod packet;
pub mod perfstats;
pub mod receiving;
pub mod routing;
pub mod time;
