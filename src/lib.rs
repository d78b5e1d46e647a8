//! A simulated relay chain and parachains, wired together in one process so
//! that upward, downward and horizontal messages can be exercised in tests.
pub mod location;
pub mod config;
pub mod inherent;
pub mod chain;
pub mod traits;
pub mod parachain;
pub mod relay_chain;
pub mod network;
pub mod mock_net;
pub mod kusama_net;
