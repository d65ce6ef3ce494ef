pub mod laws;
pub mod model;
pub mod raft;
pub mod raft_types;
pub mod network_plan;
