pub mod api;
pub mod auth;
pub mod auto_snapshot;
pub mod chaos;
pub mod clock;
pub mod dns;
pub mod cluster;
pub mod hibernation;
pub mod oci;
pub mod ordered_map;
pub mod startup;
pub mod state;
pub mod str_map;
pub mod swarm;
pub mod text;
pub mod timemachine;
pub mod ui;
pub mod vm_service;
