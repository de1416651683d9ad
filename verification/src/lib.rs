//! WarpNest: a local proxy pool over multiple authorized WARP instances.
pub mod codec;
pub mod config;
pub mod data_plane;
pub mod direct_public_warp_registration;
pub mod ip_text;
pub mod json_text;
pub mod observed_warp_material;
pub mod pool;
pub mod probe;
pub mod proxy;
pub mod proxy_auth;
pub mod public_warp_adapter;
pub mod public_warp_registration_harness;
pub mod real_warp_integration;
pub mod retry;
pub mod runtime_pump;
pub mod security;
pub mod state_store;
pub mod status;
pub mod text;
pub mod warp_lifecycle;
pub mod wireguard_fields;
