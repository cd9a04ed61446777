//! Verified core of the cult token backend: Merkle airdrop data for
//! communities and the diamond-hand list, weighted sampling, webhook event
//! preparation, referral codes and the small decision rules of the HTTP
//! handlers. Database, network and serialisation work lives in the
//! application crate around this library.
pub mod text;
pub mod hexcodec;
pub mod merkle;
pub mod address;
pub mod community;
pub mod diamond_hands;
pub mod events;
pub mod service;
pub mod referral;
pub mod account;
pub mod numparse;
pub mod prices;
pub mod websocket;
pub mod models;
