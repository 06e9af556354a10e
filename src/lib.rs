pub mod address;
pub mod error;
pub mod hex_text;
pub mod message;
pub mod payload;
pub mod provider;
pub mod receipt;
pub mod response;
pub mod routing_ism;
pub mod validator_announce;
