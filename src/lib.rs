//! SNMP notification receiver core: BER envelope codec, USM security
//! processing (key localization, HMAC integrity, timeliness, decryption)
//! and InformRequest acknowledgement.

pub mod auth;
pub mod ber;
pub mod cache;
pub mod cipher;
pub mod crypto;
pub mod error;
pub mod message;
pub mod parser;
pub mod settings;
pub mod usm;
