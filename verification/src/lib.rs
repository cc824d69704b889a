//! Hemion: the verified core of a local-first developer console and its
//! legacy multi-chain wallet tools.

pub mod text;
pub mod finality;
pub mod codec;
pub mod lifecycle;
pub mod chain;
pub mod crypto;
pub mod chains;
pub mod key_manager;
pub mod storage;
pub mod records;
pub mod state;
pub mod ids;
pub mod portable;
pub mod session;
pub mod navigation;
pub mod explorer;
pub mod accountability;
pub mod transfer_form;
pub mod inspector;
pub mod offline;
pub mod wallet_forms;
pub mod zk_proofs;
pub mod persistence;
