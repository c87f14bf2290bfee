//! BTC-to-Ark swaps: the rules, messages and state machines of a three-message exchange of
//! on-chain BTC for Ark VTXOs.

pub mod adaptor;
pub mod address;
pub mod ark_types;
pub mod artifacts;
pub mod bytes;
pub mod chain;
pub mod claim;
pub mod claim_flow;
pub mod commitment;
pub mod error;
pub mod fee;
pub mod flow;
pub mod fund_flow;
pub mod genesis;
pub mod hex;
pub mod json;
pub mod keys;
pub mod live;
pub mod lock;
pub mod manual_flow;
pub mod musig;
pub mod observe_flow;
pub mod offer;
pub mod offer_flow;
pub mod progress_flow;
pub mod psbt;
pub mod recovery_flow;
pub mod refund;
pub mod refund_flow;
pub mod relay;
pub mod request_flow;
pub mod response;
pub mod role;
pub mod scalar;
pub mod script;
pub mod state;
pub mod swap_id;
pub mod text;
pub mod transfer_flow;
pub mod tx;
pub mod txfee;
pub mod validation;
