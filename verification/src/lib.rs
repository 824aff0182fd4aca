//! Command-admission gate for an embodied agent.
//!
//! Every incoming request ("want") must pass an identity self-check, a
//! safety-budget check, an entropy-derived classification, and (for numeric
//! opcode commands) a cost-metered dispatch before any side effect is
//! allowed. A companion retracement engine applies the same bounded-budget
//! philosophy to a sliding window of price observations.

pub mod admission;
pub mod buffer;
pub mod entropy;
pub mod errors;
pub mod func_id;
pub mod ledger;
pub mod martingale;
pub mod mirror;
pub mod opcodes;
pub mod rainkey;
pub mod relay;
pub mod synod;
pub mod text;
pub mod wants;
