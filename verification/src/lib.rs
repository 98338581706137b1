//! Verified core of the Mithaq escrow platform: the state machines of the
//! Azman token, the certificate registry, the governance contract and the
//! escrow contract with its hybrid liquidity engine.

pub mod common;
pub mod certificate;
pub mod digest;
pub mod escrow;
pub mod governance;
pub mod liquidity;
pub mod token;
