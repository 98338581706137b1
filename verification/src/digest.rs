//! The SHA-256 digest that names a certificate of completion, computed by the
//! Soroban host.
use vstd::prelude::*;

verus! {

/// The Soroban environment, through which the host computes digests.
#[verifier::external_type_specification]
#[verifier::external_body]
pub struct ExEnv(soroban_sdk::Env);

/// The SHA-256 digest of `data`.
pub uninterp spec fn sha256_of(data: Seq<u8>) -> Seq<u8>;

/// Calls `soroban_sdk::crypto::Crypto::sha256` (through `env.crypto()`) on a byte string
/// holding `data`. The contract claims only that the 32 bytes returned are the SHA-256
/// digest of `data`, which depends on `data` alone; it does not say what they are. The
/// host charges the work to the environment's budget, and a call that exhausts the budget
/// does not return: nothing here states when that happens.
#[verifier::external_body]
pub(crate) fn sha256(env: &soroban_sdk::Env, data: &[u8]) -> (h: [u8; 32])
    ensures
        h@ == sha256_of(data@),
{
    env.crypto().sha256(&soroban_sdk::Bytes::from_slice(env, data)).to_array()
}

} // verus!
