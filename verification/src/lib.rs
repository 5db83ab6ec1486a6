//! Backend logic of an RPC interceptor: device pairing, passkey challenges,
//! session-gated RPC forwarding and transaction simulation summaries.
use vstd::prelude::*;

pub mod text;
pub mod codes;
pub mod ascii;
pub mod tenderly;
pub mod tenderly_laws;
pub mod encoding;
pub mod passkey_store;
pub mod passkeys;
pub mod passkey_laws;
pub mod rpc;
pub mod sim_input;
pub mod sim_input_laws;
pub mod pairing_store;
pub mod pairing;
pub mod pairing_laws;

verus! {

} // verus!
