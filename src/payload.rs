//! The action record carried by a proof's message, and the effect it authorizes.
use vstd::prelude::*;

verus! {

/// The record decoded from a verified message: one schema for every action.
#[derive(Clone, Debug, PartialEq, Eq)]
pub struct TonPayload {
    pub action: String,
    pub amount: u128,
    pub parameter: String,
}

/// Why a message did not decode into a `TonPayload`.
#[derive(Clone, Debug, PartialEq, Eq)]
pub struct DecodeError {
    pub detail: String,
}

/// A privileged effect that a verified proof authorizes.
#[derive(Clone, Debug, PartialEq, Eq)]
pub enum Effect {
    /// Release `amount` units of the native currency to the calling account.
    TransferToCaller { amount: u128 },
    /// Emit `parameter` as an auditable event; no state changes.
    CallContract { parameter: String },
}

/// Why a proof was rejected; every rejection aborts the call with no effect.
#[derive(Clone, Copy, Debug, PartialEq, Eq, Structural)]
pub enum ProofError {
    /// The signature or public-key bytes do not decode.
    MalformedKeyMaterial,
    /// The key material is well formed but the signature does not verify.
    SignatureMismatch,
    /// The verified message does not decode into the payload schema.
    MalformedPayload,
    /// The decoded action tag is not one this contract performs.
    UnsupportedAction,
}

/// The tag of the transfer action.
pub open spec fn transfer_tag() -> Seq<char> {
    seq!['T', 'r', 'a', 'n', 's', 'f', 'e', 'r']
}

/// The tag of the contract-call action.
pub open spec fn call_contract_tag() -> Seq<char> {
    seq!['C', 'a', 'l', 'l', 'C', 'o', 'n', 't', 'r', 'a', 'c', 't']
}

/// The effect a payload authorizes: a transfer of its amount for `Transfer`,
/// an event with its parameter for `CallContract`, a rejection otherwise.
pub open spec fn dispatch_outcome(payload: TonPayload) -> Result<Effect, ProofError> {
    if payload.action@ == transfer_tag() {
        Ok(Effect::TransferToCaller { amount: payload.amount })
    } else if payload.action@ == call_contract_tag() {
        Ok(Effect::CallContract { parameter: payload.parameter })
    } else {
        Err(ProofError::UnsupportedAction)
    }
}

/// Routes a decoded payload to exactly one effect, or rejects its action.
pub fn dispatch(payload: TonPayload) -> (r: Result<Effect, ProofError>)
    ensures
        r == dispatch_outcome(payload),
{
    let transfer = "Transfer".to_owned();
    let call_contract = "CallContract".to_owned();
    proof {
        reveal_strlit("Transfer");
        reveal_strlit("CallContract");
        assert(transfer@ =~= transfer_tag());
        assert(call_contract@ =~= call_contract_tag());
    }
    if payload.action == transfer {
        Ok(Effect::TransferToCaller { amount: payload.amount })
    } else if payload.action == call_contract {
        Ok(Effect::CallContract { parameter: payload.parameter })
    } else {
        Err(ProofError::UnsupportedAction)
    }
}

} // verus!
