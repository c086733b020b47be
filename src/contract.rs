//! The contract: its one durable field and the verify, decode, dispatch pipeline.
use vstd::prelude::*;
use vstd::utf8::encode_utf8;

use crate::payload::{dispatch, dispatch_outcome, DecodeError, Effect, ProofError, TonPayload};
use crate::signature::{signature_outcome, verify_signature, PUBLIC_KEY_LENGTH, SIGNATURE_LENGTH};

verus! {

/// The contract's state: the linked wallet on the foreign chain, set once at
/// initialization and not consulted by verification or dispatch.
#[derive(Clone, Debug)]
pub struct TonVerifierContract {
    ton_wallet_address: String,
}

/// What a verified message yields once decoded: a decoding failure rejects,
/// a payload is dispatched on its action.
pub open spec fn decoded_outcome(decoded: Result<TonPayload, DecodeError>) -> Result<Effect, ProofError> {
    match decoded {
        Err(_) => Err(ProofError::MalformedPayload),
        Ok(payload) => dispatch_outcome(payload),
    }
}

impl Default for TonVerifierContract {
    /// A contract linked to no wallet.
    fn default() -> (r: Self)
        ensures
            r.wallet_spec() == Seq::<char>::empty(),
    {
        TonVerifierContract { ton_wallet_address: String::new() }
    }
}

impl TonVerifierContract {
    /// What processing a proof yields on this contract, given how its message
    /// decodes: a bad signature rejects whatever the message holds.
    pub open spec fn process_outcome(
        &self,
        message: Seq<u8>,
        signature: Seq<u8>,
        key: Seq<u8>,
        decoded: Result<TonPayload, DecodeError>,
    ) -> Result<Effect, ProofError> {
        match signature_outcome(message, signature, key) {
            Err(e) => Err(e),
            Ok(false) => Err(ProofError::SignatureMismatch),
            Ok(true) => decoded_outcome(decoded),
        }
    }

    /// The linked wallet address.
    pub closed spec fn wallet_spec(&self) -> Seq<char> {
        self.ton_wallet_address@
    }

    /// Creates the contract linked to `ton_wallet_address`.
    pub fn new(ton_wallet_address: String) -> (r: Self)
        ensures
            r.wallet_spec() == ton_wallet_address@,
    {
        TonVerifierContract { ton_wallet_address }
    }

    /// The linked wallet address.
    pub fn ton_wallet_address(&self) -> (r: &String)
        ensures
            r@ == self.wallet_spec(),
    {
        &self.ton_wallet_address
    }

    /// Checks `signature_bytes` over the UTF-8 bytes of `message` under
    /// `pub_key_bytes`; malformed key material is an error, not `false`.
    pub fn verify_ton_proof(&self, message: String, signature_bytes: Vec<u8>, pub_key_bytes: Vec<u8>) -> (r: Result<bool, ProofError>)
        ensures
            r == signature_outcome(encode_utf8(message@), signature_bytes@, pub_key_bytes@),
    {
        verify_signature(message.as_str(), signature_bytes.as_slice(), pub_key_bytes.as_slice())
    }

    /// Verifies the proof, then decodes its message with `decode`, then returns
    /// the one effect the payload authorizes. `decode` runs only on a message
    /// whose signature verified.
    pub fn process_ton_proof<F>(&self, proof_message: String, signature_bytes: Vec<u8>, pub_key_bytes: Vec<u8>, decode: F) -> (r: Result<Effect, ProofError>)
        where
            F: Fn(&str) -> Result<TonPayload, DecodeError>,
        requires
            forall|m: &str| m@ == proof_message@ ==> decode.requires((m,)),
        ensures
            (match signature_outcome(encode_utf8(proof_message@), signature_bytes@, pub_key_bytes@) {
                Ok(true) => exists|m: &str, d: Result<TonPayload, DecodeError>|
                    m@ == proof_message@ && decode.ensures((m,), d)
                    && r == self.process_outcome(encode_utf8(proof_message@), signature_bytes@, pub_key_bytes@, d),
                Ok(false) => r == Err::<Effect, ProofError>(ProofError::SignatureMismatch),
                Err(e) => r == Err::<Effect, ProofError>(e),
            }),
    {
        match self.verify_ton_proof(proof_message.clone(), signature_bytes, pub_key_bytes) {
            Err(e) => Err(e),
            Ok(false) => Err(ProofError::SignatureMismatch),
            Ok(true) => match decode(proof_message.as_str()) {
                Err(_) => Err(ProofError::MalformedPayload),
                Ok(payload) => dispatch(payload),
            },
        }
    }
}

/// Key material of the wrong length is rejected as malformed, never checked.
pub proof fn lemma_wrong_length_is_malformed(message: Seq<u8>, signature: Seq<u8>, key: Seq<u8>)
    requires
        signature.len() != SIGNATURE_LENGTH || key.len() != PUBLIC_KEY_LENGTH,
    ensures
        signature_outcome(message, signature, key) == Err::<bool, ProofError>(ProofError::MalformedKeyMaterial),
        forall|c: TonVerifierContract, d: Result<TonPayload, DecodeError>|
            #[trigger] c.process_outcome(message, signature, key, d)
                == Err::<Effect, ProofError>(ProofError::MalformedKeyMaterial),
{
}

/// A proof whose signature does not verify yields no effect, whatever its
/// message would decode to.
pub proof fn lemma_unverified_proof_has_no_effect(
    contract: TonVerifierContract,
    message: Seq<u8>,
    signature: Seq<u8>,
    key: Seq<u8>,
    decoded: Result<TonPayload, DecodeError>,
    other: Result<TonPayload, DecodeError>,
)
    requires
        signature_outcome(message, signature, key) != Ok::<bool, ProofError>(true),
    ensures
        contract.process_outcome(message, signature, key, decoded) is Err,
        contract.process_outcome(message, signature, key, decoded)
            == contract.process_outcome(message, signature, key, other),
{
}

/// Nothing in the contract's state records a processed proof: submitting the
/// same proof again, on the state the first call left, yields the same effect
/// again.
pub proof fn lemma_replay_repeats_effect(
    contract: TonVerifierContract,
    message: Seq<u8>,
    signature: Seq<u8>,
    key: Seq<u8>,
    decoded: Result<TonPayload, DecodeError>,
    later: TonVerifierContract,
)
    ensures
        later.process_outcome(message, signature, key, decoded)
            == contract.process_outcome(message, signature, key, decoded),
{
}

} // verus!
