//! The verification pipeline: decoding a request, rebuilding what was
//! signed, and turning the verifier's answer into a response.

use vstd::prelude::*;
use crate::encoding::{base64_decoding, decode_base64};
use crate::epoch::{epoch_outcome, resolve_epoch};
use crate::error::{VerifyError, VerifyResponse};
use crate::keys::KeyStore;
use crate::network::{env_verifier, selected_env, MysEnv, Provider, VerifierEnv};

verus! {

/// A ledger address.
#[derive(Debug, Clone, Copy, PartialEq, Eq)]
pub struct MysAddress(pub [u8; 32]);

/// What kind of payload a request says was signed.
#[derive(Debug, Clone, Copy, PartialEq, Eq, Structural)]
pub enum IntentScope {
    TransactionData,
    PersonalMessage,
    /// Any other scope tag; never accepted.
    Other(u8),
}

/// Wire tag of the transaction scope.
pub const TRANSACTION_DATA_TAG: u8 = 0;

/// Wire tag of the personal-message scope.
pub const PERSONAL_MESSAGE_TAG: u8 = 3;

pub open spec fn scope_of_tag(t: u8) -> IntentScope {
    if t == TRANSACTION_DATA_TAG {
        IntentScope::TransactionData
    } else if t == PERSONAL_MESSAGE_TAG {
        IntentScope::PersonalMessage
    } else {
        IntentScope::Other(t)
    }
}

impl IntentScope {
    /// The scope a wire tag stands for.
    pub fn from_tag(t: u8) -> (r: IntentScope)
        ensures
            r == scope_of_tag(t),
    {
        if t == TRANSACTION_DATA_TAG {
            IntentScope::TransactionData
        } else if t == PERSONAL_MESSAGE_TAG {
            IntentScope::PersonalMessage
        } else {
            IntentScope::Other(t)
        }
    }
}

#[derive(Debug, Clone, Copy, PartialEq, Eq, Structural)]
pub enum IntentVersion {
    V0,
}

#[derive(Debug, Clone, Copy, PartialEq, Eq, Structural)]
pub enum AppId {
    Mys,
}

/// The intent a payload was signed under.
#[derive(Debug, Clone, Copy, PartialEq, Eq, Structural)]
pub struct Intent {
    pub scope: IntentScope,
    pub version: IntentVersion,
    pub app_id: AppId,
}

pub open spec fn intent_for(scope: IntentScope) -> Intent {
    Intent { scope, version: IntentVersion::V0, app_id: AppId::Mys }
}

/// What was signed: the payload under its intent, and who signed it.
#[derive(Debug)]
pub struct IntentMessage {
    pub intent: Intent,
    pub value: Vec<u8>,
    pub author: MysAddress,
}

/// How the decoded signature bytes parsed as a signature.
#[derive(Debug, Clone, Copy, PartialEq, Eq, Structural)]
pub enum SignatureParse {
    /// Not a signature of any known scheme.
    Malformed,
    /// A zkLogin authenticator.
    ZkLogin,
    /// A signature of some other scheme.
    OtherScheme,
}

/// One request to verify a signature.
#[derive(Debug)]
pub struct VerifyRequest {
    /// Base64 of the signature.
    pub signature: String,
    /// Base64 of the signed payload.
    pub bytes: String,
    pub intent_scope: IntentScope,
    pub author: Option<MysAddress>,
    pub network: Option<MysEnv>,
    pub curr_epoch: Option<u64>,
}

/// The request's two fields, Base64-decoded.
#[derive(Debug)]
pub struct DecodedRequest {
    pub signature: Vec<u8>,
    pub payload: Vec<u8>,
}

/// Decoding succeeds exactly when both fields are valid Base64.
pub open spec fn request_decodes(req: VerifyRequest) -> bool {
    base64_decoding(req.signature@).is_some() && base64_decoding(req.bytes@).is_some()
}

/// Who signed, once the signature and payload are known to decode: for a
/// transaction its own sender, for a personal message the request's author;
/// `None` where the request does not parse.
pub open spec fn signer_of(
    scope: IntentScope,
    author: Option<MysAddress>,
    sig: SignatureParse,
    tx_sender: Option<MysAddress>,
) -> Option<MysAddress> {
    if sig != SignatureParse::ZkLogin {
        None
    } else {
        match scope {
            IntentScope::TransactionData => tx_sender,
            IntentScope::PersonalMessage => author,
            IntentScope::Other(_) => None,
        }
    }
}

/// The whole outcome of a request, given what the outside collaborators
/// answered: how the signature parsed, the sender of the payload when read
/// as a transaction, the ledger's epoch, and the proof verifier's verdict.
pub open spec fn verify_outcome(
    req: VerifyRequest,
    sig: SignatureParse,
    tx_sender: Option<MysAddress>,
    queried_epoch: Option<u64>,
    verdict: Result<(), String>,
) -> Result<VerifyResponse, VerifyError> {
    if !request_decodes(req) || signer_of(req.intent_scope, req.author, sig, tx_sender).is_none() {
        Err(VerifyError::ParsingError)
    } else {
        match epoch_outcome(req.curr_epoch, queried_epoch) {
            Err(e) => Err(e),
            Ok(_) => match verdict {
                Ok(()) => Ok(VerifyResponse { is_verified: true }),
                Err(d) => Err(VerifyError::GenericError(d)),
            },
        }
    }
}

impl VerifyRequest {
    /// Base64-decodes the signature and the payload; either failing is a parsing error.
    pub fn decode(&self) -> (r: Result<DecodedRequest, VerifyError>)
        ensures
            r.is_ok() == request_decodes(*self),
            r.is_err() ==> r == Err::<DecodedRequest, VerifyError>(VerifyError::ParsingError),
            r.is_ok() ==> base64_decoding(self.signature@) == Some(r.unwrap().signature@)
                && base64_decoding(self.bytes@) == Some(r.unwrap().payload@),
    {
        let signature = match decode_base64(&self.signature) {
            Some(s) => s,
            None => {
                return Err(VerifyError::ParsingError);
            },
        };
        let payload = match decode_base64(&self.bytes) {
            Some(p) => p,
            None => {
                return Err(VerifyError::ParsingError);
            },
        };
        Ok(DecodedRequest { signature, payload })
    }
}

/// Rebuilds what was signed. Only zkLogin signatures are accepted. A
/// transaction is signed by its own sender (`tx_sender`, the sender of the
/// payload read as transaction data, `None` when it does not read as one),
/// a personal message by the request's author, which it must name. Any
/// other scope is refused.
pub fn build_message(
    scope: IntentScope,
    author: Option<MysAddress>,
    payload: Vec<u8>,
    sig: SignatureParse,
    tx_sender: Option<MysAddress>,
) -> (r: Result<IntentMessage, VerifyError>)
    ensures
        r.is_ok() == signer_of(scope, author, sig, tx_sender).is_some(),
        r.is_err() ==> r == Err::<IntentMessage, VerifyError>(VerifyError::ParsingError),
        r.is_ok() ==> {
            let m = r.unwrap();
            &&& m.intent == intent_for(scope)
            &&& m.value@ == payload@
            &&& Some(m.author) == signer_of(scope, author, sig, tx_sender)
        },
{
    match sig {
        SignatureParse::ZkLogin => {},
        _ => {
            return Err(VerifyError::ParsingError);
        },
    }
    match scope {
        IntentScope::TransactionData => match tx_sender {
            Some(sender) => Ok(
                IntentMessage {
                    intent: Intent {
                        scope: IntentScope::TransactionData,
                        version: IntentVersion::V0,
                        app_id: AppId::Mys,
                    },
                    value: payload,
                    author: sender,
                },
            ),
            None => Err(VerifyError::ParsingError),
        },
        IntentScope::PersonalMessage => match author {
            Some(a) => Ok(
                IntentMessage {
                    intent: Intent {
                        scope: IntentScope::PersonalMessage,
                        version: IntentVersion::V0,
                        app_id: AppId::Mys,
                    },
                    value: payload,
                    author: a,
                },
            ),
            None => Err(VerifyError::ParsingError),
        },
        IntentScope::Other(_) => Err(VerifyError::ParsingError),
    }
}

/// What the proof verifier is handed besides the authenticator.
pub struct VerifyParams {
    pub keys: KeyStore,
    pub supported_providers: Vec<Provider>,
    pub env: VerifierEnv,
    pub verify_legacy_zklogin_address: bool,
    pub accept_zklogin_in_multisig: bool,
    pub max_epoch_upper_bound_delta: Option<u64>,
}

/// Assembles the verifier's parameters: a snapshot of the key store, no
/// extra providers, the environment of the selected network, both
/// strictness flags set and no bound on the epoch delta.
pub fn verification_params(store: &KeyStore, network: Option<MysEnv>) -> (r: VerifyParams)
    requires
        store.wf(),
    ensures
        r.keys.wf(),
        r.keys@ == store@,
        r.supported_providers@.len() == 0,
        r.env == env_verifier(selected_env(network)),
        r.verify_legacy_zklogin_address,
        r.accept_zklogin_in_multisig,
        r.max_epoch_upper_bound_delta.is_none(),
{
    let (_, env) = MysEnv::select(network).get_params();
    VerifyParams {
        keys: store.snapshot(),
        supported_providers: Vec::new(),
        env,
        verify_legacy_zklogin_address: true,
        accept_zklogin_in_multisig: true,
        max_epoch_upper_bound_delta: None,
    }
}

/// Turns the verifier's verdict into the response: success verifies, a
/// rejection is an error carrying the verifier's diagnostic.
pub fn conclude(verdict: Result<(), String>) -> (r: Result<VerifyResponse, VerifyError>)
    ensures
        match verdict {
            Ok(()) => r == Ok::<VerifyResponse, VerifyError>(VerifyResponse { is_verified: true }),
            Err(d) => r == Err::<VerifyResponse, VerifyError>(VerifyError::GenericError(d)),
        },
{
    match verdict {
        Ok(()) => Ok(VerifyResponse { is_verified: true }),
        Err(d) => Err(VerifyError::GenericError(d)),
    }
}

/// Runs the whole pipeline on a request, given the answers of the outside
/// collaborators: the parse of the decoded signature, the sender of the
/// payload read as a transaction, the epoch the ledger reported (consulted
/// only when the request supplies none) and the proof verifier's verdict
/// at the resolved epoch.
pub fn verify_request(
    req: &VerifyRequest,
    sig: SignatureParse,
    tx_sender: Option<MysAddress>,
    queried_epoch: Option<u64>,
    verdict: Result<(), String>,
) -> (r: Result<VerifyResponse, VerifyError>)
    ensures
        r == verify_outcome(*req, sig, tx_sender, queried_epoch, verdict),
{
    let decoded = match req.decode() {
        Ok(d) => d,
        Err(e) => {
            return Err(e);
        },
    };
    match build_message(req.intent_scope, req.author, decoded.payload, sig, tx_sender) {
        Ok(_) => {},
        Err(e) => {
            return Err(e);
        },
    }
    match resolve_epoch(req.curr_epoch, queried_epoch) {
        Ok(_) => {},
        Err(e) => {
            return Err(e);
        },
    }
    conclude(verdict)
}

/// Only zkLogin is verified: a signature of any other scheme, or none at
/// all, is a parsing error whatever the other fields and answers.
pub proof fn lemma_scheme_rejection(
    req: VerifyRequest,
    sig: SignatureParse,
    tx_sender: Option<MysAddress>,
    queried_epoch: Option<u64>,
    verdict: Result<(), String>,
)
    requires
        sig != SignatureParse::ZkLogin,
    ensures
        verify_outcome(req, sig, tx_sender, queried_epoch, verdict) == Err::<
            VerifyResponse,
            VerifyError,
        >(VerifyError::ParsingError),
{
}

/// A personal message without an author is a parsing error.
pub proof fn lemma_personal_message_needs_author(
    req: VerifyRequest,
    sig: SignatureParse,
    tx_sender: Option<MysAddress>,
    queried_epoch: Option<u64>,
    verdict: Result<(), String>,
)
    requires
        req.intent_scope == IntentScope::PersonalMessage,
        req.author.is_none(),
    ensures
        verify_outcome(req, sig, tx_sender, queried_epoch, verdict) == Err::<
            VerifyResponse,
            VerifyError,
        >(VerifyError::ParsingError),
{
}

/// A transaction payload that does not read as transaction data is a
/// parsing error.
pub proof fn lemma_malformed_transaction(
    req: VerifyRequest,
    sig: SignatureParse,
    queried_epoch: Option<u64>,
    verdict: Result<(), String>,
)
    requires
        req.intent_scope == IntentScope::TransactionData,
    ensures
        verify_outcome(req, sig, None, queried_epoch, verdict) == Err::<VerifyResponse, VerifyError>(
            VerifyError::ParsingError,
        ),
{
}

/// A scope other than transaction or personal message is a parsing error.
pub proof fn lemma_unknown_scope(
    req: VerifyRequest,
    sig: SignatureParse,
    tx_sender: Option<MysAddress>,
    queried_epoch: Option<u64>,
    verdict: Result<(), String>,
)
    requires
        req.intent_scope is Other,
    ensures
        verify_outcome(req, sig, tx_sender, queried_epoch, verdict) == Err::<
            VerifyResponse,
            VerifyError,
        >(VerifyError::ParsingError),
{
}

/// With an epoch supplied by the request, the ledger's answer plays no part
/// in the outcome.
pub proof fn lemma_epoch_bypass(
    req: VerifyRequest,
    sig: SignatureParse,
    tx_sender: Option<MysAddress>,
    q1: Option<u64>,
    q2: Option<u64>,
    verdict: Result<(), String>,
)
    requires
        req.curr_epoch.is_some(),
    ensures
        verify_outcome(req, sig, tx_sender, q1, verdict) == verify_outcome(
            req,
            sig,
            tx_sender,
            q2,
            verdict,
        ),
{
}

/// A well-formed zkLogin request that the proof verifier rejects (as it does
/// when the key it names is not among the cached ones) ends in the
/// verifier's error, neither a parsing error nor a success.
pub proof fn lemma_rejected_proof_is_generic_error(
    req: VerifyRequest,
    tx_sender: Option<MysAddress>,
    queried_epoch: Option<u64>,
    detail: String,
)
    requires
        request_decodes(req),
        signer_of(req.intent_scope, req.author, SignatureParse::ZkLogin, tx_sender).is_some(),
        epoch_outcome(req.curr_epoch, queried_epoch).is_ok(),
    ensures
        verify_outcome(req, SignatureParse::ZkLogin, tx_sender, queried_epoch, Err(detail)) == Err::<
            VerifyResponse,
            VerifyError,
        >(VerifyError::GenericError(detail)),
{
}

} // verus!
