//! One issuance, from the directory to the certificate, as a state machine:
//! the flow decides, and whoever drives it does the outside work (the round
//! trips to the authority, the signatures, the publication, the delay) and
//! hands back what came of it.

use crate::acme::account::{new_order_payload, Account};
use crate::acme::challenge::{
    first_http_challenge, first_offer, is_http, lemma_first_offer, lemma_some_http_challenge,
    ChallengeAuthorisation, Publication,
};
use crate::acme::decode::{text_list_member, text_member};
use crate::acme::directory::{new_account_payload, Directory};
use crate::acme::error::{AcmeError, ProtocolViolation};
use crate::acme::order::{finalize_payload, Order};
use crate::acme::updated_order::UpdatedOrder;
use crate::acme::util::{
    envelope_model, jwk_header_model, jwk_model, kid_header_model, prepared_for, rejection,
    AccountKey, PendingRequest, Response,
};
use crate::acme::Nonce;
use crate::json::JsonModel;
use crate::serial::pretty_text;
use vstd::prelude::*;

verus! {

/// The seconds for which the flow waits between the request for the validation of
/// the challenge and the finalization.
pub const VALIDATION_DELAY_SECONDS: u64 = 10;

/// What an issuance is made for: the directory of the authority, the domain,
/// the contact of the account holder, and the certificate signing request in
/// DER form.
pub struct Context {
    pub server_url: String,
    pub domain: String,
    pub account_email: String,
    pub csr: Vec<u8>,
}

/// What the outside work brought.
pub enum Event {
    /// The flow is to begin.
    Begin,
    /// The key service handed out the public half of the account key.
    PublicKey(AccountKey),
    /// A round trip to the authority ended with this response.
    Response(Response),
    /// The signer answered with this signature.
    Signature(Vec<u8>),
    /// The key authorization is in the token store.
    Published,
    /// The delay is over.
    Waited,
    /// The outside work failed.
    Failure(AcmeError),
}

/// The outside work that the flow asks for next, or its end.
pub enum Action {
    /// Ask the key service for the public half of the account key.
    GetPublicKey,
    /// Fetch `url`, without authentication.
    Get { url: String },
    /// Ask `url` for its headers, without authentication.
    Head { url: String },
    /// Ask the signer for an RS256 signature over `digest`.
    Sign { digest: String },
    /// Post `body` to `url` as `application/jose+json`; where
    /// `accept_certificate_chain` holds, ask for
    /// `application/pem-certificate-chain` in return.
    Post { url: String, body: String, accept_certificate_chain: bool },
    /// Put `key_authorization` into the token store under `token`.
    Publish { token: String, key_authorization: String },
    /// Wait for `seconds`.
    Wait { seconds: u64 },
    /// The issuance is done: this is the certificate chain as it came.
    Done { certificate_chain: String },
    /// The issuance has failed.
    Fail { error: AcmeError },
}

/// The states of an issuance, as seen from outside.
#[derive(Clone, Copy, Debug, PartialEq, Eq, Structural)]
pub enum Stage {
    Start,
    DirectoryFetched,
    AccountReady,
    OrderCreated,
    AuthorizationFetched,
    ChallengePublished,
    ChallengeAccepted,
    Finalized,
    CertificateDownloaded,
    Failed,
}

/// An issuance under way: what has been learned so far, and the outside work
/// that is awaited.
pub enum Flow {
    /// Nothing has been asked for.
    Start,
    /// The public key has been asked for.
    AwaitingKey,
    /// The directory has been asked for.
    FetchingDirectory { account_key: AccountKey },
    /// The first nonce has been asked for.
    SeedingNonce { account_key: AccountKey, directory: Directory },
    /// The registration of the account awaits its signature.
    SigningAccount { account_key: AccountKey, directory: Directory, pending: PendingRequest },
    /// The registration of the account has been sent.
    PostingAccount { account_key: AccountKey, directory: Directory },
    /// The order awaits its signature.
    SigningOrder { account_key: AccountKey, account: Account, pending: PendingRequest },
    /// The order has been sent.
    PostingOrder { account_key: AccountKey, account: Account },
    /// The request for the authorization awaits its signature.
    SigningAuthorization {
        account_key: AccountKey,
        account: Account,
        order: Order,
        pending: PendingRequest,
    },
    /// The request for the authorization has been sent.
    PostingAuthorization { account_key: AccountKey, account: Account, order: Order },
    /// The key authorization is being published.
    Publishing { account: Account, order: Order, pending: PendingRequest },
    /// The request for the validation of the challenge awaits its signature.
    SigningChallenge { account: Account, order: Order, pending: PendingRequest },
    /// The request for the validation of the challenge has been sent.
    PostingChallenge { account: Account, order: Order },
    /// The authority has the request for the validation; the flow waits.
    Waiting { account: Account, order: Order, nonce: Nonce },
    /// The finalization awaits its signature.
    SigningFinalize { account: Account, pending: PendingRequest },
    /// The finalization has been sent.
    PostingFinalize { account: Account },
    /// The download awaits its signature.
    SigningDownload { pending: PendingRequest },
    /// The download has been asked for.
    PostingDownload,
    /// The certificate chain is here. The end.
    CertificateDownloaded { certificate_chain: String },
    /// The issuance failed. The end: a new attempt starts a new flow.
    Failed { error: AcmeError },
}

/// Whether the flow ends in failure with `error`.
pub open spec fn fails(after: Flow, action: Action, error: AcmeError) -> bool {
    after == (Flow::Failed { error }) && action == (Action::Fail { error })
}

/// Whether `action` asks for the signature that `pending` awaits.
pub open spec fn asks_signature(action: Action, pending: PendingRequest) -> bool {
    action matches Action::Sign { digest } && digest@ == pending.request.digest@
}

/// Whether `action` posts the request `pending` with the signature
/// `signature`: the body is the envelope as JSON text.
pub open spec fn posts(
    action: Action,
    pending: PendingRequest,
    signature: Seq<u8>,
    accept: bool,
) -> bool {
    action matches Action::Post { url, body, accept_certificate_chain } && url@ == pending.url@
        && accept_certificate_chain == accept && body@ == pretty_text(
        envelope_model(pending.request.protected@, pending.request.payload@, signature),
    )
}

impl Flow {
    /// The state of the issuance as seen from outside.
    pub open spec fn stage(self) -> Stage {
        match self {
            Flow::Start | Flow::AwaitingKey | Flow::FetchingDirectory { .. } | Flow::SeedingNonce {
                ..
            } => Stage::Start,
            Flow::SigningAccount { .. } | Flow::PostingAccount { .. } => Stage::DirectoryFetched,
            Flow::SigningOrder { .. } | Flow::PostingOrder { .. } => Stage::AccountReady,
            Flow::SigningAuthorization { .. } | Flow::PostingAuthorization { .. } => Stage::OrderCreated,
            Flow::Publishing { .. } => Stage::AuthorizationFetched,
            Flow::SigningChallenge { .. } | Flow::PostingChallenge { .. } => Stage::ChallengePublished,
            Flow::Waiting { .. } | Flow::SigningFinalize { .. } | Flow::PostingFinalize { .. } => Stage::ChallengeAccepted,
            Flow::SigningDownload { .. } | Flow::PostingDownload => Stage::Finalized,
            Flow::CertificateDownloaded { .. } => Stage::CertificateDownloaded,
            Flow::Failed { .. } => Stage::Failed,
        }
    }

    /// The state of the issuance as seen from outside.
    pub fn current_stage(&self) -> (stage: Stage)
        ensures
            stage == self.stage(),
    {
        match self {
            Flow::Start | Flow::AwaitingKey | Flow::FetchingDirectory { .. } | Flow::SeedingNonce {
                ..
            } => Stage::Start,
            Flow::SigningAccount { .. } | Flow::PostingAccount { .. } => Stage::DirectoryFetched,
            Flow::SigningOrder { .. } | Flow::PostingOrder { .. } => Stage::AccountReady,
            Flow::SigningAuthorization { .. } | Flow::PostingAuthorization { .. } => Stage::OrderCreated,
            Flow::Publishing { .. } => Stage::AuthorizationFetched,
            Flow::SigningChallenge { .. } | Flow::PostingChallenge { .. } => Stage::ChallengePublished,
            Flow::Waiting { .. } | Flow::SigningFinalize { .. } | Flow::PostingFinalize { .. } => Stage::ChallengeAccepted,
            Flow::SigningDownload { .. } | Flow::PostingDownload => Stage::Finalized,
            Flow::CertificateDownloaded { .. } => Stage::CertificateDownloaded,
            Flow::Failed { .. } => Stage::Failed,
        }
    }

    /// Whether the flow has ended.
    pub open spec fn ended(self) -> bool {
        self is CertificateDownloaded || self is Failed
    }

    /// The request that awaits its signature in this state, if there is one.
    pub open spec fn pending(self) -> Option<PendingRequest> {
        match self {
            Flow::SigningAccount { pending, .. } => Some(pending),
            Flow::SigningOrder { pending, .. } => Some(pending),
            Flow::SigningAuthorization { pending, .. } => Some(pending),
            Flow::Publishing { pending, .. } => Some(pending),
            Flow::SigningChallenge { pending, .. } => Some(pending),
            Flow::SigningFinalize { pending, .. } => Some(pending),
            Flow::SigningDownload { pending } => Some(pending),
            _ => None,
        }
    }

    /// The nonce that the flow keeps for its next request while it waits
    /// for the delay to pass.
    pub open spec fn kept_nonce(self) -> Option<Nonce> {
        match self {
            Flow::Waiting { nonce, .. } => Some(nonce),
            _ => None,
        }
    }

    /// Whether the state awaits a response of which the flow needs the
    /// nonce.
    pub open spec fn awaits_nonce(self) -> bool {
        self is SeedingNonce || self is PostingAccount || self is PostingOrder
            || self is PostingAuthorization || self is PostingChallenge || self is PostingFinalize
    }
}

/// After the directory came back.
pub open spec fn after_directory(
    account_key: AccountKey,
    response: Response,
    after: Flow,
    action: Action,
) -> bool {
    if response.body matches Some(document) && Directory::decodable(document@) {
        &&& after matches Flow::SeedingNonce { account_key: key, directory }
        &&& key == account_key
        &&& directory.decoded_from(response.body->0@)
        &&& action matches Action::Head { url }
        &&& url@ == directory.new_nonce@
    } else {
        fails(after, action, AcmeError::Decode)
    }
}

/// After the first nonce came back.
pub open spec fn after_first_nonce(
    account_key: AccountKey,
    directory: Directory,
    context: Context,
    response: Response,
    after: Flow,
    action: Action,
) -> bool {
    match response.replay_nonce {
        None => fails(after, action, AcmeError::Protocol(ProtocolViolation::MissingNonce)),
        Some(nonce) => {
            &&& after matches Flow::SigningAccount { account_key: key, directory: seeded, pending }
            &&& key == account_key
            &&& seeded.nonce == nonce
            &&& seeded.new_nonce == directory.new_nonce
            &&& seeded.new_account == directory.new_account
            &&& seeded.new_order == directory.new_order
            &&& seeded.revoke_cert == directory.revoke_cert
            &&& seeded.key_change == directory.key_change
            &&& prepared_for(
                pending,
                directory.new_account@,
                new_account_payload(context.account_email@),
                jwk_header_model(
                    directory.new_account@,
                    jwk_model(account_key.n@, account_key.e@),
                    nonce@,
                ),
            )
            &&& asks_signature(action, pending)
        },
    }
}

/// After the signer answered: the request that awaited the signature is
/// posted, and the flow goes to `posting`.
pub open spec fn after_signature(
    pending: PendingRequest,
    signature: Seq<u8>,
    accept: bool,
    posting: Flow,
    after: Flow,
    action: Action,
) -> bool {
    after == posting && posts(action, pending, signature, accept)
}

/// After the registration of the account was answered.
pub open spec fn after_account(
    account_key: AccountKey,
    directory: Directory,
    context: Context,
    response: Response,
    after: Flow,
    action: Action,
) -> bool {
    if response.replay_nonce is Some && response.location is Some && (
    response.body matches Some(document) && Account::decodable(document@)) {
        &&& after matches Flow::SigningOrder { account_key: key, account, pending }
        &&& key == account_key
        &&& response.replay_nonce == Some(account.nonce)
        &&& response.location == Some(account.account_location)
        &&& account.decoded_from(response.body->0@)
        &&& prepared_for(
            pending,
            directory.new_order@,
            new_order_payload(context.domain@),
            kid_header_model(directory.new_order@, account.account_location@, account.nonce@),
        )
        &&& asks_signature(action, pending)
    } else {
        fails(after, action, rejection(response, true))
    }
}

/// After the order was answered: the flow goes for the first of the
/// order's authorizations; an order without one offers no challenge.
pub open spec fn after_order(
    account_key: AccountKey,
    account: Account,
    context: Context,
    response: Response,
    after: Flow,
    action: Action,
) -> bool {
    if response.replay_nonce is Some && (response.body matches Some(document)
        && Order::decodable(document@)) {
        let listed = text_list_member(response.body->0@, "authorizations"@)->0;
        if listed.len() == 0 {
            fails(after, action, AcmeError::UnsupportedChallenge)
        } else {
            &&& after matches Flow::SigningAuthorization {
                account_key: key,
                account: same,
                order,
                pending,
            }
            &&& key == account_key
            &&& same == account
            &&& response.replay_nonce == Some(order.nonce)
            &&& order.decoded_from(response.body->0@)
            &&& order.csr@ == context.csr@
            &&& prepared_for(
                pending,
                listed[0],
                JsonModel::Str(Seq::empty()),
                kid_header_model(listed[0], account.account_location@, order.nonce@),
            )
            &&& asks_signature(action, pending)
        }
    } else {
        fails(after, action, rejection(response, false))
    }
}

/// After the request for the authorization was answered: the flow goes for
/// the first HTTP-01 challenge that the authorization lists.
pub open spec fn after_authorization(
    account_key: AccountKey,
    account: Account,
    order: Order,
    response: Response,
    after: Flow,
    action: Action,
) -> bool {
    if response.replay_nonce is Some && (response.body matches Some(document)
        && ChallengeAuthorisation::decodable(document@)) {
        let document = response.body->0@;
        if ChallengeAuthorisation::offers_http(document) {
            let listed = crate::json::member(document, "challenges"@)->0->Array_0;
            let chosen = listed[first_offer(listed)];
            &&& after matches Flow::Publishing { account: same, order: same_order, pending }
            &&& same == account
            &&& same_order == order
            &&& action matches Action::Publish { token, key_authorization }
            &&& ChallengeAuthorisation::completion(
                Publication { token, key_authorization },
                pending,
                text_member(chosen, "token"@)->0,
                text_member(chosen, "url"@)->0,
                response.replay_nonce->0@,
                account.account_location@,
                account_key,
            )
        } else {
            fails(after, action, AcmeError::UnsupportedChallenge)
        }
    } else {
        fails(after, action, rejection(response, false))
    }
}

/// After the request for the validation of the challenge was answered.
pub open spec fn after_challenge(
    account: Account,
    order: Order,
    response: Response,
    after: Flow,
    action: Action,
) -> bool {
    match response.replay_nonce {
        None => fails(after, action, AcmeError::Protocol(ProtocolViolation::MissingNonce)),
        Some(nonce) => after == (Flow::Waiting { account, order, nonce }) && action == (
        Action::Wait { seconds: VALIDATION_DELAY_SECONDS }),
    }
}

/// After the delay.
pub open spec fn after_delay(
    account: Account,
    order: Order,
    nonce: Nonce,
    after: Flow,
    action: Action,
) -> bool {
    &&& after matches Flow::SigningFinalize { account: same, pending }
    &&& same == account
    &&& prepared_for(
        pending,
        order.finalize@,
        finalize_payload(order.csr@),
        kid_header_model(order.finalize@, account.account_location@, nonce@),
    )
    &&& asks_signature(action, pending)
}

/// After the finalization was answered.
pub open spec fn after_finalize(
    account: Account,
    response: Response,
    after: Flow,
    action: Action,
) -> bool {
    if response.replay_nonce is Some && (response.body matches Some(document)
        && UpdatedOrder::decodable(document@)) {
        let certificate = text_member(response.body->0@, "certificate"@)->0;
        &&& after matches Flow::SigningDownload { pending }
        &&& prepared_for(
            pending,
            certificate,
            JsonModel::Str(Seq::empty()),
            kid_header_model(certificate, account.account_location@, response.replay_nonce->0@),
        )
        &&& asks_signature(action, pending)
    } else {
        fails(after, action, rejection(response, false))
    }
}

/// What a step of the flow may do: from the state `before`, on `event`, the
/// flow goes to `after` and asks for `action`.
///
/// A flow that has ended stays where it is and repeats its last word. The
/// failure of outside work ends the flow with that failure. An answer that
/// the state does not await ends it as out of order. Every other step is
/// the one that its state and the answer call for.
pub open spec fn transition(
    before: Flow,
    context: Context,
    event: Event,
    after: Flow,
    action: Action,
) -> bool {
    match (before, event) {
        (Flow::CertificateDownloaded { certificate_chain }, _) => after == before && action == (
        Action::Done { certificate_chain }),
        (Flow::Failed { error }, _) => fails(after, action, error),
        (_, Event::Failure(error)) => fails(after, action, error),
        (Flow::Start, Event::Begin) => after == Flow::AwaitingKey && action
            == Action::GetPublicKey,
        (Flow::AwaitingKey, Event::PublicKey(account_key)) => {
            &&& after == (Flow::FetchingDirectory { account_key })
            &&& action matches Action::Get { url }
            &&& url@ == context.server_url@
        },
        (Flow::FetchingDirectory { account_key }, Event::Response(response)) => after_directory(
            account_key,
            response,
            after,
            action,
        ),
        (
            Flow::SeedingNonce { account_key, directory },
            Event::Response(response),
        ) => after_first_nonce(account_key, directory, context, response, after, action),
        (
            Flow::SigningAccount { account_key, directory, pending },
            Event::Signature(signature),
        ) => after_signature(
            pending,
            signature@,
            false,
            Flow::PostingAccount { account_key, directory },
            after,
            action,
        ),
        (
            Flow::PostingAccount { account_key, directory },
            Event::Response(response),
        ) => after_account(account_key, directory, context, response, after, action),
        (
            Flow::SigningOrder { account_key, account, pending },
            Event::Signature(signature),
        ) => after_signature(
            pending,
            signature@,
            false,
            Flow::PostingOrder { account_key, account },
            after,
            action,
        ),
        (Flow::PostingOrder { account_key, account }, Event::Response(response)) => after_order(
            account_key,
            account,
            context,
            response,
            after,
            action,
        ),
        (
            Flow::SigningAuthorization { account_key, account, order, pending },
            Event::Signature(signature),
        ) => after_signature(
            pending,
            signature@,
            false,
            Flow::PostingAuthorization { account_key, account, order },
            after,
            action,
        ),
        (
            Flow::PostingAuthorization { account_key, account, order },
            Event::Response(response),
        ) => after_authorization(account_key, account, order, response, after, action),
        (Flow::Publishing { account, order, pending }, Event::Published) => after == (
        Flow::SigningChallenge { account, order, pending }) && asks_signature(action, pending),
        (
            Flow::SigningChallenge { account, order, pending },
            Event::Signature(signature),
        ) => after_signature(
            pending,
            signature@,
            false,
            Flow::PostingChallenge { account, order },
            after,
            action,
        ),
        (Flow::PostingChallenge { account, order }, Event::Response(response)) => after_challenge(
            account,
            order,
            response,
            after,
            action,
        ),
        (Flow::Waiting { account, order, nonce }, Event::Waited) => after_delay(
            account,
            order,
            nonce,
            after,
            action,
        ),
        (Flow::SigningFinalize { account, pending }, Event::Signature(signature)) => after_signature(
            pending,
            signature@,
            false,
            Flow::PostingFinalize { account },
            after,
            action,
        ),
        (Flow::PostingFinalize { account }, Event::Response(response)) => after_finalize(
            account,
            response,
            after,
            action,
        ),
        (Flow::SigningDownload { pending }, Event::Signature(signature)) => after_signature(
            pending,
            signature@,
            true,
            Flow::PostingDownload,
            after,
            action,
        ),
        (Flow::PostingDownload, Event::Response(response)) => after == (
        Flow::CertificateDownloaded { certificate_chain: response.text }) && action == (
        Action::Done { certificate_chain: response.text }),
        _ => fails(after, action, AcmeError::Protocol(ProtocolViolation::OutOfOrder)),
    }
}

/// The end of a flow in failure.
fn fail(error: AcmeError) -> (out: (Flow, Action))
    ensures
        fails(out.0, out.1, error),
{
    (Flow::Failed { error }, Action::Fail { error })
}

/// The request for the signature that `pending` awaits.
fn ask_signature(pending: &PendingRequest) -> (action: Action)
    ensures
        asks_signature(action, *pending),
{
    Action::Sign { digest: pending.request.digest.clone() }
}

/// The step after the signer's answer.
fn on_signature(pending: PendingRequest, signature: Vec<u8>, accept: bool, posting: Flow) -> (out: (
    Flow,
    Action,
))
    ensures
        after_signature(pending, signature@, accept, posting, out.0, out.1),
{
    let signed = pending.sign(signature.as_slice());
    (posting, Action::Post { url: signed.url, body: signed.body, accept_certificate_chain: accept })
}

/// The step after the directory came back.
fn on_directory(account_key: AccountKey, response: Response) -> (out: (Flow, Action))
    ensures
        after_directory(account_key, response, out.0, out.1),
{
    match Directory::fetch_dir(&response) {
        Ok(directory) => {
            let url = directory.new_nonce.clone();
            (Flow::SeedingNonce { account_key, directory }, Action::Head { url })
        },
        Err(error) => fail(error),
    }
}

/// The step after the first nonce came back.
fn on_first_nonce(
    account_key: AccountKey,
    directory: Directory,
    context: &Context,
    response: Response,
) -> (out: (Flow, Action))
    ensures
        after_first_nonce(account_key, directory, *context, response, out.0, out.1),
{
    match directory.seed_nonce(response) {
        Err(error) => fail(error),
        Ok(seeded) => {
            let pending = seeded.create_account(&account_key, context.account_email.as_str());
            let action = ask_signature(&pending);
            (Flow::SigningAccount { account_key, directory: seeded, pending }, action)
        },
    }
}

/// The step after the registration of the account was answered.
fn on_account(
    account_key: AccountKey,
    directory: Directory,
    context: &Context,
    response: Response,
) -> (out: (Flow, Action))
    ensures
        after_account(account_key, directory, *context, response, out.0, out.1),
{
    match Account::from_response(response) {
        Err(error) => fail(error),
        Ok(account) => {
            let pending = account.create_new_order(
                directory.new_order.as_str(),
                context.domain.as_str(),
            );
            let action = ask_signature(&pending);
            (Flow::SigningOrder { account_key, account, pending }, action)
        },
    }
}

/// The step after the order was answered.
fn on_order(account_key: AccountKey, account: Account, context: &Context, response: Response) -> (out:
    (Flow, Action))
    ensures
        after_order(account_key, account, *context, response, out.0, out.1),
{
    match Order::from_response(response, context.csr.clone()) {
        Err(error) => fail(error),
        Ok(order) => match order.fetch_auth_challenges(account.account_location.as_str()) {
            Err(error) => fail(error),
            Ok(pending) => {
                let action = ask_signature(&pending);
                (Flow::SigningAuthorization { account_key, account, order, pending }, action)
            },
        },
    }
}

/// The step after the request for the authorization was answered.
fn on_authorization(
    account_key: AccountKey,
    account: Account,
    order: Order,
    response: Response,
) -> (out: (Flow, Action))
    ensures
        after_authorization(account_key, account, order, response, out.0, out.1),
{
    match ChallengeAuthorisation::from_response(response) {
        Err(error) => fail(error),
        Ok(authorization) => {
            proof {
                let document = response.body->0@;
                let listed = crate::json::member(document, "challenges"@)->0->Array_0;
                let i = first_http_challenge(authorization.challenges@);
                let k = choose|k: int|
                    0 <= k < authorization.challenges@.len() && is_http(
                        #[trigger] authorization.challenges@[k],
                    );
                lemma_some_http_challenge(authorization.challenges@, k);
                lemma_first_offer(authorization.challenges@, listed, i);
                ChallengeAuthorisation::lemma_decoded(authorization, document);
            }
            match authorization.complete_http_challenge(
                account.account_location.as_str(),
                &account_key,
            ) {
                Err(error) => fail(error),
                Ok((publication, pending)) => (
                    Flow::Publishing { account, order, pending },
                    Action::Publish {
                        token: publication.token,
                        key_authorization: publication.key_authorization,
                    },
                ),
            }
        },
    }
}

/// The step after the request for the validation of the challenge was answered.
fn on_challenge(account: Account, order: Order, response: Response) -> (out: (Flow, Action))
    ensures
        after_challenge(account, order, response, out.0, out.1),
{
    match ChallengeAuthorisation::challenge_accepted(response) {
        Err(error) => fail(error),
        Ok(nonce) => (
            Flow::Waiting { account, order, nonce },
            Action::Wait { seconds: VALIDATION_DELAY_SECONDS },
        ),
    }
}

/// The step after the delay.
fn on_delay(account: Account, order: Order, nonce: Nonce) -> (out: (Flow, Action))
    ensures
        after_delay(account, order, nonce, out.0, out.1),
{
    let pending = order.finalize_order(account.account_location.as_str(), nonce);
    let action = ask_signature(&pending);
    (Flow::SigningFinalize { account, pending }, action)
}

/// The step after the finalization was answered.
fn on_finalize(account: Account, response: Response) -> (out: (Flow, Action))
    ensures
        after_finalize(account, response, out.0, out.1),
{
    match UpdatedOrder::from_response(response) {
        Err(error) => fail(error),
        Ok(updated) => {
            let pending = updated.download_certificate(account.account_location.as_str());
            let action = ask_signature(&pending);
            (Flow::SigningDownload { pending }, action)
        },
    }
}

impl Flow {
    /// Takes one step: from what the outside work brought, decides where
    /// the flow stands now and what is to be done next.
    pub fn step(self, context: &Context, event: Event) -> (out: (Flow, Action))
        ensures
            transition(self, *context, event, out.0, out.1),
    {
        match (self, event) {
            (Flow::CertificateDownloaded { certificate_chain }, _) => {
                let copy = certificate_chain.clone();
                (Flow::CertificateDownloaded { certificate_chain }, Action::Done { certificate_chain: copy })
            },
            (Flow::Failed { error }, _) => fail(error),
            (_, Event::Failure(error)) => fail(error),
            (Flow::Start, Event::Begin) => (Flow::AwaitingKey, Action::GetPublicKey),
            (Flow::AwaitingKey, Event::PublicKey(account_key)) => (
                Flow::FetchingDirectory { account_key },
                Action::Get { url: context.server_url.clone() },
            ),
            (Flow::FetchingDirectory { account_key }, Event::Response(response)) => on_directory(
                account_key,
                response,
            ),
            (
                Flow::SeedingNonce { account_key, directory },
                Event::Response(response),
            ) => on_first_nonce(account_key, directory, context, response),
            (
                Flow::SigningAccount { account_key, directory, pending },
                Event::Signature(signature),
            ) => on_signature(
                pending,
                signature,
                false,
                Flow::PostingAccount { account_key, directory },
            ),
            (
                Flow::PostingAccount { account_key, directory },
                Event::Response(response),
            ) => on_account(account_key, directory, context, response),
            (
                Flow::SigningOrder { account_key, account, pending },
                Event::Signature(signature),
            ) => on_signature(pending, signature, false, Flow::PostingOrder { account_key, account }),
            (Flow::PostingOrder { account_key, account }, Event::Response(response)) => on_order(
                account_key,
                account,
                context,
                response,
            ),
            (
                Flow::SigningAuthorization { account_key, account, order, pending },
                Event::Signature(signature),
            ) => on_signature(
                pending,
                signature,
                false,
                Flow::PostingAuthorization { account_key, account, order },
            ),
            (
                Flow::PostingAuthorization { account_key, account, order },
                Event::Response(response),
            ) => on_authorization(account_key, account, order, response),
            (Flow::Publishing { account, order, pending }, Event::Published) => {
                let action = ask_signature(&pending);
                (Flow::SigningChallenge { account, order, pending }, action)
            },
            (
                Flow::SigningChallenge { account, order, pending },
                Event::Signature(signature),
            ) => on_signature(pending, signature, false, Flow::PostingChallenge { account, order }),
            (Flow::PostingChallenge { account, order }, Event::Response(response)) => on_challenge(
                account,
                order,
                response,
            ),
            (Flow::Waiting { account, order, nonce }, Event::Waited) => on_delay(
                account,
                order,
                nonce,
            ),
            (Flow::SigningFinalize { account, pending }, Event::Signature(signature)) => on_signature(
                pending,
                signature,
                false,
                Flow::PostingFinalize { account },
            ),
            (Flow::PostingFinalize { account }, Event::Response(response)) => on_finalize(
                account,
                response,
            ),
            (Flow::SigningDownload { pending }, Event::Signature(signature)) => on_signature(
                pending,
                signature,
                true,
                Flow::PostingDownload,
            ),
            (Flow::PostingDownload, Event::Response(response)) => {
                let certificate_chain = UpdatedOrder::certificate_chain(response);
                let copy = certificate_chain.clone();
                (Flow::CertificateDownloaded { certificate_chain }, Action::Done { certificate_chain: copy })
            },
            _ => fail(AcmeError::Protocol(ProtocolViolation::OutOfOrder)),
        }
    }
}

impl Stage {
    /// The place of a state on the way from the start to the certificate.
    pub open spec fn rank(self) -> int {
        match self {
            Stage::Start => 0,
            Stage::DirectoryFetched => 1,
            Stage::AccountReady => 2,
            Stage::OrderCreated => 3,
            Stage::AuthorizationFetched => 4,
            Stage::ChallengePublished => 5,
            Stage::ChallengeAccepted => 6,
            Stage::Finalized => 7,
            Stage::CertificateDownloaded => 8,
            Stage::Failed => 9,
        }
    }
}

/// The nonce of a response is the nonce of the next request: where a step
/// takes a response whose nonce the flow awaits and does not fail, the
/// response carries a nonce, and that nonce is either in the request that
/// now awaits its signature or kept for the request that follows the delay.
pub proof fn lemma_nonce_of_response_is_used_next(
    before: Flow,
    context: Context,
    response: Response,
    after: Flow,
    action: Action,
)
    requires
        before.awaits_nonce(),
        transition(before, context, Event::Response(response), after, action),
        !(after is Failed),
    ensures
        response.replay_nonce is Some,
        after.pending() is Some || after.kept_nonce() is Some,
        after.pending() matches Some(pending) ==> pending.nonce@ == response.replay_nonce->0@,
        after.kept_nonce() matches Some(nonce) ==> nonce == response.replay_nonce->0,
{
}

/// The nonce that is kept over the delay is the nonce of the request that
/// follows it.
pub proof fn lemma_kept_nonce_is_used_next(
    before: Flow,
    context: Context,
    after: Flow,
    action: Action,
)
    requires
        before.kept_nonce() is Some,
        transition(before, context, Event::Waited, after, action),
    ensures
        after.pending() matches Some(pending) && pending.nonce@ == before.kept_nonce()->0@,
{
}

/// A nonce is used once: with the signature the request that carries it is
/// posted, and the state that follows holds neither a request nor a nonce;
/// the flow has none to use until the next response brings one.
pub proof fn lemma_nonce_is_used_up(
    before: Flow,
    context: Context,
    signature: Vec<u8>,
    after: Flow,
    action: Action,
)
    requires
        before.pending() is Some,
        !(before is Publishing),
        transition(before, context, Event::Signature(signature), after, action),
    ensures
        posts(action, before.pending()->0, signature@, before is SigningDownload),
        after.pending() is None,
        after.kept_nonce() is None,
{
}

/// While the key authorization is published, the request that asks for the
/// validation stays as it is: it is signed once the publication is done, not
/// before.
pub proof fn lemma_publication_comes_first(
    before: Flow,
    context: Context,
    event: Event,
    after: Flow,
    action: Action,
)
    requires
        before is Publishing,
        transition(before, context, event, after, action),
        !(after is Failed),
    ensures
        event is Published,
        after is SigningChallenge,
        after.pending() == before.pending(),
        asks_signature(action, before.pending()->0),
{
}

/// A flow that has ended stays as it is, whatever comes.
pub proof fn lemma_end_is_final(
    before: Flow,
    context: Context,
    event: Event,
    after: Flow,
    action: Action,
)
    requires
        before.ended(),
        transition(before, context, event, after, action),
    ensures
        after == before,
        before matches Flow::Failed { error } ==> action == (Action::Fail { error }),
        before matches Flow::CertificateDownloaded { certificate_chain } ==> action == (
        Action::Done { certificate_chain }),
{
}

/// The failure of outside work ends the flow at once, with that failure.
pub proof fn lemma_failure_ends_the_flow(
    before: Flow,
    context: Context,
    error: AcmeError,
    after: Flow,
    action: Action,
)
    requires
        !before.ended(),
        transition(before, context, Event::Failure(error), after, action),
    ensures
        fails(after, action, error),
{
}

/// The flow goes forward only: a step that does not fail stays in its
/// state or reaches the next one.
pub proof fn lemma_stages_follow_each_other(
    before: Flow,
    context: Context,
    event: Event,
    after: Flow,
    action: Action,
)
    requires
        transition(before, context, event, after, action),
        !(after is Failed),
    ensures
        before.stage().rank() <= after.stage().rank() <= before.stage().rank() + 1,
{
}

/// The certificate chain that ends the flow is the body of the response to
/// the download, as it came.
pub proof fn lemma_certificate_is_unmodified(
    context: Context,
    response: Response,
    after: Flow,
    action: Action,
)
    requires
        transition(Flow::PostingDownload, context, Event::Response(response), after, action),
    ensures
        after == (Flow::CertificateDownloaded { certificate_chain: response.text }),
        action == (Action::Done { certificate_chain: response.text }),
{
}

} // verus!
