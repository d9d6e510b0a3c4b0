//! The directory: where the authority's endpoints are, and the first nonce.

use crate::acme::decode::{required_text, text_member};
use crate::acme::error::{AcmeError, ProtocolViolation};
use crate::acme::util::{
    jwk, jwk_header, jwk_header_model, jwk_model, prepared_for, prepare, AccountKey,
    PendingRequest, Response,
};
use crate::acme::Nonce;
use crate::json::{array_of_one, object, push_member, Json, JsonModel};
use crate::text::concat;
use vstd::prelude::*;

verus! {

/// The directory information that is returned by the first request to the
/// server: the URLs of the common endpoints, and the nonce that the next
/// request is to carry.
#[derive(Debug)]
pub struct Directory {
    pub new_nonce: String,
    pub new_account: String,
    pub new_order: String,
    pub revoke_cert: String,
    pub key_change: String,
    pub nonce: Nonce,
}

/// The payload that registers an account: the terms of service are agreed
/// to, and the contact is the mailbox `email`.
pub open spec fn new_account_payload(email: Seq<char>) -> JsonModel {
    JsonModel::Object(
        Map::empty().insert("termsOfServiceAgreed"@, JsonModel::Bool(true)).insert(
            "contact"@,
            JsonModel::Array(seq![JsonModel::Str("mailto:"@ + email)]),
        ),
    )
}

impl Directory {
    /// Whether a document names all five endpoints as strings.
    pub open spec fn decodable(document: JsonModel) -> bool {
        &&& text_member(document, "newNonce"@) is Some
        &&& text_member(document, "newAccount"@) is Some
        &&& text_member(document, "newOrder"@) is Some
        &&& text_member(document, "revokeCert"@) is Some
        &&& text_member(document, "keyChange"@) is Some
    }

    /// Whether `self` is the directory that `document` describes, with no
    /// nonce yet.
    pub open spec fn decoded_from(&self, document: JsonModel) -> bool {
        &&& text_member(document, "newNonce"@) == Some(self.new_nonce@)
        &&& text_member(document, "newAccount"@) == Some(self.new_account@)
        &&& text_member(document, "newOrder"@) == Some(self.new_order@)
        &&& text_member(document, "revokeCert"@) == Some(self.revoke_cert@)
        &&& text_member(document, "keyChange"@) == Some(self.key_change@)
        &&& self.nonce@ == Seq::<char>::empty()
    }

    /// Reads the directory from the response to the first request. The
    /// response holds information about the endpoints; the nonce comes with
    /// the response to the request that follows (see `seed_nonce`).
    pub fn fetch_dir(response: &Response) -> (fetched: Result<Directory, AcmeError>)
        ensures
            match fetched {
                Ok(directory) => response.body matches Some(document) && directory.decoded_from(
                    document@,
                ),
                Err(e) => e == AcmeError::Decode && !(response.body matches Some(document)
                    && Self::decodable(document@)),
            },
    {
        match &response.body {
            None => Err(AcmeError::Decode),
            Some(document) => {
                let new_nonce = required_text(document, "newNonce")?;
                let new_account = required_text(document, "newAccount")?;
                let new_order = required_text(document, "newOrder")?;
                let revoke_cert = required_text(document, "revokeCert")?;
                let key_change = required_text(document, "keyChange")?;
                Ok(
                    Directory {
                        new_nonce,
                        new_account,
                        new_order,
                        revoke_cert,
                        key_change,
                        nonce: String::new(),
                    },
                )
            },
        }
    }

    /// Takes the first nonce from the response to the request for one. A
    /// response without one is a protocol violation.
    pub fn seed_nonce(self, response: Response) -> (seeded: Result<Directory, AcmeError>)
        ensures
            match seeded {
                Ok(directory) => {
                    &&& response.replay_nonce == Some(directory.nonce)
                    &&& directory.new_nonce == self.new_nonce
                    &&& directory.new_account == self.new_account
                    &&& directory.new_order == self.new_order
                    &&& directory.revoke_cert == self.revoke_cert
                    &&& directory.key_change == self.key_change
                },
                Err(e) => e == AcmeError::Protocol(ProtocolViolation::MissingNonce)
                    && response.replay_nonce is None,
            },
    {
        match response.replay_nonce {
            None => Err(AcmeError::Protocol(ProtocolViolation::MissingNonce)),
            Some(nonce) => Ok(
                Directory {
                    new_nonce: self.new_nonce,
                    new_account: self.new_account,
                    new_order: self.new_order,
                    revoke_cert: self.revoke_cert,
                    key_change: self.key_change,
                    nonce,
                },
            ),
        }
    }

    /// Prepares the request that creates a new account: it goes to the
    /// `newAccount` endpoint, carries the account's public key and the
    /// directory's nonce, agrees to the terms of service and names the
    /// contact.
    pub fn create_account(&self, account_key: &AccountKey, email: &str) -> (prepared: PendingRequest)
        ensures
            prepared_for(
                prepared,
                self.new_account@,
                new_account_payload(email@),
                jwk_header_model(
                    self.new_account@,
                    jwk_model(account_key.n@, account_key.e@),
                    self.nonce@,
                ),
            ),
    {
        let header = jwk_header(self.new_account.as_str(), jwk(account_key), self.nonce.as_str());
        let contact = Json::Str(concat("mailto:", email));
        let mut members: Vec<(String, Json)> = Vec::new();
        push_member(&mut members, "termsOfServiceAgreed", Json::Bool(true));
        push_member(&mut members, "contact", array_of_one(contact));
        let payload = object(members);
        prepare(self.new_account.as_str(), self.nonce.as_str(), &payload, &header)
    }
}

} // verus!
