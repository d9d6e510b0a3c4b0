//! The order for a certificate.

use crate::acme::base64::{b64, base64url, decode_standard, standard_base64_decoded};
use crate::acme::decode::{
    required_text, required_text_list, required_value, text_list_member, text_member, texts,
};
use crate::acme::error::AcmeError;
use crate::acme::util::{
    deserialize_to_string, empty_payload, extract_payload_and_nonce, kid_header,
    kid_header_model, prepared_for, prepare, rejected, status_text, PendingRequest, Response,
};
use crate::acme::Nonce;
use crate::json::{member, object, push_member, Json, JsonModel};
use vstd::prelude::*;

verus! {

/// Information about an order: what the authority says of it, the nonce
/// that the next request is to carry, and the certificate signing request
/// in DER form, which the caller attaches and which is sent only when the
/// order is finalized.
#[derive(Debug)]
pub struct Order {
    pub status: String,
    pub expires: String,
    pub identifiers: Json,
    pub authorizations: Vec<String>,
    pub finalize: String,
    pub nonce: Nonce,
    pub csr: Vec<u8>,
}

/// The payload that finalizes an order: the signing request in base64url.
pub open spec fn finalize_payload(csr: Seq<u8>) -> JsonModel {
    JsonModel::Object(Map::empty().insert("csr"@, JsonModel::Str(base64url(csr))))
}

/// Reads a certificate signing request from the standard base64 text in
/// which the key service hands it out. A text that is no standard base64 is
/// a decoding error.
pub fn csr_from_base64(text: &str) -> (read: Result<Vec<u8>, AcmeError>)
    ensures
        match read {
            Ok(der) => standard_base64_decoded(text@) == Some(der@),
            Err(e) => e == AcmeError::Decode && standard_base64_decoded(text@) is None,
        },
{
    match decode_standard(text) {
        Some(der) => Ok(der),
        None => Err(AcmeError::Decode),
    }
}

impl Order {
    /// Whether a document describes an order: a status that is a string or
    /// a number, an expiry, identifiers, a list of authorization URLs and
    /// the URL at which the order is finalized.
    pub open spec fn decodable(document: JsonModel) -> bool {
        &&& member(document, "status"@) matches Some(status) && status_text(status) is Some
        &&& text_member(document, "expires"@) is Some
        &&& member(document, "identifiers"@) is Some
        &&& text_list_member(document, "authorizations"@) is Some
        &&& text_member(document, "finalize"@) is Some
    }

    /// Whether `self` holds what `document` says of an order.
    pub open spec fn decoded_from(&self, document: JsonModel) -> bool {
        &&& member(document, "status"@) matches Some(status) && status_text(status) == Some(
            self.status@,
        )
        &&& text_member(document, "expires"@) == Some(self.expires@)
        &&& member(document, "identifiers"@) == Some(self.identifiers@)
        &&& text_list_member(document, "authorizations"@) == Some(texts(self.authorizations@))
        &&& text_member(document, "finalize"@) == Some(self.finalize@)
    }

    /// Reads an order from a document, without nonce and signing request.
    pub fn decode(document: &Json) -> (decoded: Result<Order, AcmeError>)
        ensures
            match decoded {
                Ok(order) => order.decoded_from(document@) && order.nonce@ == Seq::<char>::empty()
                    && order.csr@ == Seq::<u8>::empty(),
                Err(e) => e == AcmeError::Decode && !Self::decodable(document@),
            },
    {
        let status = match document.get("status") {
            Some(value) => deserialize_to_string(value)?,
            None => {
                return Err(AcmeError::Decode);
            },
        };
        let expires = required_text(document, "expires")?;
        let identifiers = required_value(document, "identifiers")?;
        let authorizations = required_text_list(document, "authorizations")?;
        let finalize = required_text(document, "finalize")?;
        Ok(
            Order {
                status,
                expires,
                identifiers,
                authorizations,
                finalize,
                nonce: String::new(),
                csr: Vec::new(),
            },
        )
    }

    /// Reads the order from the response to its creation, takes the nonce
    /// for the next request from it and attaches the signing request `csr`.
    pub fn from_response(response: Response, csr: Vec<u8>) -> (read: Result<Order, AcmeError>)
        ensures
            match read {
                Ok(order) => {
                    &&& response.replay_nonce == Some(order.nonce)
                    &&& response.body matches Some(document) && order.decoded_from(document@)
                    &&& order.csr == csr
                },
                Err(e) => rejected(
                    response,
                    false,
                    response.body matches Some(document) && Self::decodable(document@),
                    e,
                ),
            },
    {
        let (nonce, document) = extract_payload_and_nonce(response)?;
        let order = Order::decode(&document)?;
        Ok(
            Order {
                status: order.status,
                expires: order.expires,
                identifiers: order.identifiers,
                authorizations: order.authorizations,
                finalize: order.finalize,
                nonce,
                csr,
            },
        )
    }

    /// Prepares the request that fetches the authorization options for the
    /// order: an empty payload, sent to the order's first authorization URL
    /// in the name of the account at `account_url`, with the order's nonce.
    /// An order without an authorization URL offers no challenge.
    pub fn fetch_auth_challenges(&self, account_url: &str) -> (prepared: Result<
        PendingRequest,
        AcmeError,
    >)
        ensures
            match prepared {
                Ok(pending) => self.authorizations@.len() > 0 && prepared_for(
                    pending,
                    self.authorizations@[0]@,
                    JsonModel::Str(Seq::empty()),
                    kid_header_model(self.authorizations@[0]@, account_url@, self.nonce@),
                ),
                Err(e) => e == AcmeError::UnsupportedChallenge && self.authorizations@.len() == 0,
            },
    {
        if self.authorizations.len() == 0 {
            return Err(AcmeError::UnsupportedChallenge);
        }
        let auth_url = self.authorizations[0].as_str();
        let header = kid_header(auth_url, account_url, self.nonce.as_str());
        let payload = empty_payload();
        Ok(prepare(auth_url, self.nonce.as_str(), &payload, &header))
    }

    /// Prepares the request that finalizes the order once the challenge is
    /// done: the signing request in base64url, sent to the order's
    /// `finalize` URL in the name of the account at `account_url`, with the
    /// nonce `new_nonce`.
    pub fn finalize_order(&self, account_url: &str, new_nonce: Nonce) -> (prepared: PendingRequest)
        ensures
            prepared_for(
                prepared,
                self.finalize@,
                finalize_payload(self.csr@),
                kid_header_model(self.finalize@, account_url@, new_nonce@),
            ),
    {
        let header = kid_header(self.finalize.as_str(), account_url, new_nonce.as_str());
        let mut members: Vec<(String, Json)> = Vec::new();
        push_member(&mut members, "csr", Json::Str(b64(self.csr.as_slice())));
        let payload = object(members);
        prepare(self.finalize.as_str(), new_nonce.as_str(), &payload, &header)
    }
}

} // verus!
