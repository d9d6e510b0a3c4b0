//! The finalized order, from which the certificate is downloaded.

use crate::acme::decode::{required_text, required_value, text_member};
use crate::acme::error::AcmeError;
use crate::acme::util::{
    deserialize_to_string, empty_payload, extract_payload_and_nonce, kid_header,
    kid_header_model, prepared_for, prepare, rejected, status_text, PendingRequest, Response,
};
use crate::acme::Nonce;
use crate::json::{member, Json, JsonModel};
use vstd::prelude::*;

verus! {

/// Information about a finalized order: what the authority says of it, the
/// URL of the certificate, and the nonce that the download is to carry.
#[derive(Debug)]
pub struct UpdatedOrder {
    pub status: String,
    pub expires: String,
    pub identifiers: Json,
    pub authorizations: Json,
    pub finalize: String,
    pub certificate: String,
    pub nonce: Nonce,
}

impl UpdatedOrder {
    /// Whether a document describes a finalized order: a status that is a
    /// string or a number, an expiry, identifiers, authorizations, the
    /// `finalize` URL and the URL of the certificate.
    pub open spec fn decodable(document: JsonModel) -> bool {
        &&& member(document, "status"@) matches Some(status) && status_text(status) is Some
        &&& text_member(document, "expires"@) is Some
        &&& member(document, "identifiers"@) is Some
        &&& member(document, "authorizations"@) is Some
        &&& text_member(document, "finalize"@) is Some
        &&& text_member(document, "certificate"@) is Some
    }

    /// Whether `self` holds what `document` says of a finalized order.
    pub open spec fn decoded_from(&self, document: JsonModel) -> bool {
        &&& member(document, "status"@) matches Some(status) && status_text(status) == Some(
            self.status@,
        )
        &&& text_member(document, "expires"@) == Some(self.expires@)
        &&& member(document, "identifiers"@) == Some(self.identifiers@)
        &&& member(document, "authorizations"@) == Some(self.authorizations@)
        &&& text_member(document, "finalize"@) == Some(self.finalize@)
        &&& text_member(document, "certificate"@) == Some(self.certificate@)
    }

    /// Reads a finalized order from a document, without nonce.
    pub fn decode(document: &Json) -> (decoded: Result<UpdatedOrder, AcmeError>)
        ensures
            match decoded {
                Ok(order) => order.decoded_from(document@) && order.nonce@ == Seq::<char>::empty(),
                Err(e) => e == AcmeError::Decode && !Self::decodable(document@),
            },
    {
        let status = match document.get("status") {
            Some(value) => deserialize_to_string(value)?,
            None => {
                return Err(AcmeError::Decode);
            },
        };
        let expires = required_text(document, "expires")?;
        let identifiers = required_value(document, "identifiers")?;
        let authorizations = required_value(document, "authorizations")?;
        let finalize = required_text(document, "finalize")?;
        let certificate = required_text(document, "certificate")?;
        Ok(
            UpdatedOrder {
                status,
                expires,
                identifiers,
                authorizations,
                finalize,
                certificate,
                nonce: String::new(),
            },
        )
    }

    /// Reads the finalized order from the response to the finalization and
    /// takes the nonce for the download from it.
    pub fn from_response(response: Response) -> (read: Result<UpdatedOrder, AcmeError>)
        ensures
            match read {
                Ok(order) => {
                    &&& response.replay_nonce == Some(order.nonce)
                    &&& response.body matches Some(document) && order.decoded_from(document@)
                },
                Err(e) => rejected(
                    response,
                    false,
                    response.body matches Some(document) && Self::decodable(document@),
                    e,
                ),
            },
    {
        let (nonce, document) = extract_payload_and_nonce(response)?;
        let order = UpdatedOrder::decode(&document)?;
        Ok(
            UpdatedOrder {
                status: order.status,
                expires: order.expires,
                identifiers: order.identifiers,
                authorizations: order.authorizations,
                finalize: order.finalize,
                certificate: order.certificate,
                nonce,
            },
        )
    }

    /// Prepares the request that downloads the issued certificate: an empty
    /// payload, sent to the certificate's URL in the name of the account at
    /// `account_url`, with the order's nonce.
    pub fn download_certificate(&self, account_url: &str) -> (prepared: PendingRequest)
        ensures
            prepared_for(
                prepared,
                self.certificate@,
                JsonModel::Str(Seq::empty()),
                kid_header_model(self.certificate@, account_url@, self.nonce@),
            ),
    {
        let header = kid_header(self.certificate.as_str(), account_url, self.nonce.as_str());
        let payload = empty_payload();
        prepare(self.certificate.as_str(), self.nonce.as_str(), &payload, &header)
    }

    /// The certificate chain that a download brought: the body of the
    /// response as it came, neither parsed nor checked.
    pub fn certificate_chain(response: Response) -> (chain: String)
        ensures
            chain == response.text,
    {
        response.text
    }
}

} // verus!
