//! The account at the authority.

use crate::acme::decode::{
    optional_bool, optional_bool_member, optional_text_list, optional_text_list_member, texts,
};
use crate::acme::error::AcmeError;
use crate::acme::util::{
    deserialize_to_string, extract_payload_location_and_nonce, kid_header, kid_header_model,
    prepared_for, prepare, rejected, status_text, PendingRequest, Response,
};
use crate::acme::Nonce;
use crate::json::{array_of_one, member, object, push_member, string, Json, JsonModel};
use vstd::prelude::*;

verus! {

/// Information about an account: what the authority says of it, the nonce
/// that the next request in its name is to carry, and its location, by
/// which every later request names it.
#[derive(Debug)]
pub struct Account {
    pub status: String,
    pub contact: Option<Vec<String>>,
    pub terms_of_service_agreed: Option<bool>,
    pub orders: Option<Vec<String>>,
    pub nonce: Nonce,
    pub account_location: String,
}

/// The texts of a list of strings that may be left out.
pub open spec fn optional_texts(list: Option<Vec<String>>) -> Option<Seq<Seq<char>>> {
    match list {
        Some(list) => Some(texts(list@)),
        None => None,
    }
}

/// The payload that orders a certificate for one DNS name.
pub open spec fn new_order_payload(domain: Seq<char>) -> JsonModel {
    JsonModel::Object(
        Map::empty().insert(
            "identifiers"@,
            JsonModel::Array(
                seq![
                    JsonModel::Object(
                        Map::empty().insert("type"@, JsonModel::Str("dns"@)).insert(
                            "value"@,
                            JsonModel::Str(domain),
                        ),
                    ),
                ],
            ),
        ),
    )
}

impl Account {
    /// Whether a document describes an account: a status that is a string or
    /// a number, and, where they are given, a list of contacts, a flag and a
    /// list of orders.
    pub open spec fn decodable(document: JsonModel) -> bool {
        &&& member(document, "status"@) matches Some(status) && status_text(status) is Some
        &&& optional_text_list_member(document, "contact"@) is Some
        &&& optional_bool_member(document, "terms_of_service_agreed"@) is Some
        &&& optional_text_list_member(document, "orders"@) is Some
    }

    /// Whether `self` holds what `document` says of an account.
    pub open spec fn decoded_from(&self, document: JsonModel) -> bool {
        &&& member(document, "status"@) matches Some(status) && status_text(status) == Some(
            self.status@,
        )
        &&& optional_text_list_member(document, "contact"@) == Some(optional_texts(self.contact))
        &&& optional_bool_member(document, "terms_of_service_agreed"@) == Some(
            self.terms_of_service_agreed,
        )
        &&& optional_text_list_member(document, "orders"@) == Some(optional_texts(self.orders))
    }

    /// Reads an account from a document, without nonce and location.
    pub fn decode(document: &Json) -> (decoded: Result<Account, AcmeError>)
        ensures
            match decoded {
                Ok(account) => account.decoded_from(document@) && account.nonce@
                    == Seq::<char>::empty() && account.account_location@ == Seq::<char>::empty(),
                Err(e) => e == AcmeError::Decode && !Self::decodable(document@),
            },
    {
        let status = match document.get("status") {
            Some(value) => deserialize_to_string(value)?,
            None => {
                return Err(AcmeError::Decode);
            },
        };
        let contact = optional_text_list(document, "contact")?;
        let terms_of_service_agreed = optional_bool(document, "terms_of_service_agreed")?;
        let orders = optional_text_list(document, "orders")?;
        Ok(
            Account {
                status,
                contact,
                terms_of_service_agreed,
                orders,
                nonce: String::new(),
                account_location: String::new(),
            },
        )
    }

    /// Reads the account from the response to its registration: the
    /// `location` header is the account's identity from now on, and the
    /// nonce is the one for the next request.
    pub fn from_response(response: Response) -> (read: Result<Account, AcmeError>)
        ensures
            match read {
                Ok(account) => {
                    &&& response.replay_nonce == Some(account.nonce)
                    &&& response.location == Some(account.account_location)
                    &&& response.body matches Some(document) && account.decoded_from(document@)
                },
                Err(e) => rejected(
                    response,
                    true,
                    response.body matches Some(document) && Self::decodable(document@),
                    e,
                ),
            },
    {
        let (location, nonce, document) = extract_payload_location_and_nonce(response)?;
        let account = Account::decode(&document)?;
        Ok(
            Account {
                status: account.status,
                contact: account.contact,
                terms_of_service_agreed: account.terms_of_service_agreed,
                orders: account.orders,
                nonce,
                account_location: location,
            },
        )
    }

    /// Prepares the request that creates a new order for a certificate for
    /// `domain`: it goes to `new_order_url` in the name of the account, with
    /// the account's nonce.
    pub fn create_new_order(&self, new_order_url: &str, domain: &str) -> (prepared: PendingRequest)
        ensures
            prepared_for(
                prepared,
                new_order_url@,
                new_order_payload(domain@),
                kid_header_model(new_order_url@, self.account_location@, self.nonce@),
            ),
    {
        let header = kid_header(
            new_order_url,
            self.account_location.as_str(),
            self.nonce.as_str(),
        );
        let mut identifier: Vec<(String, Json)> = Vec::new();
        push_member(&mut identifier, "type", string("dns"));
        push_member(&mut identifier, "value", string(domain));
        let mut members: Vec<(String, Json)> = Vec::new();
        push_member(&mut members, "identifiers", array_of_one(object(identifier)));
        let payload = object(members);
        prepare(new_order_url, self.nonce.as_str(), &payload, &header)
    }
}

} // verus!
