//! The authorization for an identifier and its HTTP-01 challenge.

use crate::acme::decode::{optional_bool, optional_bool_member, required_text, text_member};
use crate::acme::error::{AcmeError, ProtocolViolation};
use crate::acme::util::{
    empty_payload, extract_payload_and_nonce, key_authorization, key_authorization_text,
    kid_header, kid_header_model, prepared_for, prepare, rejected, thumbprint, AccountKey,
    PendingRequest, Response,
};
use crate::acme::Nonce;
use crate::json::{member, Json, JsonModel};
use crate::text::same_text;
use vstd::prelude::*;

verus! {

/// The current status of a request. The server sends it in every response;
/// it shows the progress as well as possible errors.
#[derive(Clone, Copy, Debug, PartialEq, Eq, Structural)]
pub enum StatusType {
    Valid,
    Pending,
    Invalid,
}

/// Information about a challenge: its status, the token that the server
/// issued, its type and its URL.
#[derive(Debug)]
pub struct Challenge {
    pub status: StatusType,
    pub token: String,
    pub challenge_type: String,
    pub url: String,
}

/// Information about the ways in which an identifier can be authorized.
#[derive(Debug)]
pub struct ChallengeAuthorisation {
    pub identifier: Json,
    pub status: StatusType,
    pub expires: String,
    pub challenges: Vec<Challenge>,
    pub wildcard: Option<bool>,
    pub nonce: Nonce,
}

/// What is published for the authority to fetch: under the token, the key
/// authorization.
#[derive(Debug)]
pub struct Publication {
    pub token: String,
    pub key_authorization: String,
}

/// The status that a value names: one of the strings `valid`, `pending` and
/// `invalid`.
pub open spec fn status_type_of(value: JsonModel) -> Option<StatusType> {
    match value {
        JsonModel::Str(text) => if text == "valid"@ {
            Some(StatusType::Valid)
        } else if text == "pending"@ {
            Some(StatusType::Pending)
        } else if text == "invalid"@ {
            Some(StatusType::Invalid)
        } else {
            None
        },
        _ => None,
    }
}

/// The status under `key`.
pub open spec fn status_member(document: JsonModel, key: Seq<char>) -> Option<StatusType> {
    match member(document, key) {
        Some(value) => status_type_of(value),
        None => None,
    }
}

/// Whether a challenge is of the type HTTP-01.
pub open spec fn is_http(challenge: Challenge) -> bool {
    challenge.challenge_type@ == "http-01"@
}

/// The place of the first HTTP-01 challenge in a list, if there is one.
pub open spec fn http_challenge_at(challenges: Seq<Challenge>, i: int) -> bool {
    &&& 0 <= i < challenges.len()
    &&& is_http(challenges[i])
    &&& forall|k: int| 0 <= k < i ==> !is_http(#[trigger] challenges[k])
}

/// Whether a list holds no HTTP-01 challenge.
pub open spec fn no_http_challenge(challenges: Seq<Challenge>) -> bool {
    forall|k: int| 0 <= k < challenges.len() ==> !is_http(#[trigger] challenges[k])
}

/// The place of the first HTTP-01 challenge in a list that holds one.
pub open spec fn first_http_challenge(challenges: Seq<Challenge>) -> int {
    choose|i: int| http_challenge_at(challenges, i)
}

/// There is one first HTTP-01 challenge at most.
pub proof fn lemma_first_http_challenge(challenges: Seq<Challenge>, i: int)
    requires
        http_challenge_at(challenges, i),
    ensures
        first_http_challenge(challenges) == i,
        !no_http_challenge(challenges),
{
    assert(http_challenge_at(challenges, first_http_challenge(challenges)));
}

/// A list that holds an HTTP-01 challenge has a first one.
pub proof fn lemma_some_http_challenge(challenges: Seq<Challenge>, k: int)
    requires
        0 <= k < challenges.len(),
        is_http(challenges[k]),
    ensures
        http_challenge_at(challenges, first_http_challenge(challenges)),
    decreases k,
{
    if forall|j: int| 0 <= j < k ==> !is_http(#[trigger] challenges[j]) {
        assert(http_challenge_at(challenges, k));
    } else {
        let j = choose|j: int| 0 <= j < k && is_http(#[trigger] challenges[j]);
        lemma_some_http_challenge(challenges, j);
    }
}

/// Whether the `i`-th of the listed challenges is the first that a document
/// offers of the type HTTP-01.
pub open spec fn offer_at(listed: Seq<JsonModel>, i: int) -> bool {
    &&& 0 <= i < listed.len()
    &&& text_member(listed[i], "type"@) == Some("http-01"@)
    &&& forall|k: int| 0 <= k < i ==> text_member(#[trigger] listed[k], "type"@) != Some("http-01"@)
}

/// The place of the first HTTP-01 challenge among the listed ones.
pub open spec fn first_offer(listed: Seq<JsonModel>) -> int {
    choose|i: int| offer_at(listed, i)
}

/// The first HTTP-01 challenge of a list that was read from a document
/// stands where the document's first offer stands.
pub proof fn lemma_first_offer(challenges: Seq<Challenge>, listed: Seq<JsonModel>, i: int)
    requires
        Challenge::list_decoded_from(challenges, JsonModel::Array(listed)),
        http_challenge_at(challenges, i),
    ensures
        first_offer(listed) == i,
        offer_at(listed, i),
{
    assert forall|k: int| 0 <= k < i implies text_member(#[trigger] listed[k], "type"@) != Some(
        "http-01"@,
    ) by {
        assert(challenges[k].decoded_from(listed[k]));
    }
    assert(offer_at(listed, i));
}

impl StatusType {
    /// Reads the status that a value names.
    pub fn decode(value: &Json) -> (decoded: Result<StatusType, AcmeError>)
        ensures
            match decoded {
                Ok(status) => status_type_of(value@) == Some(status),
                Err(e) => e == AcmeError::Decode && status_type_of(value@) is None,
            },
    {
        match value {
            Json::Str(text) => {
                if same_text(text.as_str(), "valid") {
                    Ok(StatusType::Valid)
                } else if same_text(text.as_str(), "pending") {
                    Ok(StatusType::Pending)
                } else if same_text(text.as_str(), "invalid") {
                    Ok(StatusType::Invalid)
                } else {
                    Err(AcmeError::Decode)
                }
            },
            _ => Err(AcmeError::Decode),
        }
    }

    /// Reads the status under `key`, which must be there.
    pub fn decode_member(document: &Json, key: &str) -> (decoded: Result<StatusType, AcmeError>)
        ensures
            match decoded {
                Ok(status) => status_member(document@, key@) == Some(status),
                Err(e) => e == AcmeError::Decode && status_member(document@, key@) is None,
            },
    {
        match document.get(key) {
            Some(value) => StatusType::decode(value),
            None => Err(AcmeError::Decode),
        }
    }
}

impl Challenge {
    /// Whether a document describes a challenge: a status, a token, a type
    /// and a URL.
    pub open spec fn decodable(document: JsonModel) -> bool {
        &&& status_member(document, "status"@) is Some
        &&& text_member(document, "token"@) is Some
        &&& text_member(document, "type"@) is Some
        &&& text_member(document, "url"@) is Some
    }

    /// Whether `self` holds what `document` says of a challenge.
    pub open spec fn decoded_from(&self, document: JsonModel) -> bool {
        &&& status_member(document, "status"@) == Some(self.status)
        &&& text_member(document, "token"@) == Some(self.token@)
        &&& text_member(document, "type"@) == Some(self.challenge_type@)
        &&& text_member(document, "url"@) == Some(self.url@)
    }

    /// Reads a challenge from a document.
    pub fn decode(document: &Json) -> (decoded: Result<Challenge, AcmeError>)
        ensures
            match decoded {
                Ok(challenge) => challenge.decoded_from(document@),
                Err(e) => e == AcmeError::Decode && !Self::decodable(document@),
            },
    {
        let status = StatusType::decode_member(document, "status")?;
        let token = required_text(document, "token")?;
        let challenge_type = required_text(document, "type")?;
        let url = required_text(document, "url")?;
        Ok(Challenge { status, token, challenge_type, url })
    }

    /// Whether a value is a list of challenges.
    pub open spec fn list_decodable(value: JsonModel) -> bool {
        &&& value is Array
        &&& forall|i: int|
            0 <= i < value->Array_0.len() ==> Self::decodable(#[trigger] value->Array_0[i])
    }

    /// Whether `challenges` holds what `value` says, challenge by challenge.
    pub open spec fn list_decoded_from(challenges: Seq<Challenge>, value: JsonModel) -> bool {
        &&& value is Array
        &&& challenges.len() == value->Array_0.len()
        &&& forall|i: int|
            0 <= i < challenges.len() ==> (#[trigger] challenges[i]).decoded_from(
                value->Array_0[i],
            )
    }

    /// A value from which a list of challenges was read is a list of
    /// challenges.
    pub proof fn lemma_list_decoded(challenges: Seq<Challenge>, value: JsonModel)
        requires
            Self::list_decoded_from(challenges, value),
        ensures
            Self::list_decodable(value),
    {
        assert forall|i: int| 0 <= i < value->Array_0.len() implies Self::decodable(
            #[trigger] value->Array_0[i],
        ) by {
            assert(challenges[i].decoded_from(value->Array_0[i]));
        }
    }

    /// Reads a list of challenges.
    pub fn decode_list(value: &Json) -> (decoded: Result<Vec<Challenge>, AcmeError>)
        ensures
            match decoded {
                Ok(challenges) => Self::list_decoded_from(challenges@, value@),
                Err(e) => e == AcmeError::Decode && !Self::list_decodable(value@),
            },
    {
        match value {
            Json::Array(items) => {
                let mut challenges: Vec<Challenge> = Vec::new();
                let mut i: usize = 0;
                while i < items.len()
                    invariant
                        *value == Json::Array(*items),
                        i <= items@.len(),
                        challenges@.len() == i,
                        forall|k: int|
                            0 <= k < i ==> (#[trigger] challenges@[k]).decoded_from(items@[k]@),
                    decreases items@.len() - i,
                {
                    match Challenge::decode(&items[i]) {
                        Ok(challenge) => {
                            challenges.push(challenge);
                        },
                        Err(e) => {
                            assert(!Self::decodable(value@->Array_0[i as int]));
                            return Err(e);
                        },
                    }
                    i = i + 1;
                }
                Ok(challenges)
            },
            _ => Err(AcmeError::Decode),
        }
    }
}

impl ChallengeAuthorisation {
    /// Whether a document describes an authorization: an identifier, a
    /// status, an expiry, a list of challenges and, where it is given, a
    /// flag for wildcards.
    pub open spec fn decodable(document: JsonModel) -> bool {
        &&& member(document, "identifier"@) is Some
        &&& status_member(document, "status"@) is Some
        &&& text_member(document, "expires"@) is Some
        &&& member(document, "challenges"@) matches Some(challenges) && Challenge::list_decodable(
            challenges,
        )
        &&& optional_bool_member(document, "wildcard"@) is Some
    }

    /// Whether `self` holds what `document` says of an authorization.
    pub open spec fn decoded_from(&self, document: JsonModel) -> bool {
        &&& member(document, "identifier"@) == Some(self.identifier@)
        &&& status_member(document, "status"@) == Some(self.status)
        &&& text_member(document, "expires"@) == Some(self.expires@)
        &&& member(document, "challenges"@) matches Some(challenges)
            && Challenge::list_decoded_from(self.challenges@, challenges)
        &&& optional_bool_member(document, "wildcard"@) == Some(self.wildcard)
    }

    /// What was read from a document can be read from it, and a challenge
    /// of the type HTTP-01 that was read was offered.
    pub proof fn lemma_decoded(authorization: ChallengeAuthorisation, document: JsonModel)
        requires
            authorization.decoded_from(document),
        ensures
            Self::decodable(document),
            !no_http_challenge(authorization.challenges@) ==> Self::offers_http(document),
    {
        let listed = member(document, "challenges"@)->0;
        Challenge::lemma_list_decoded(authorization.challenges@, listed);
    }

    /// Whether a document offers a challenge of the type HTTP-01.
    pub open spec fn offers_http(document: JsonModel) -> bool {
        member(document, "challenges"@) matches Some(JsonModel::Array(challenges)) && exists|
            i: int,
        |
            0 <= i < challenges.len() && text_member(#[trigger] challenges[i], "type"@) == Some(
                "http-01"@,
            )
    }

    /// Reads an authorization from a document, without nonce.
    pub fn decode(document: &Json) -> (decoded: Result<ChallengeAuthorisation, AcmeError>)
        ensures
            match decoded {
                Ok(authorization) => authorization.decoded_from(document@) && Self::decodable(
                    document@,
                ) && authorization.nonce@ == Seq::<char>::empty(),
                Err(e) => e == AcmeError::Decode && !Self::decodable(document@),
            },
    {
        let identifier = match document.get("identifier") {
            Some(value) => value.duplicate(),
            None => {
                return Err(AcmeError::Decode);
            },
        };
        let status = StatusType::decode_member(document, "status")?;
        let expires = required_text(document, "expires")?;
        let challenges = match document.get("challenges") {
            Some(value) => Challenge::decode_list(value)?,
            None => {
                return Err(AcmeError::Decode);
            },
        };
        let wildcard = optional_bool(document, "wildcard")?;
        proof {
            Challenge::lemma_list_decoded(challenges@, member(document@, "challenges"@)->0);
        }
        Ok(
            ChallengeAuthorisation {
                identifier,
                status,
                expires,
                challenges,
                wildcard,
                nonce: String::new(),
            },
        )
    }

    /// The place of the first challenge of the type HTTP-01, if there is
    /// one. No other type is ever chosen.
    pub fn http_challenge_index(&self) -> (found: Option<usize>)
        ensures
            match found {
                Some(i) => http_challenge_at(self.challenges@, i as int) && i as int
                    == first_http_challenge(self.challenges@),
                None => no_http_challenge(self.challenges@),
            },
    {
        let mut i: usize = 0;
        while i < self.challenges.len()
            invariant
                i <= self.challenges@.len(),
                forall|k: int| 0 <= k < i ==> !is_http(#[trigger] self.challenges@[k]),
            decreases self.challenges@.len() - i,
        {
            if same_text(self.challenges[i].challenge_type.as_str(), "http-01") {
                proof {
                    lemma_first_http_challenge(self.challenges@, i as int);
                }
                return Some(i);
            }
            i = i + 1;
        }
        None
    }

    /// Reads the authorization from the response to the request for it and
    /// takes the nonce for the next request from it. An authorization that
    /// offers no HTTP-01 challenge is not supported.
    pub fn from_response(response: Response) -> (read: Result<ChallengeAuthorisation, AcmeError>)
        ensures
            match read {
                Ok(authorization) => {
                    &&& response.replay_nonce == Some(authorization.nonce)
                    &&& response.body matches Some(document) && authorization.decoded_from(
                        document@,
                    )
                    &&& !no_http_challenge(authorization.challenges@)
                },
                Err(e) => if response.replay_nonce is Some && (response.body matches Some(
                    document,
                ) && Self::decodable(document@)) {
                    e == AcmeError::UnsupportedChallenge && !Self::offers_http(
                        response.body->0@,
                    )
                } else {
                    rejected(response, false, false, e)
                },
            },
    {
        let (nonce, document) = extract_payload_and_nonce(response)?;
        let decoded = ChallengeAuthorisation::decode(&document)?;
        let authorization = ChallengeAuthorisation {
            identifier: decoded.identifier,
            status: decoded.status,
            expires: decoded.expires,
            challenges: decoded.challenges,
            wildcard: decoded.wildcard,
            nonce,
        };
        match authorization.http_challenge_index() {
            Some(_) => Ok(authorization),
            None => {
                proof {
                    let listed = member(document@, "challenges"@)->0->Array_0;
                    if Self::offers_http(document@) {
                        let i = choose|i: int|
                            0 <= i < listed.len() && text_member(#[trigger] listed[i], "type"@)
                                == Some("http-01"@);
                        assert(authorization.challenges@[i].decoded_from(listed[i]));
                    }
                }
                Err(AcmeError::UnsupportedChallenge)
            },
        }
    }

    /// Prepares the request that asks the authority to validate the challenge:
    /// an empty payload, sent to the challenge's own URL in the name of the
    /// account at `acc_url`, with the nonce `nonce`.
    pub fn kick_off_http_challenge(challenge_infos: &Challenge, nonce: &str, acc_url: &str) -> (prepared:
        PendingRequest)
        ensures
            prepared_for(
                prepared,
                challenge_infos.url@,
                JsonModel::Str(Seq::empty()),
                kid_header_model(challenge_infos.url@, acc_url@, nonce@),
            ),
    {
        let header = kid_header(challenge_infos.url.as_str(), acc_url, nonce);
        let payload = empty_payload();
        prepare(challenge_infos.url.as_str(), nonce, &payload, &header)
    }

    /// Whether `publication` and `pending` are what completing the
    /// challenge with the given token and URL gives: the publication of the
    /// key authorization under the token, and the request that asks for the
    /// validation.
    pub open spec fn completion(
        publication: Publication,
        pending: PendingRequest,
        token: Seq<char>,
        url: Seq<char>,
        nonce: Seq<char>,
        acc_url: Seq<char>,
        account_key: AccountKey,
    ) -> bool {
        &&& publication.token@ == token
        &&& publication.key_authorization@ == key_authorization_text(
            token,
            thumbprint(account_key.n@, account_key.e@),
        )
        &&& prepared_for(
            pending,
            url,
            JsonModel::Str(Seq::empty()),
            kid_header_model(url, acc_url, nonce),
        )
    }

    /// Works out what is to be published for a challenge, and prepares the
    /// request that asks the authority to validate it.
    pub fn complete_challenge(
        challenge_infos: &Challenge,
        nonce: &str,
        acc_url: &str,
        account_key: &AccountKey,
    ) -> (completed: (Publication, PendingRequest))
        ensures
            Self::completion(
                completed.0,
                completed.1,
                challenge_infos.token@,
                challenge_infos.url@,
                nonce@,
                acc_url@,
                *account_key,
            ),
    {
        let publication = Publication {
            token: challenge_infos.token.clone(),
            key_authorization: key_authorization(challenge_infos.token.as_str(), account_key),
        };
        let pending = Self::kick_off_http_challenge(challenge_infos, nonce, acc_url);
        (publication, pending)
    }

    /// Completes the HTTP-01 challenge of the authorization: what is to be
    /// published under the challenge's token, and the request that asks the
    /// authority to validate it, with the authorization's nonce. Fails
    /// exactly where the authorization holds no HTTP-01 challenge.
    pub fn complete_http_challenge(&self, account_url: &str, account_key: &AccountKey) -> (completed:
        Result<(Publication, PendingRequest), AcmeError>)
        ensures
            match completed {
                Ok((publication, pending)) => !no_http_challenge(self.challenges@)
                    && Self::completion(
                    publication,
                    pending,
                    self.challenges@[first_http_challenge(self.challenges@)].token@,
                    self.challenges@[first_http_challenge(self.challenges@)].url@,
                    self.nonce@,
                    account_url@,
                    *account_key,
                ),
                Err(e) => e == AcmeError::UnsupportedChallenge && no_http_challenge(
                    self.challenges@,
                ),
            },
    {
        match self.http_challenge_index() {
            None => Err(AcmeError::UnsupportedChallenge),
            Some(i) => Ok(
                Self::complete_challenge(
                    &self.challenges[i],
                    self.nonce.as_str(),
                    account_url,
                    account_key,
                ),
            ),
        }
    }

    /// Takes the nonce from the response to the request for the validation. A
    /// response without one is a protocol violation.
    pub fn challenge_accepted(response: Response) -> (accepted: Result<Nonce, AcmeError>)
        ensures
            match accepted {
                Ok(nonce) => response.replay_nonce == Some(nonce),
                Err(e) => e == AcmeError::Protocol(ProtocolViolation::MissingNonce)
                    && response.replay_nonce is None,
            },
    {
        match response.replay_nonce {
            Some(nonce) => Ok(nonce),
            None => Err(AcmeError::Protocol(ProtocolViolation::MissingNonce)),
        }
    }
}

} // verus!
