//! The signed envelope that every request to the authority travels in.

pub use crate::acme::base64::b64;
use crate::acme::base64::{
    base64url, base64url_decoded, lemma_base64url_digits, lemma_base64url_round_trip,
};
use crate::acme::error::{AcmeError, ProtocolViolation, SigningFailure};
use crate::acme::Nonce;
use crate::digest::{sha256, sha256_digest};
use crate::json::{object, push_member, string, Json, JsonModel};
use crate::serial::{compact_text, pretty_text};
use crate::text::{concat, decimal_text, integer_text};
use vstd::prelude::*;
use vstd::utf8::{decode_utf8, encode_utf8, encode_utf8_decode_utf8};

verus! {

/// The public half of the account key, as the key service hands it out: an
/// RSA modulus and exponent, each as big-endian bytes.
pub struct AccountKey {
    pub n: Vec<u8>,
    pub e: Vec<u8>,
}

/// The JSON Web Key of an RSA public key.
pub open spec fn jwk_model(n: Seq<u8>, e: Seq<u8>) -> JsonModel {
    JsonModel::Object(
        Map::empty().insert("e"@, JsonModel::Str(base64url(e))).insert(
            "n"@,
            JsonModel::Str(base64url(n)),
        ).insert("kty"@, JsonModel::Str("RSA"@)),
    )
}

/// The JSON Web Key of the account key: exponent and modulus in base64url,
/// typed `RSA`.
pub fn jwk(account_key: &AccountKey) -> (key: Json)
    ensures
        key@ == jwk_model(account_key.n@, account_key.e@),
        !key.has_float(),
{
    let e = b64(account_key.e.as_slice());
    let n = b64(account_key.n.as_slice());
    let mut members: Vec<(String, Json)> = Vec::new();
    push_member(&mut members, "e", Json::Str(e));
    push_member(&mut members, "n", Json::Str(n));
    push_member(&mut members, "kty", string("RSA"));
    object(members)
}

/// The payload that stands for "no payload": the empty string.
pub open spec fn is_empty_payload(payload: JsonModel) -> bool {
    payload == JsonModel::Str(Seq::empty())
}

/// The text that is signed: the encoded header, a full stop, and the
/// encoded payload.
pub open spec fn signing_input(protected: Seq<char>, payload: Seq<char>) -> Seq<char> {
    protected + seq!['.'] + payload
}

/// The `protected` field of an envelope: the header's text in base64url.
pub open spec fn protected_text(header_text: Seq<char>) -> Seq<char> {
    base64url(encode_utf8(header_text))
}

/// The `payload` field of an envelope: the payload's text in base64url, or
/// nothing for the empty payload.
pub open spec fn payload_text(payload: JsonModel, body_text: Seq<char>) -> Seq<char> {
    if is_empty_payload(payload) {
        Seq::empty()
    } else {
        base64url(encode_utf8(body_text))
    }
}

/// What is handed to the signer: the SHA-256 digest of the signing input, in
/// base64url.
pub open spec fn signer_digest(input: Seq<char>) -> Seq<char> {
    base64url(sha256(encode_utf8(input)))
}

/// A request that is ready for the signer: the two encoded parts, the text
/// that they make, and the digest that the signer is asked to sign.
pub struct SigningRequest {
    pub protected: String,
    pub payload: String,
    pub signing_input: String,
    pub digest: String,
}

impl SigningRequest {
    /// Whether the request is the one that `jws` builds from a header and a
    /// payload whose JSON texts are `header_text` and `body_text`.
    pub open spec fn built_from(
        &self,
        payload: JsonModel,
        header_text: Seq<char>,
        body_text: Seq<char>,
    ) -> bool {
        &&& self.protected@ == protected_text(header_text)
        &&& self.payload@ == payload_text(payload, body_text)
        &&& self.signing_input@ == signing_input(self.protected@, self.payload@)
        &&& self.digest@ == signer_digest(self.signing_input@)
    }
}

/// Whether `payload` is the empty payload.
fn payload_is_empty(payload: &Json) -> (empty: bool)
    ensures
        empty == is_empty_payload(payload@),
{
    match payload {
        Json::Str(text) => {
            let empty = text.as_str().unicode_len() == 0;
            assert(empty ==> text@ =~= Seq::<char>::empty());
            empty
        },
        _ => false,
    }
}

/// Prepares the signed envelope of a request: writes header and payload as
/// JSON text, encodes both, and digests the signing input for the signer.
/// For the empty payload the signing input ends with the full stop and the
/// envelope's payload is empty. Fails, with a serialization failure, exactly
/// where the header or the payload holds a number kept as text, which
/// cannot be written.
pub fn jws(payload: &Json, header: &Json) -> (prepared: Result<SigningRequest, AcmeError>)
    ensures
        match prepared {
            Ok(request) => {
                &&& !header.has_float() && !payload.has_float()
                &&& request.built_from(payload@, pretty_text(header@), pretty_text(payload@))
            },
            Err(e) => {
                &&& e == AcmeError::Signing(SigningFailure::Serialization)
                &&& (header.has_float() || payload.has_float())
            },
        },
{
    let empty_payload = payload_is_empty(payload);
    let payload_json = payload.to_string_pretty()?;
    let header_json = header.to_string_pretty()?;
    let payload64 = b64(payload_json.as_str().as_bytes());
    let header64 = b64(header_json.as_str().as_bytes());
    let payload_part = if empty_payload {
        String::new()
    } else {
        payload64
    };
    let signing_input = concat(concat(header64.as_str(), ".").as_str(), payload_part.as_str());
    proof {
        reveal_strlit(".");
        assert("."@ =~= seq!['.']);
    }
    let digest = b64(sha256_digest(signing_input.as_str().as_bytes()).as_slice());
    Ok(SigningRequest { protected: header64, payload: payload_part, signing_input, digest })
}

/// The header of a request that is made in the name of an account: the
/// algorithm, the account's location as `kid`, the nonce and the target.
pub open spec fn kid_header_model(url: Seq<char>, kid: Seq<char>, nonce: Seq<char>) -> JsonModel {
    JsonModel::Object(
        Map::empty().insert("alg"@, JsonModel::Str("RS256"@)).insert(
            "url"@,
            JsonModel::Str(url),
        ).insert("kid"@, JsonModel::Str(kid)).insert("nonce"@, JsonModel::Str(nonce)),
    )
}

/// The header of the request that registers an account: no location exists
/// yet, so the header carries the public key itself.
pub open spec fn jwk_header_model(url: Seq<char>, key: JsonModel, nonce: Seq<char>) -> JsonModel {
    JsonModel::Object(
        Map::empty().insert("alg"@, JsonModel::Str("RS256"@)).insert(
            "url"@,
            JsonModel::Str(url),
        ).insert("jwk"@, key).insert("nonce"@, JsonModel::Str(nonce)),
    )
}

/// Builds the header of a request in the name of the account at `kid`.
pub fn kid_header(url: &str, kid: &str, nonce: &str) -> (header: Json)
    ensures
        header@ == kid_header_model(url@, kid@, nonce@),
        header_nonce(header@) == Some(nonce@),
        !header.has_float(),
{
    let mut members: Vec<(String, Json)> = Vec::new();
    push_member(&mut members, "alg", string("RS256"));
    push_member(&mut members, "url", string(url));
    push_member(&mut members, "kid", string(kid));
    push_member(&mut members, "nonce", string(nonce));
    object(members)
}

/// Builds the header of the request that registers the key `key`.
pub fn jwk_header(url: &str, key: Json, nonce: &str) -> (header: Json)
    ensures
        header@ == jwk_header_model(url@, key@, nonce@),
        header_nonce(header@) == Some(nonce@),
        !key.has_float() ==> !header.has_float(),
{
    let mut members: Vec<(String, Json)> = Vec::new();
    push_member(&mut members, "alg", string("RS256"));
    push_member(&mut members, "url", string(url));
    push_member(&mut members, "jwk", key);
    push_member(&mut members, "nonce", string(nonce));
    object(members)
}

/// The envelope of a signed request: the two encoded parts and the
/// signature in base64url.
pub open spec fn envelope_model(
    protected: Seq<char>,
    payload: Seq<char>,
    signature: Seq<u8>,
) -> JsonModel {
    JsonModel::Object(
        Map::empty().insert("protected"@, JsonModel::Str(protected)).insert(
            "payload"@,
            JsonModel::Str(payload),
        ).insert("signature"@, JsonModel::Str(base64url(signature))),
    )
}

impl SigningRequest {
    /// Packages the envelope once the signer has answered with `signature`.
    pub fn envelope(&self, signature: &[u8]) -> (envelope: Json)
        ensures
            envelope@ == envelope_model(self.protected@, self.payload@, signature@),
            !envelope.has_float(),
    {
        let mut members: Vec<(String, Json)> = Vec::new();
        push_member(&mut members, "protected", string(self.protected.as_str()));
        push_member(&mut members, "payload", string(self.payload.as_str()));
        push_member(&mut members, "signature", Json::Str(b64(signature)));
        object(members)
    }

    /// The body of the request: the envelope as JSON text.
    pub fn body(&self, signature: &[u8]) -> (body: String)
        ensures
            body@ == pretty_text(envelope_model(self.protected@, self.payload@, signature@)),
    {
        self.envelope(signature).to_string_pretty().unwrap()
    }
}

/// The string that answers an HTTP-01 challenge: the token, a full stop, and
/// the digest of the account key in base64url.
pub open spec fn key_authorization_text(token: Seq<char>, thumbprint: Seq<u8>) -> Seq<char> {
    token + seq!['.'] + base64url(thumbprint)
}

/// The thumbprint of an account key: the SHA-256 digest of its JSON Web Key
/// in compact form.
pub open spec fn thumbprint(n: Seq<u8>, e: Seq<u8>) -> Seq<u8> {
    sha256(encode_utf8(compact_text(jwk_model(n, e))))
}

/// The key authorization of `token` for a key whose thumbprint is
/// `thumbprint`.
pub fn key_authorization_for(token: &str, thumbprint: &[u8]) -> (authorization: String)
    ensures
        authorization@ == key_authorization_text(token@, thumbprint@),
{
    proof {
        reveal_strlit(".");
    }
    concat(concat(token, ".").as_str(), b64(thumbprint).as_str())
}

/// The key authorization of `token` for the account key.
pub fn key_authorization(token: &str, account_key: &AccountKey) -> (authorization: String)
    ensures
        authorization@ == key_authorization_text(
            token@,
            thumbprint(account_key.n@, account_key.e@),
        ),
{
    let key = jwk(account_key);
    let compact = key.to_compact_string().unwrap();
    let digest = sha256_digest(compact.as_str().as_bytes());
    key_authorization_for(token, digest.as_slice())
}

/// The text of a status-like field, which the authority may send as a
/// string or as a number: a string stands for itself, a number for its
/// decimal text. Other values have none.
pub open spec fn status_text(value: JsonModel) -> Option<Seq<char>> {
    match value {
        JsonModel::Str(text) => Some(text),
        JsonModel::Int(i) => Some(decimal_text(i)),
        JsonModel::Float(text) => Some(text),
        _ => None,
    }
}

/// Decodes a status-like field to its text; any value but a string or a
/// number is a decoding error.
pub fn deserialize_to_string(value: &Json) -> (decoded: Result<String, AcmeError>)
    ensures
        match decoded {
            Ok(text) => status_text(value@) == Some(text@),
            Err(e) => e == AcmeError::Decode && status_text(value@) is None,
        },
{
    match value {
        Json::Str(text) => Ok(text.clone()),
        Json::Int(i) => Ok(integer_text(*i)),
        Json::Float(text) => Ok(text.clone()),
        _ => Err(AcmeError::Decode),
    }
}

/// A request that awaits its signature: the URL that it goes to, the nonce
/// that its header carries and that is used up with it, and what the signer
/// needs.
pub struct PendingRequest {
    pub url: String,
    pub nonce: Nonce,
    pub request: SigningRequest,
}

/// A signed request: the URL and the body to post there.
pub struct SignedRequest {
    pub url: String,
    pub body: String,
}

/// The nonce that a header carries.
pub open spec fn header_nonce(header: JsonModel) -> Option<Seq<char>> {
    match crate::json::member(header, "nonce"@) {
        Some(JsonModel::Str(nonce)) => Some(nonce),
        _ => None,
    }
}

/// Whether `pending` is the request for `url` that is built from the given
/// header and payload, and uses up the nonce in the header.
pub open spec fn prepared_for(
    pending: PendingRequest,
    url: Seq<char>,
    payload: JsonModel,
    header: JsonModel,
) -> bool {
    &&& pending.url@ == url
    &&& header_nonce(header) == Some(pending.nonce@)
    &&& pending.request.built_from(payload, pretty_text(header), pretty_text(payload))
}

/// Prepares the request to `url` with the given header and payload.
pub(crate) fn prepare(url: &str, nonce: &str, payload: &Json, header: &Json) -> (pending:
    PendingRequest)
    requires
        !payload.has_float(),
        !header.has_float(),
        header_nonce(header@) == Some(nonce@),
    ensures
        prepared_for(pending, url@, payload@, header@),
{
    let request = jws(payload, header).unwrap();
    PendingRequest { url: url.to_string(), nonce: nonce.to_string(), request }
}

impl PendingRequest {
    /// The signed request, once the signer has answered with `signature`:
    /// it goes to the same URL, and its body is the envelope as JSON text.
    pub fn sign(&self, signature: &[u8]) -> (signed: SignedRequest)
        ensures
            signed.url@ == self.url@,
            signed.body@ == pretty_text(
                envelope_model(self.request.protected@, self.request.payload@, signature@),
            ),
    {
        SignedRequest { url: self.url.clone(), body: self.request.body(signature) }
    }
}

/// The empty payload.
pub fn empty_payload() -> (payload: Json)
    ensures
        is_empty_payload(payload@),
        !payload.has_float(),
{
    let payload = Json::Str(String::new());
    payload
}

/// What came back from the authority: the two headers that the exchanges
/// read, where the response carried them as text, the body as it was sent,
/// and the body as a JSON value where it is one.
pub struct Response {
    pub replay_nonce: Option<String>,
    pub location: Option<String>,
    pub body: Option<Json>,
    pub text: String,
}

/// Extracts the `replay-nonce` header field and the payload from a
/// response. A response without the header is a protocol violation; one
/// with the header whose body is no JSON value is a decoding error.
pub fn extract_payload_and_nonce(response: Response) -> (extracted: Result<
    (Nonce, Json),
    AcmeError,
>)
    ensures
        match extracted {
            Ok((nonce, payload)) => response.replay_nonce == Some(nonce) && response.body == Some(
                payload,
            ),
            Err(e) => if response.replay_nonce is None {
                e == AcmeError::Protocol(ProtocolViolation::MissingNonce)
            } else {
                e == AcmeError::Decode && response.body is None
            },
        },
{
    match response.replay_nonce {
        None => Err(AcmeError::Protocol(ProtocolViolation::MissingNonce)),
        Some(nonce) => match response.body {
            None => Err(AcmeError::Decode),
            Some(payload) => Ok((nonce, payload)),
        },
    }
}

/// Extracts the `location` and `replay-nonce` header fields as well as the
/// payload from a response. The nonce is looked for first, then the
/// location, then the body.
pub fn extract_payload_location_and_nonce(response: Response) -> (extracted: Result<
    (String, Nonce, Json),
    AcmeError,
>)
    ensures
        match extracted {
            Ok((location, nonce, payload)) => {
                &&& response.replay_nonce == Some(nonce)
                &&& response.location == Some(location)
                &&& response.body == Some(payload)
            },
            Err(e) => if response.replay_nonce is None {
                e == AcmeError::Protocol(ProtocolViolation::MissingNonce)
            } else if response.location is None {
                e == AcmeError::Protocol(ProtocolViolation::MissingLocation)
            } else {
                e == AcmeError::Decode && response.body is None
            },
        },
{
    match response.replay_nonce {
        None => Err(AcmeError::Protocol(ProtocolViolation::MissingNonce)),
        Some(nonce) => match response.location {
            None => Err(AcmeError::Protocol(ProtocolViolation::MissingLocation)),
            Some(location) => match response.body {
                None => Err(AcmeError::Decode),
                Some(payload) => Ok((location, nonce, payload)),
            },
        },
    }
}

/// The error that a response gives which lacks a header: a response must
/// carry a nonce and, where one is asked for, a location. A response that
/// has its headers and is rejected all the same has a body that cannot be
/// decoded.
pub open spec fn rejection(response: Response, needs_location: bool) -> AcmeError {
    if response.replay_nonce is None {
        AcmeError::Protocol(ProtocolViolation::MissingNonce)
    } else if needs_location && response.location is None {
        AcmeError::Protocol(ProtocolViolation::MissingLocation)
    } else {
        AcmeError::Decode
    }
}

/// Whether `e` is the error that a rejected response gives: a response must
/// carry a nonce, then, where one is asked for, a location, then a body that
/// is accepted; `e` names the first of these that is missing.
pub open spec fn rejected(
    response: Response,
    needs_location: bool,
    body_accepted: bool,
    e: AcmeError,
) -> bool {
    if response.replay_nonce is None {
        e == AcmeError::Protocol(ProtocolViolation::MissingNonce)
    } else if needs_location && response.location is None {
        e == AcmeError::Protocol(ProtocolViolation::MissingLocation)
    } else {
        e == AcmeError::Decode && !body_accepted
    }
}

/// The two parts of a signing input can be told apart and read back: the
/// first full stop of the input stands right behind the header's part, and
/// each part, decoded from base64url and from UTF-8, is the JSON text that
/// went into it.
pub proof fn lemma_signing_input_decodes(header_text: Seq<char>, body_text: Seq<char>)
    ensures
        ({
            let protected = protected_text(header_text);
            let payload = base64url(encode_utf8(body_text));
            let input = signing_input(protected, payload);
            &&& forall|i: int| 0 <= i < protected.len() ==> input[i] != '.'
            &&& input[protected.len() as int] == '.'
            &&& input.subrange(0, protected.len() as int) == protected
            &&& input.subrange(protected.len() as int + 1, input.len() as int) == payload
            &&& base64url_decoded(protected) matches Some(bytes) && decode_utf8(bytes)
                == header_text
            &&& base64url_decoded(payload) matches Some(bytes) && decode_utf8(bytes) == body_text
        }),
{
    let protected = protected_text(header_text);
    let payload = base64url(encode_utf8(body_text));
    let input = signing_input(protected, payload);
    lemma_base64url_digits(encode_utf8(header_text));
    lemma_base64url_round_trip(encode_utf8(header_text));
    lemma_base64url_round_trip(encode_utf8(body_text));
    encode_utf8_decode_utf8(header_text);
    encode_utf8_decode_utf8(body_text);
}

/// For the empty payload the signing input is the header's part and a full
/// stop at the end, and the envelope's payload is the empty string.
pub proof fn lemma_empty_payload(
    request: SigningRequest,
    payload: JsonModel,
    header_text: Seq<char>,
    body_text: Seq<char>,
    signature: Seq<u8>,
)
    requires
        is_empty_payload(payload),
        request.built_from(payload, header_text, body_text),
    ensures
        request.payload@ == Seq::<char>::empty(),
        request.signing_input@ == request.protected@ + seq!['.'],
        request.signing_input@.last() == '.',
        crate::json::member(
            envelope_model(request.protected@, request.payload@, signature),
            "payload"@,
        ) == Some(JsonModel::Str(Seq::empty())),
{
    assert("payload"@ != "signature"@) by {
        reveal_strlit("payload");
        reveal_strlit("signature");
        assert("payload"@.len() == 7);
    }
}

} // verus!
