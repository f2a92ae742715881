//! Seeded development personas. Each persona's key is the sr25519 key that the
//! development secret URI `//<Label>` derives.
use vstd::prelude::*;
use vstd::string::StringExecFns;

use subxt_signer::sr25519;
use subxt_signer::{SecretUri, SecretUriError};

verus! {

/// A seeded local persona.
#[derive(Clone, Copy, Debug, PartialEq, Eq, Structural)]
pub enum Persona {
    Alice,
    Bob,
    Charlie,
    Dave,
    Eve,
    Ferdie,
}

/// Why a persona's key could not be derived.
#[derive(Clone, Copy, Debug, PartialEq, Eq, Structural)]
pub enum KeyError {
    /// The secret URI was refused by the URI parser.
    InvalidSecretUri,
    /// The key pair could not be derived from the secret URI.
    KeyDerivation,
}

#[verifier::external_type_specification]
#[verifier::external_body]
pub struct ExSecretUri(subxt_signer::SecretUri);

#[verifier::external_type_specification]
#[verifier::external_body]
pub struct ExSecretUriError(subxt_signer::SecretUriError);

#[verifier::external_type_specification]
#[verifier::external_body]
pub struct ExKeypair(subxt_signer::sr25519::Keypair);

/// Whether the secret-URI grammar of `subxt_signer` accepts `uri`.
pub uninterp spec fn secret_uri_accepted(uri: Seq<char>) -> bool;

/// Whether `subxt_signer` derives an sr25519 key pair from the secret URI
/// `uri`.
pub uninterp spec fn uri_derives_keypair(uri: Seq<char>) -> bool;

/// The 32 public-key bytes of the sr25519 key pair that `subxt_signer`
/// derives from the secret URI `uri`.
pub uninterp spec fn dev_public_key(uri: Seq<char>) -> Seq<u8>;

/// A secret URI that the URI parser accepted, with the text it was parsed from.
pub struct DevSecretUri {
    uri: SecretUri,
    text: Ghost<Seq<char>>,
}

impl DevSecretUri {
    /// The text this URI was parsed from.
    pub closed spec fn uri_text(self) -> Seq<char> {
        self.text@
    }
}

/// An sr25519 key pair, with the text of the secret URI it was derived from.
pub struct DevKeypair {
    keypair: sr25519::Keypair,
    text: Ghost<Seq<char>>,
}

impl DevKeypair {
    /// The text of the secret URI this key pair was derived from.
    pub closed spec fn uri_text(self) -> Seq<char> {
        self.text@
    }

    /// The key pair itself, for signing.
    pub fn into_keypair(self) -> sr25519::Keypair {
        self.keypair
    }
}

/// `SecretUri::from_str` (subxt_signer): parses a secret URI. It fails exactly
/// when the text does not match the URI grammar, which depends on the text
/// alone; the URI it gives back carries the text it was parsed from.
#[verifier::external_body]
fn parse_secret_uri(uri: &str) -> (r: Result<DevSecretUri, SecretUriError>)
    ensures
        r is Ok <==> secret_uri_accepted(uri@),
        r matches Ok(parsed) ==> parsed.uri_text() == uri@,
{
    match <SecretUri as core::str::FromStr>::from_str(uri) {
        Ok(parsed) => Ok(DevSecretUri { uri: parsed, text: Ghost(uri@) }),
        Err(e) => Err(e),
    }
}

/// `sr25519::Keypair::from_uri` (subxt_signer): derives a key pair from a
/// parsed secret URI, `None` where the crate reports an error. Derivation is
/// deterministic in the URI, so whether it succeeds is a function of the
/// text the URI was parsed from; the key pair carries that text.
#[verifier::external_body]
fn keypair_from_uri(uri: &DevSecretUri) -> (r: Option<DevKeypair>)
    ensures
        r is Some <==> uri_derives_keypair(uri.uri_text()),
        r matches Some(k) ==> k.uri_text() == uri.uri_text(),
{
    match sr25519::Keypair::from_uri(&uri.uri) {
        Ok(keypair) => Some(DevKeypair { keypair, text: Ghost(uri.text@) }),
        Err(_) => None,
    }
}

/// `sr25519::Keypair::public_key` (subxt_signer): the 32 public-key bytes,
/// which are also the persona's `AccountId32`. Derivation is deterministic, so
/// the bytes are those that the key pair's secret URI text names.
#[verifier::external_body]
fn public_key_bytes(keypair: &DevKeypair) -> (r: [u8; 32])
    ensures
        r@ == dev_public_key(keypair.uri_text()),
{
    keypair.keypair.public_key().0
}

impl Persona {
    /// The label of the persona, as written in its development secret URI.
    pub open spec fn label_text(self) -> Seq<char> {
        match self {
            Persona::Alice => "Alice"@,
            Persona::Bob => "Bob"@,
            Persona::Charlie => "Charlie"@,
            Persona::Dave => "Dave"@,
            Persona::Eve => "Eve"@,
            Persona::Ferdie => "Ferdie"@,
        }
    }

    /// The development secret URI of the persona: `//` followed by its label.
    pub open spec fn secret_uri_text(self) -> Seq<char> {
        "//"@ + self.label_text()
    }

    /// All seeded personas, in their canonical order.
    pub fn all() -> (r: [Persona; 6])
        ensures
            r@ == seq![
                Persona::Alice,
                Persona::Bob,
                Persona::Charlie,
                Persona::Dave,
                Persona::Eve,
                Persona::Ferdie,
            ],
    {
        [Persona::Alice, Persona::Bob, Persona::Charlie, Persona::Dave, Persona::Eve, Persona::Ferdie]
    }

    /// The persona's label.
    pub fn label(self) -> (r: &'static str)
        ensures
            r@ == self.label_text(),
    {
        match self {
            Persona::Alice => "Alice",
            Persona::Bob => "Bob",
            Persona::Charlie => "Charlie",
            Persona::Dave => "Dave",
            Persona::Eve => "Eve",
            Persona::Ferdie => "Ferdie",
        }
    }

    /// The persona's development secret URI, `//<Label>`.
    pub fn secret_uri(self) -> (r: String)
        ensures
            r@ == self.secret_uri_text(),
    {
        let mut uri = String::from_str("//");
        uri.append(self.label());
        uri
    }

    /// The persona's sr25519 key pair, derived from its development secret URI.
    /// The URI handed to the parser is `//<Label>`; a refusal by the parser
    /// gives `InvalidSecretUri`, a refusal by the key derivation
    /// `KeyDerivation`, and otherwise the key pair of that URI.
    pub fn keypair(self) -> (r: Result<DevKeypair, KeyError>)
        ensures
            r is Ok <==> secret_uri_accepted(self.secret_uri_text()) && uri_derives_keypair(
                self.secret_uri_text(),
            ),
            r is Err && r->Err_0 == KeyError::InvalidSecretUri <==> !secret_uri_accepted(
                self.secret_uri_text(),
            ),
            r is Err && r->Err_0 == KeyError::KeyDerivation <==> secret_uri_accepted(
                self.secret_uri_text(),
            ) && !uri_derives_keypair(self.secret_uri_text()),
            r matches Ok(k) ==> k.uri_text() == self.secret_uri_text(),
    {
        let uri_text = self.secret_uri();
        match parse_secret_uri(uri_text.as_str()) {
            Err(_) => Err(KeyError::InvalidSecretUri),
            Ok(uri) => match keypair_from_uri(&uri) {
                Some(keypair) => Ok(keypair),
                None => Err(KeyError::KeyDerivation),
            },
        }
    }

    /// The persona's account id: the public-key bytes of the key pair that
    /// its development secret URI `//<Label>` derives, with the errors of
    /// `keypair`.
    pub fn account_id(self) -> (r: Result<[u8; 32], KeyError>)
        ensures
            r is Ok <==> secret_uri_accepted(self.secret_uri_text()) && uri_derives_keypair(
                self.secret_uri_text(),
            ),
            r is Err && r->Err_0 == KeyError::InvalidSecretUri <==> !secret_uri_accepted(
                self.secret_uri_text(),
            ),
            r is Err && r->Err_0 == KeyError::KeyDerivation <==> secret_uri_accepted(
                self.secret_uri_text(),
            ) && !uri_derives_keypair(self.secret_uri_text()),
            r matches Ok(bytes) ==> bytes@ == dev_public_key(self.secret_uri_text()),
    {
        match self.keypair() {
            Ok(keypair) => Ok(public_key_bytes(&keypair)),
            Err(e) => Err(e),
        }
    }
}

} // verus!
