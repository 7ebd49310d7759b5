//! The configuration of one participant: its signing key as text, its user
//! id and the addresses it listens on.

use vstd::prelude::*;
use vstd::string::StringExecFns;
use libp2p::identity::ed25519::Keypair;
use libp2p::identity::error::DecodingError;

verus! {

/// The error of `base64::decode`, carried through unread.
#[verifier::external_type_specification]
#[verifier::external_body]
pub struct ExBase64DecodeError(base64::DecodeError);

/// The error of `Keypair::decode`, carried through unread.
#[verifier::external_type_specification]
#[verifier::external_body]
pub struct ExDecodingError(libp2p::identity::error::DecodingError);

/// An Ed25519 keypair of `libp2p`, carried through unread.
#[verifier::external_type_specification]
#[verifier::external_body]
pub struct ExKeypair(libp2p::identity::ed25519::Keypair);

/// The length of an encoded Ed25519 keypair: the secret key and the public
/// key, 32 bytes each.
pub const KEYPAIR_LENGTH: usize = 64;

/// The text that `base64::encode_config` gives for the bytes under
/// `base64::STANDARD_NO_PAD`.
pub uninterp spec fn base64_no_pad(bytes: Seq<u8>) -> Seq<char>;

/// The bytes that `base64::decode` gives for the text, if it accepts it.
pub uninterp spec fn base64_decoded(text: Seq<char>) -> Option<Seq<u8>>;

/// Whether `Keypair::decode` of `libp2p::identity::ed25519` accepts the
/// bytes as a keypair.
pub uninterp spec fn keypair_decodes(bytes: Seq<u8>) -> bool;

/// What is kept in the configuration file.
#[derive(Clone, Debug, PartialEq, Eq)]
pub struct Config {
    pub private_key: String,
    pub id: String,
    pub listen_on: Vec<String>,
}

/// Why the configured key is not a keypair.
pub enum DecodeKeypairError {
    /// The text is not base64.
    NotBase64(base64::DecodeError),
    /// The bytes are not an Ed25519 keypair.
    NotAKeypair(DecodingError),
}

/// Calls `base64::encode_config` with `base64::STANDARD_NO_PAD` on the 64
/// bytes of a key. The contract only names the text that comes back; for an
/// input of this length the call's size computation cannot overflow.
#[verifier::external_body]
fn encode_key(key: &[u8; 64]) -> (r: String)
    ensures
        r@ == base64_no_pad(key@),
{
    base64::encode_config(key, base64::STANDARD_NO_PAD)
}

/// Calls `base64::decode`. The contract names the bytes that come back and
/// says that the call fails exactly when there are none.
#[verifier::external_body]
fn decode_text(text: &str) -> (r: Result<Vec<u8>, base64::DecodeError>)
    ensures
        match base64_decoded(text@) {
            Some(bytes) => r matches Ok(v) && v@ == bytes,
            None => r is Err,
        },
{
    base64::decode(text)
}

/// Calls `Keypair::decode` of `libp2p::identity::ed25519`, which reads a
/// keypair from its 64-byte encoding and clears the buffer when it
/// succeeds. The contract names whether it succeeds, and says that it fails
/// on any other length.
#[verifier::external_body]
fn decode_keypair(bytes: Vec<u8>) -> (r: Result<Keypair, DecodingError>)
    ensures
        r is Ok == keypair_decodes(bytes@),
        bytes@.len() != KEYPAIR_LENGTH ==> r is Err,
{
    let mut buffer = bytes;
    Keypair::decode(buffer.as_mut_slice())
}

/// Whether the configuration path comes from the default location: when
/// the environment names none, or names an empty one.
pub fn uses_default_path(from_env: &Option<String>) -> (r: bool)
    ensures
        r == match *from_env {
            Some(path) => path@.len() == 0,
            None => true,
        },
{
    match from_env {
        Some(path) => path.as_str().unicode_len() == 0,
        None => true,
    }
}

impl Config {
    /// The configuration written when none exists: the key as unpadded
    /// base64, the given id, and the two wildcard listen addresses.
    pub fn generated(key: &[u8; 64], id: String) -> (c: Config)
        ensures
            c.private_key@ == base64_no_pad(key@),
            c.id@ == id@,
            c.listen_on@.len() == 2,
            c.listen_on@[0]@ == "/ip4/0.0.0.0/tcp/0"@,
            c.listen_on@[1]@ == "/ip6/::/tcp/0"@,
    {
        let mut listen_on: Vec<String> = Vec::new();
        listen_on.push(String::from_str("/ip4/0.0.0.0/tcp/0"));
        listen_on.push(String::from_str("/ip6/::/tcp/0"));
        Config { private_key: encode_key(key), id, listen_on }
    }

    /// The keypair that the configured text stands for. Fails with
    /// `NotBase64` exactly when the text is not base64, and with
    /// `NotAKeypair` exactly when it is but its bytes are no keypair, as
    /// they are not whenever there are not 64 of them.
    pub fn get_keypair(&self) -> (r: Result<Keypair, DecodeKeypairError>)
        ensures
            match base64_decoded(self.private_key@) {
                None => r matches Err(DecodeKeypairError::NotBase64(_)),
                Some(bytes) => if keypair_decodes(bytes) {
                    r is Ok && bytes.len() == KEYPAIR_LENGTH
                } else {
                    r matches Err(DecodeKeypairError::NotAKeypair(_))
                },
            },
    {
        match decode_text(self.private_key.as_str()) {
            Err(e) => Err(DecodeKeypairError::NotBase64(e)),
            Ok(bytes) => match decode_keypair(bytes) {
                Ok(pair) => Ok(pair),
                Err(e) => Err(DecodeKeypairError::NotAKeypair(e)),
            },
        }
    }
}

} // verus!
