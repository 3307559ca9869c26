//! The `insert` command: the key type it is given, checked before a key is
//! put into a node's keystore.

use vstd::prelude::*;
use vstd::string::StringSliceAdditionalSpecFns;

verus! {

/// Errors of the command.
#[derive(Debug, Clone, Copy, PartialEq, Eq, Structural)]
pub enum CliError {
    /// The key type is not four bytes long.
    KeyTypeInvalid,
    /// The keystore refused the key.
    KeystoreOperation,
    /// The secret key URI could not be read.
    InvalidUri,
}

/// The cryptography scheme that a key is generated with.
#[derive(Debug, Clone, Copy, PartialEq, Eq, Structural)]
pub enum CryptoScheme {
    /// Ed25519.
    Ed25519,
    /// Sr25519.
    Sr25519,
    /// Ecdsa.
    Ecdsa,
}

/// The four bytes that identify a type of key.
#[derive(Debug, Clone, Copy, PartialEq, Eq)]
pub struct KeyTypeId(pub [u8; 4]);

/// The key type named by a string: its UTF-8 bytes, if there are exactly
/// four of them; `()` otherwise.
pub fn key_type_id_from_str(s: &str) -> (r: Result<KeyTypeId, ()>)
    ensures
        (r is Ok) <==> s.spec_bytes().len() == 4,
        r matches Ok(k) ==> k.0@ == s.spec_bytes(),
{
    let bytes = s.as_bytes();
    if bytes.len() == 4 {
        let k = KeyTypeId([bytes[0], bytes[1], bytes[2], bytes[3]]);
        assert(k.0@ =~= s.spec_bytes());
        Ok(k)
    } else {
        Err(())
    }
}

/// The characters of an optional string.
pub open spec fn string_option_view(o: Option<String>) -> Option<Seq<char>> {
    match o {
        Some(s) => Some(s@),
        None => None,
    }
}

/// The `insert` command: put a key into the keystore of a node.
pub struct InsertKeyCmd {
    /// The secret key URI; if not given, the user is asked for it.
    suri: Option<String>,
    /// Key type, such as "gran" or "imon".
    key_type: String,
    /// The cryptography scheme that should be used to generate the key out
    /// of the given URI.
    pub scheme: CryptoScheme,
}

impl InsertKeyCmd {
    /// A command with the given URI, key type and scheme.
    pub fn new(suri: Option<String>, key_type: String, scheme: CryptoScheme) -> (r: Self)
        ensures
            r.spec_suri() == string_option_view(suri),
            r.spec_key_type() == key_type@,
            r.spec_scheme() == scheme,
    {
        InsertKeyCmd { suri, key_type, scheme }
    }

    /// The cryptography scheme.
    pub closed spec fn spec_scheme(&self) -> CryptoScheme {
        self.scheme
    }

    /// The secret key URI, if given.
    pub closed spec fn spec_suri(&self) -> Option<Seq<char>> {
        string_option_view(self.suri)
    }

    /// The key type as given.
    pub closed spec fn spec_key_type(&self) -> Seq<char> {
        self.key_type@
    }

    /// The secret key URI, if given.
    pub fn suri(&self) -> (r: Option<&str>)
        ensures
            match r {
                Some(s) => self.spec_suri() == Some(s@),
                None => self.spec_suri() is None,
            },
    {
        match &self.suri {
            Some(s) => Some(s.as_str()),
            None => None,
        }
    }

    /// The key type as given.
    pub fn key_type(&self) -> (r: &str)
        ensures
            r@ == self.spec_key_type(),
    {
        self.key_type.as_str()
    }

    /// The identifier of the key type: the key type's UTF-8 bytes, which
    /// must be exactly four; `KeyTypeInvalid` otherwise.
    pub fn key_type_id(&self) -> (r: Result<KeyTypeId, CliError>)
        ensures
            (r is Ok) <==> vstd::utf8::encode_utf8(self.spec_key_type()).len() == 4,
            r matches Ok(k) ==> k.0@ == vstd::utf8::encode_utf8(self.spec_key_type()),
            r matches Err(e) ==> e == CliError::KeyTypeInvalid,
    {
        match key_type_id_from_str(self.key_type.as_str()) {
            Ok(k) => Ok(k),
            Err(()) => Err(CliError::KeyTypeInvalid),
        }
    }
}

} // verus!
