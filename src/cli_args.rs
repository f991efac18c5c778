use vstd::prelude::*;

verus! {

/// `c` with an ASCII capital letter turned into its small letter.
pub open spec fn ascii_lower(c: char) -> char {
    if 'A' <= c <= 'Z' {
        ((c as u32) + 32) as char
    } else {
        c
    }
}

/// `s` with every ASCII capital letter turned into its small letter.
pub open spec fn ascii_lower_seq(s: Seq<char>) -> Seq<char> {
    s.map_values(|c: char| ascii_lower(c))
}

/// Relies on str::to_ascii_lowercase: ASCII capitals become small letters, every
/// other character stays as it is.
#[verifier::external_body]
pub(crate) fn to_ascii_lower(s: &str) -> (r: String)
    ensures
        r@ == ascii_lower_seq(s@),
{
    s.to_ascii_lowercase()
}

/// What str::to_lowercase makes of a string.
pub uninterp spec fn lower_of(s: Seq<char>) -> Seq<char>;

/// Relies on str::to_lowercase: the result depends on the characters alone.
#[verifier::external_body]
fn to_lower(s: &str) -> (r: String)
    ensures
        r@ == lower_of(s@),
{
    s.to_lowercase()
}

/// Kind of key that signs.
#[derive(Debug, Clone, Copy, PartialEq, Eq, Structural)]
pub enum KeyType {
    Rsa,
    Ecdsa,
}

/// Message digest used when signing.
#[derive(Debug, Clone, Copy, PartialEq, Eq, Structural)]
pub enum MdType {
    Sha256,
    Sha384,
    Sha512,
}

impl MdType {
    /// Length in bytes of a digest of this kind.
    pub open spec fn spec_digest_len(self) -> nat {
        match self {
            MdType::Sha256 => 32,
            MdType::Sha384 => 48,
            MdType::Sha512 => 64,
        }
    }

    pub fn digest_len(&self) -> (r: usize)
        ensures
            r == self.spec_digest_len(),
    {
        match self {
            MdType::Sha256 => 32,
            MdType::Sha384 => 48,
            MdType::Sha512 => 64,
        }
    }
}

/// Elliptic curve of an ECDSA key.
#[derive(Debug, Clone, Copy, PartialEq, Eq, Structural)]
pub enum EcGroupId {
    SecP192R1,
    SecP224R1,
    SecP256R1,
    SecP384R1,
    SecP521R1,
}

/// Why an option value was not understood.
#[derive(Debug, Clone, Copy, PartialEq, Eq, Structural)]
pub enum ParseError {
    UnknownOperationType,
    UnknownKeyType,
    UnsupportedMdType,
    UnsupportedCurve,
}

pub open spec fn key_type_of(s: Seq<char>) -> Result<KeyType, ParseError> {
    if ascii_lower_seq(s) == "rsa"@ {
        Ok(KeyType::Rsa)
    } else if ascii_lower_seq(s) == "ecdsa"@ {
        Ok(KeyType::Ecdsa)
    } else {
        Err(ParseError::UnknownKeyType)
    }
}

/// The digest named by an already lowercased name.
pub open spec fn md_type_of(l: Seq<char>) -> Result<MdType, ParseError> {
    if l == "sha256"@ {
        Ok(MdType::Sha256)
    } else if l == "sha384"@ {
        Ok(MdType::Sha384)
    } else if l == "sha512"@ {
        Ok(MdType::Sha512)
    } else {
        Err(ParseError::UnsupportedMdType)
    }
}

/// The curve named by an already lowercased name.
pub open spec fn ec_group_id_of(l: Seq<char>) -> Result<EcGroupId, ParseError> {
    if l == "secp192r1"@ || l == "nistp192"@ {
        Ok(EcGroupId::SecP192R1)
    } else if l == "secp224r1"@ || l == "nistp224"@ {
        Ok(EcGroupId::SecP224R1)
    } else if l == "secp256r1"@ || l == "nistp256"@ {
        Ok(EcGroupId::SecP256R1)
    } else if l == "secp384r1"@ || l == "nistp384"@ {
        Ok(EcGroupId::SecP384R1)
    } else if l == "secp521r1"@ || l == "nistp521"@ {
        Ok(EcGroupId::SecP521R1)
    } else {
        Err(ParseError::UnsupportedCurve)
    }
}

impl KeyType {
    /// Reads a key type, ignoring ASCII case.
    pub fn parse(s: &str) -> (r: Result<KeyType, ParseError>)
        ensures
            r == key_type_of(s@),
    {
        let l = to_ascii_lower(s);
        if l == "rsa".to_owned() {
            Ok(KeyType::Rsa)
        } else if l == "ecdsa".to_owned() {
            Ok(KeyType::Ecdsa)
        } else {
            Err(ParseError::UnknownKeyType)
        }
    }

    /// The name under which the key type is reported.
    pub fn name(&self) -> (r: &'static str)
        ensures
            *self == KeyType::Rsa ==> r@ == "Rsa"@,
            *self == KeyType::Ecdsa ==> r@ == "Ecdsa"@,
    {
        match self {
            KeyType::Rsa => "Rsa",
            KeyType::Ecdsa => "Ecdsa",
        }
    }
}

/// The digest named by `l`, which is already in lower case.
pub fn md_type_from_lowercase(l: &String) -> (r: Result<MdType, ParseError>)
    ensures
        r == md_type_of(l@),
{
    if *l == "sha256".to_owned() {
        Ok(MdType::Sha256)
    } else if *l == "sha384".to_owned() {
        Ok(MdType::Sha384)
    } else if *l == "sha512".to_owned() {
        Ok(MdType::Sha512)
    } else {
        Err(ParseError::UnsupportedMdType)
    }
}

/// Reads a digest name, in any case.
pub fn str_to_md_type(s: &str) -> (r: Result<MdType, ParseError>)
    ensures
        r == md_type_of(lower_of(s@)),
{
    md_type_from_lowercase(&to_lower(s))
}

/// The curve named by `l`, which is already in lower case.
pub fn ec_group_id_from_lowercase(l: &String) -> (r: Result<EcGroupId, ParseError>)
    ensures
        r == ec_group_id_of(l@),
{
    if *l == "secp192r1".to_owned() || *l == "nistp192".to_owned() {
        Ok(EcGroupId::SecP192R1)
    } else if *l == "secp224r1".to_owned() || *l == "nistp224".to_owned() {
        Ok(EcGroupId::SecP224R1)
    } else if *l == "secp256r1".to_owned() || *l == "nistp256".to_owned() {
        Ok(EcGroupId::SecP256R1)
    } else if *l == "secp384r1".to_owned() || *l == "nistp384".to_owned() {
        Ok(EcGroupId::SecP384R1)
    } else if *l == "secp521r1".to_owned() || *l == "nistp521".to_owned() {
        Ok(EcGroupId::SecP521R1)
    } else {
        Err(ParseError::UnsupportedCurve)
    }
}

/// Reads a curve name, in any case.
pub fn str_to_ec_group_id(s: &str) -> (r: Result<EcGroupId, ParseError>)
    ensures
        r == ec_group_id_of(lower_of(s@)),
{
    ec_group_id_from_lowercase(&to_lower(s))
}

} // verus!
