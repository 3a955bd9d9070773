//! Error kinds shared by the whole library.
//!
//! Every kind is a local, recoverable condition: address text that does not
//! match the expected shape, secret material that cannot be decoded, or an
//! interchange payload whose primitives are malformed.

use vstd::prelude::*;

verus! {

use vstd::string::StringExecFns;

/// The two networks an address can be rendered for. The network decides the
/// expected textual prefix (`f` for the main network, `t` for the test
/// network); it is not part of an address value itself.
#[derive(Clone, Copy, Debug, PartialEq, Eq, Hash, Structural)]
pub enum Network {
    Mainnet,
    Testnet,
}

/// Errors reported by the codec and key subsystems.
#[derive(Clone, Debug, PartialEq, Eq)]
pub enum Error {
    /// Address text is malformed: wrong network prefix, or the native
    /// grammar rejected it. Carries the network the text was parsed under.
    InvalidFormat(Network),
    /// An Ethereum-style address was not `0x` followed by exactly 40 digits.
    InvalidLength,
    /// An Ethereum-style address held a character that is not a hex digit.
    InvalidCharacters,
    /// Secret key material could not be decoded, or key derivation failed.
    InvalidKeyMaterial,
    /// A signature-scheme tag was not recognized.
    UnsupportedScheme,
    /// An interchange payload held a present-but-malformed primitive; carries
    /// the name of the offending field.
    DecodeError(String),
}

impl Error {
    /// Human-readable message, matching the wording callers display.
    pub fn message(&self) -> (r: String)
        ensures
            self matches Error::InvalidLength ==> r@ == "Invalid address length"@,
            self matches Error::InvalidCharacters ==> r@ == "Invalid characters in address"@,
            self == Error::InvalidFormat(Network::Mainnet) ==> r@ == "Not a valid Mainnet address"@,
            self == Error::InvalidFormat(Network::Testnet) ==> r@ == "Not a valid Testnet address"@,
            self matches Error::InvalidKeyMaterial ==> r@ == "Invalid key material"@,
            self matches Error::UnsupportedScheme ==> r@ == "Unsupported signature scheme"@,
            self matches Error::DecodeError(f) ==> r@ == "Malformed field: "@ + f@,
    {
        match self {
            Error::InvalidFormat(Network::Mainnet) => "Not a valid Mainnet address".to_owned(),
            Error::InvalidFormat(Network::Testnet) => "Not a valid Testnet address".to_owned(),
            Error::InvalidLength => "Invalid address length".to_owned(),
            Error::InvalidCharacters => "Invalid characters in address".to_owned(),
            Error::InvalidKeyMaterial => "Invalid key material".to_owned(),
            Error::UnsupportedScheme => "Unsupported signature scheme".to_owned(),
            Error::DecodeError(field) => {
                let mut r = "Malformed field: ".to_owned();
                r.append(field.as_str());
                r
            },
        }
    }
}

} // verus!
