//! Address parsing and validation.
//!
//! Decoding of the address encodings themselves is done by the
//! `zcash_address` crate; this module holds the decoded address to the
//! active network and classifies it.

use vstd::prelude::*;
use vstd::string::StringExecFns;
use crate::error::Error;
use crate::types::{ConsensusNetwork, Network};
use zcash_address::{ConversionError, ZcashAddress};
use zcash_keys::address::Address;
use zcash_protocol::consensus::NetworkType;
use zcash_protocol::PoolType;

verus! {

/// The pools in which a decoded address can receive funds.
#[derive(Debug, Clone, Copy, PartialEq, Eq, Structural)]
pub struct Receivers {
    pub sapling: bool,
    pub orchard: bool,
    pub transparent: bool,
}

impl Receivers {
    /// Whether funds sent to the address can land in a shielded pool, and so
    /// whether a memo can accompany them.
    pub open spec fn is_shielded(self) -> bool {
        self.sapling || self.orchard
    }

    /// The kind of address that has these receivers.
    pub open spec fn address_type(self) -> AddressType {
        if self.sapling && self.orchard {
            AddressType::Unified
        } else if self.sapling {
            AddressType::Sapling
        } else if self.orchard {
            AddressType::Orchard
        } else {
            AddressType::Transparent
        }
    }
}

/// What `zcash_address` makes of an address string, whatever its network:
/// the receivers of the decoded address, or the text of the decoding error.
pub uninterp spec fn address_parse(address: Seq<char>) -> std::result::Result<Receivers, Seq<char>>;

/// What `zcash_address` objects to where an address string decodes to an
/// address of another network than the one asked for; `None` where the
/// networks agree, or the string is no address at all.
pub uninterp spec fn network_mismatch(address: Seq<char>, network: ConsensusNetwork) -> Option<Seq<char>>;

/// What an address string decodes to under a network: the receivers of the
/// address, or why the string is not an address of that network.
pub open spec fn address_decoding(address: Seq<char>, network: Network) -> std::result::Result<Receivers, Seq<char>> {
    match address_parse(address) {
        Ok(receivers) => match network_mismatch(address, network.spec_consensus_network()) {
            Some(reason) => Err(reason),
            None => Ok(receivers),
        },
        Err(reason) => Err(reason),
    }
}

/// Whether the string is a Zcash address of the network.
pub open spec fn address_is_valid(address: Seq<char>, network: Network) -> bool {
    address_decoding(address, network) is Ok
}

/// Whether the string is a Zcash address of the network that can receive in
/// a shielded pool.
pub open spec fn address_is_shielded(address: Seq<char>, network: Network) -> bool {
    match address_decoding(address, network) {
        Ok(receivers) => receivers.is_shielded(),
        Err(_) => false,
    }
}

/// Decodes an address string of any network.
///
/// Calls `<ZcashAddress as FromStr>::from_str` and, on the decoded address,
/// `ZcashAddress::can_receive_as` once for each of the Sapling, Orchard and
/// transparent pools. The contract only names the outcome: the same string
/// always decodes to the same receivers or to the same error text (the
/// `Display` form of `zcash_address::ParseError`).
#[verifier::external_body]
fn parse_receivers(address: &str) -> (decoded: std::result::Result<Receivers, String>)
    ensures
        match decoded {
            Ok(receivers) => address_parse(address@) == Ok::<Receivers, Seq<char>>(receivers),
            Err(text) => address_parse(address@) == Err::<Receivers, Seq<char>>(text@),
        },
{
    match address.parse::<ZcashAddress>() {
        Ok(decoded) => Ok(Receivers {
            sapling: decoded.can_receive_as(PoolType::SAPLING),
            orchard: decoded.can_receive_as(PoolType::ORCHARD),
            transparent: decoded.can_receive_as(PoolType::TRANSPARENT),
        }),
        Err(e) => Err(e.to_string()),
    }
}

/// Checks the network of an address string.
///
/// Calls `<ZcashAddress as FromStr>::from_str` and, on the decoded address,
/// `ZcashAddress::convert_if_network` towards `zcash_keys::address::Address`,
/// and keeps the `Display` text of the error where that error is
/// `ConversionError::IncorrectNetwork`. The contract only names the outcome,
/// which depends on the string and the network alone.
#[verifier::external_body]
fn check_network(address: &str, network: ConsensusNetwork) -> (mismatch: Option<String>)
    ensures
        match mismatch {
            Some(text) => network_mismatch(address@, network) == Some(text@),
            None => network_mismatch(address@, network) is None,
        },
{
    let expected = match network {
        ConsensusNetwork::MainNetwork => NetworkType::Main,
        ConsensusNetwork::TestNetwork => NetworkType::Test,
    };
    match address.parse::<ZcashAddress>().map(|a| a.convert_if_network::<Address>(expected)) {
        Ok(Err(e @ ConversionError::IncorrectNetwork { .. })) => Some(e.to_string()),
        _ => None,
    }
}

/// Decodes an address string under a network.
fn decode_address(address: &str, network: Network) -> (decoded: std::result::Result<Receivers, String>)
    ensures
        match decoded {
            Ok(receivers) => address_decoding(address@, network) == Ok::<Receivers, Seq<char>>(receivers),
            Err(text) => address_decoding(address@, network) == Err::<Receivers, Seq<char>>(text@),
        },
{
    match parse_receivers(address) {
        Ok(receivers) => match check_network(address, network.consensus_network()) {
            Some(reason) => Err(reason),
            None => Ok(receivers),
        },
        Err(reason) => Err(reason),
    }
}

/// Decodes an address string under a network where only the receivers
/// matter.
pub fn decode_checked(address: &str, network: Network) -> (decoded: Option<Receivers>)
    ensures
        match decoded {
            Some(receivers) => address_decoding(address@, network) == Ok::<Receivers, Seq<char>>(receivers),
            None => address_decoding(address@, network) is Err,
        },
{
    match decode_address(address, network) {
        Ok(receivers) => Some(receivers),
        Err(_) => None,
    }
}

/// The message of the error that a failed parse is reported with.
pub open spec fn parse_failure_text(reason: Seq<char>) -> Seq<char> {
    "Failed to parse address: "@ + reason
}

/// The result that `parse_address` owes for an address string.
pub open spec fn parse_address_spec(address: Seq<char>, network: Network) -> std::result::Result<Receivers, Seq<char>> {
    match address_decoding(address, network) {
        Ok(receivers) => Ok(receivers),
        Err(reason) => Err(parse_failure_text(reason)),
    }
}

/// Parse and validate a Zcash address of the given network.
///
/// Accepts the unified, Sapling, transparent, TEX and Sprout addresses of
/// the network and returns the pools that the address can receive in. A
/// string that is not an address, or that is an address of another network,
/// gives `Error::Address` with the decoder's reason.
pub fn parse_address(address: &str, network: Network) -> (parsed: std::result::Result<Receivers, Error>)
    ensures
        match parsed {
            Ok(receivers) => parse_address_spec(address@, network) == Ok::<Receivers, Seq<char>>(receivers),
            Err(Error::Address(message)) => parse_address_spec(address@, network) == Err::<Receivers, Seq<char>>(
                message@,
            ),
            Err(_) => false,
        },
{
    match decode_address(address, network) {
        Ok(receivers) => Ok(receivers),
        Err(reason) => {
            let message = String::from_str("Failed to parse address: ").concat(reason.as_str());
            Err(Error::Address(message))
        },
    }
}

/// The outcome of `parse_unified_address` for an address string: the
/// receivers of an address that can receive in a shielded pool, or the error
/// message.
pub open spec fn parse_unified_address_spec(address: Seq<char>, network: Network) -> std::result::Result<
    Receivers,
    Seq<char>,
> {
    match address_decoding(address, network) {
        Ok(receivers) => if receivers.is_shielded() {
            Ok(receivers)
        } else {
            Err("Address is not a Unified Address"@)
        },
        Err(reason) => Err(parse_failure_text(reason)),
    }
}

/// Parse an address that must be able to receive in the Sapling or the
/// Orchard pool.
pub fn parse_unified_address(address: &str, network: Network) -> (parsed: std::result::Result<Receivers, Error>)
    ensures
        match parsed {
            Ok(receivers) => parse_unified_address_spec(address@, network) == Ok::<Receivers, Seq<char>>(receivers),
            Err(Error::Address(message)) => parse_unified_address_spec(address@, network) == Err::<
                Receivers,
                Seq<char>,
            >(message@),
            Err(_) => false,
        },
{
    match parse_address(address, network) {
        Ok(receivers) => {
            if receivers.sapling || receivers.orchard {
                Ok(receivers)
            } else {
                Err(Error::Address(String::from_str("Address is not a Unified Address")))
            }
        },
        Err(e) => Err(e),
    }
}

/// Validate an address format under a network.
pub fn is_valid_address(address: &str, network: Network) -> (valid: bool)
    ensures
        valid == address_is_valid(address@, network),
{
    decode_address(address, network).is_ok()
}

/// Address type enumeration.
#[derive(Debug, Clone, Copy, PartialEq, Eq, Structural)]
pub enum AddressType {
    Unified,
    Sapling,
    Orchard,
    Transparent,
}

impl AddressType {
    /// Lower-case name of the address type.
    pub open spec fn name(&self) -> Seq<char> {
        match *self {
            AddressType::Unified => "unified"@,
            AddressType::Sapling => "sapling"@,
            AddressType::Orchard => "orchard"@,
            AddressType::Transparent => "transparent"@,
        }
    }

    /// Whether addresses of this type can receive memos.
    pub open spec fn spec_supports_memo(&self) -> bool {
        *self != AddressType::Transparent
    }

    /// Lower-case name of the address type.
    pub fn as_str(&self) -> (name: &'static str)
        ensures
            name@ == self.name(),
    {
        match self {
            AddressType::Unified => "unified",
            AddressType::Sapling => "sapling",
            AddressType::Orchard => "orchard",
            AddressType::Transparent => "transparent",
        }
    }

    /// Check if this address type supports memos (shielded addresses only).
    #[verifier::when_used_as_spec(spec_supports_memo)]
    pub fn supports_memo(&self) -> (supported: bool)
        ensures
            supported == self.spec_supports_memo(),
    {
        match self {
            AddressType::Transparent => false,
            _ => true,
        }
    }
}

/// Get the address type of an address string: unified where it can receive
/// in both shielded pools, else the one shielded pool it can receive in, else
/// transparent. An address that can receive in none of the three pools, as a
/// Sprout address, is reported as transparent too.
pub fn get_address_type(address: &str, network: Network) -> (kind: std::result::Result<AddressType, Error>)
    ensures
        match kind {
            Ok(t) => address_is_valid(address@, network) && t == address_decoding(
                address@,
                network,
            )->Ok_0.address_type(),
            Err(Error::Address(message)) => parse_address_spec(address@, network) == Err::<Receivers, Seq<char>>(
                message@,
            ),
            Err(_) => false,
        },
{
    match parse_address(address, network) {
        Ok(receivers) => {
            let t = if receivers.sapling && receivers.orchard {
                AddressType::Unified
            } else if receivers.sapling {
                AddressType::Sapling
            } else if receivers.orchard {
                AddressType::Orchard
            } else {
                AddressType::Transparent
            };
            Ok(t)
        },
        Err(e) => Err(e),
    }
}

/// Check if an address is shielded (supports memos).
pub fn is_shielded_address(address: &str, network: Network) -> (shielded: std::result::Result<bool, Error>)
    ensures
        match shielded {
            Ok(b) => address_is_valid(address@, network) && b == address_is_shielded(address@, network),
            Err(Error::Address(message)) => parse_address_spec(address@, network) == Err::<Receivers, Seq<char>>(
                message@,
            ),
            Err(_) => false,
        },
{
    match parse_address(address, network) {
        Ok(receivers) => Ok(receivers.sapling || receivers.orchard),
        Err(e) => Err(e),
    }
}

/// An address type supports memos exactly when addresses of that type are
/// shielded.
pub proof fn lemma_address_type_memo(receivers: Receivers)
    ensures
        receivers.address_type().spec_supports_memo() == receivers.is_shielded(),
{
}

} // verus!
