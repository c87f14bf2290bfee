//! Bitcoin networks and addresses.

use std::str::FromStr as _;

use bitcoin::address::NetworkUnchecked;
use bitcoin::{Address, ScriptBuf};
use vstd::prelude::*;

use crate::error::SwapError;
use crate::script::p2tr;

verus! {

/// A Bitcoin network.
#[derive(Clone, Copy, Debug, PartialEq, Eq, Structural, Hash)]
pub enum Network {
    Bitcoin,
    Testnet,
    Testnet4,
    Signet,
    Regtest,
}

/// The text of the address of a script on a network, if the script has one.
pub uninterp spec fn address_of_script(script: Seq<u8>, network: Network) -> Option<Seq<char>>;

/// The normal text and the script of the address that a text writes, if it is one of the network.
pub uninterp spec fn address_of_text(text: Seq<char>, network: Network) -> Option<(Seq<char>, Seq<u8>)>;

/// `bitcoin::Address::from_script`, printed. A taproot script always has an address.
#[verifier::external_body]
fn script_address(script: &[u8], network: Network) -> (text: Option<String>)
    ensures
        match text {
            Some(found) => address_of_script(script@, network) == Some(found@),
            None => address_of_script(script@, network) is None,
        },
        p2tr(script@) ==> text is Some,
{
    let network = match network {
        Network::Bitcoin => bitcoin::Network::Bitcoin,
        Network::Testnet => bitcoin::Network::Testnet,
        Network::Testnet4 => bitcoin::Network::Testnet4,
        Network::Signet => bitcoin::Network::Signet,
        Network::Regtest => bitcoin::Network::Regtest,
    };
    Address::from_script(&ScriptBuf::from_bytes(script.to_vec()), network).ok().map(|found| found.to_string())
}

/// `bitcoin::Address::from_str` and `require_network`: the address printed, and its script.
#[verifier::external_body]
fn text_address(text: &str, network: Network) -> (address: Option<(String, Vec<u8>)>)
    ensures
        match address {
            Some(found) => address_of_text(text@, network) == Some((found.0@, found.1@)),
            None => address_of_text(text@, network) is None,
        },
{
    let network = match network {
        Network::Bitcoin => bitcoin::Network::Bitcoin,
        Network::Testnet => bitcoin::Network::Testnet,
        Network::Testnet4 => bitcoin::Network::Testnet4,
        Network::Signet => bitcoin::Network::Signet,
        Network::Regtest => bitcoin::Network::Regtest,
    };
    let address = Address::<NetworkUnchecked>::from_str(text).ok()?.require_network(network).ok()?;
    Some((address.to_string(), address.script_pubkey().into_bytes()))
}

/// The text of the address of a taproot script.
pub fn taproot_address(script: &[u8], network: Network) -> (text: String)
    requires
        p2tr(script@),
    ensures
        address_of_script(script@, network) == Some(text@),
{
    match script_address(script, network) {
        Some(text) => text,
        None => String::new(),
    }
}

/// The normal text and the script of the address that `text` writes on `network`.
pub fn parse_address(text: &str, network: Network) -> (address: Result<(String, Vec<u8>), SwapError>)
    ensures
        match address {
            Ok(found) => address_of_text(text@, network) == Some((found.0@, found.1@)),
            Err(error) => address_of_text(text@, network) is None && error == SwapError::InvalidAddress,
        },
{
    match text_address(text, network) {
        Some(found) => Ok(found),
        None => Err(SwapError::InvalidAddress),
    }
}

} // verus!
