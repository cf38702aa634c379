//! The fixed-capacity collections of `heapless` that this library stores:
//! their declarations, what they hold, and the calls made into them.
//!
//! Nothing in this file is proved. Each contract restates what the source of
//! `heapless` shows for the one call in the function's body.

use crate::radio::AccessPointInfo;
use vstd::prelude::*;
use vstd::string::StringSliceAdditionalSpecFns;

verus! {

#[verifier::external_type_specification]
#[verifier::external_body]
#[verifier::reject_recursive_types(T)]
pub struct ExHeaplessVec<T, const N: usize>(heapless::Vec<T, N>);

#[verifier::external_type_specification]
#[verifier::external_body]
pub struct ExHeaplessString<const N: usize>(heapless::String<N>);

/// The addresses that a list of name servers holds, first to last.
pub uninterp spec fn dns_server_list(servers: heapless::Vec<[u8; 16], 3>) -> Seq<[u8; 16]>;

/// The access points that the answer to a scan holds, first to last.
pub uninterp spec fn found_list(found: heapless::Vec<AccessPointInfo, 3>) -> Seq<AccessPointInfo>;

/// The characters that a network name holds.
pub uninterp spec fn ssid_text(name: heapless::String<32>) -> Seq<char>;

/// The characters that a passphrase holds.
pub uninterp spec fn passphrase_text(phrase: heapless::String<64>) -> Seq<char>;

/// `heapless::Vec::new`: the new list holds nothing.
#[verifier::external_body]
pub(crate) fn dns_servers_new() -> (servers: heapless::Vec<[u8; 16], 3>)
    ensures
        dns_server_list(servers) == Seq::<[u8; 16]>::empty(),
{
    heapless::Vec::new()
}

/// `heapless::Vec::as_slice`: the slice is the list's content, in order.
#[verifier::external_body]
pub(crate) fn dns_servers_as_slice(servers: &heapless::Vec<[u8; 16], 3>) -> (items: &[[u8; 16]])
    ensures
        items@ == dns_server_list(*servers),
{
    servers.as_slice()
}

/// `heapless::Vec::as_slice`: the slice is the list's content, in order.
#[verifier::external_body]
pub(crate) fn found_as_slice(found: &heapless::Vec<AccessPointInfo, 3>) -> (items: &[AccessPointInfo])
    ensures
        items@ == found_list(*found),
{
    found.as_slice()
}

/// `heapless::String::try_from(&str)`: succeeds exactly when the text's
/// UTF-8 encoding fits into 32 bytes, and then holds the text.
#[verifier::external_body]
pub(crate) fn ssid_from_str(text: &str) -> (name: Result<heapless::String<32>, ()>)
    ensures
        name is Ok <==> text.spec_bytes().len() <= 32,
        name is Ok ==> ssid_text(name->Ok_0) == text@,
{
    heapless::String::try_from(text)
}

/// `heapless::String::clone`: the copy holds the same text.
#[verifier::external_body]
pub(crate) fn ssid_clone(name: &heapless::String<32>) -> (copy: heapless::String<32>)
    ensures
        ssid_text(copy) == ssid_text(*name),
{
    name.clone()
}

/// `heapless::String::as_str`: the slice is the text held.
#[verifier::external_body]
pub(crate) fn ssid_as_str(name: &heapless::String<32>) -> (text: &str)
    ensures
        text@ == ssid_text(*name),
{
    name.as_str()
}

/// `heapless::String::try_from(&str)`: succeeds exactly when the text's
/// UTF-8 encoding fits into 64 bytes, and then holds the text.
#[verifier::external_body]
pub(crate) fn passphrase_from_str(text: &str) -> (phrase: Result<heapless::String<64>, ()>)
    ensures
        phrase is Ok <==> text.spec_bytes().len() <= 64,
        phrase is Ok ==> passphrase_text(phrase->Ok_0) == text@,
{
    heapless::String::try_from(text)
}

/// `heapless::String::clone`: the copy holds the same text.
#[verifier::external_body]
pub(crate) fn passphrase_clone(phrase: &heapless::String<64>) -> (copy: heapless::String<64>)
    ensures
        passphrase_text(copy) == passphrase_text(*phrase),
{
    phrase.clone()
}

/// `heapless::String::as_str`: the slice is the text held.
#[verifier::external_body]
pub(crate) fn passphrase_as_str(phrase: &heapless::String<64>) -> (text: &str)
    ensures
        text@ == passphrase_text(*phrase),
{
    phrase.as_str()
}

} // verus!
