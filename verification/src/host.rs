//! The host's lists and strings, and what the protocol reads of them.
//!
//! A host list or string is a handle to memory that the host keeps. The
//! protocol works on what they hold, read once at the door by the two
//! functions of this module. Nothing is proved of these two: their contracts
//! say what `amounts_in` and `bytes_in` mean.

use vstd::prelude::*;

verus! {

/// `soroban_sdk::Vec`, which verified code hands on without looking inside.
#[verifier::external_type_specification]
#[verifier::external_body]
#[verifier::reject_recursive_types(T)]
pub struct ExHostVec<T>(soroban_sdk::Vec<T>);

/// `soroban_sdk::String`, which verified code hands on without looking
/// inside.
#[verifier::external_type_specification]
#[verifier::external_body]
pub struct ExHostString(soroban_sdk::String);

/// The amounts that a host list holds, in order; `None` where the host does
/// not read every item of the list as an amount.
pub uninterp spec fn amounts_in(list: soroban_sdk::Vec<i128>) -> Option<Seq<i128>>;

/// The bytes that a host string holds, in order.
pub uninterp spec fn bytes_in(text: soroban_sdk::String) -> Seq<u8>;

/// Calls `soroban_sdk::Vec::try_iter` and collects what it yields. Believed,
/// not proved: the result is what `amounts_in` names, that is the items of
/// the list in order, or `None` where the host refuses to read one of them
/// as an `i128`. The call reads the list and does not change it.
#[verifier::external_body]
pub(crate) fn host_amounts(list: &soroban_sdk::Vec<i128>) -> (items: Option<Vec<i128>>)
    ensures
        match items {
            Some(found) => amounts_in(*list) == Some(found@),
            None => amounts_in(*list) is None,
        },
{
    list.try_iter().collect::<Result<Vec<i128>, _>>().ok()
}

/// Calls `soroban_sdk::String::copy_into_slice` on a buffer of the string's
/// length. Believed, not proved: the result is what `bytes_in` names, that
/// is the bytes of the string in order.
#[verifier::external_body]
pub(crate) fn host_bytes(text: &soroban_sdk::String) -> (bytes: Vec<u8>)
    ensures
        bytes@ == bytes_in(*text),
{
    let mut bytes = vec![0u8; text.len() as usize];
    text.copy_into_slice(&mut bytes);
    bytes
}

} // verus!
