//! Output scripts read as regtest addresses.

use vstd::prelude::*;

verus! {

/// The address text that an output script decodes to on regtest, or `None`
/// for a script of no standard address form.
pub uninterp spec fn regtest_address(script: Seq<u8>) -> Option<Seq<char>>;

/// Relies on `bitcoin::Address::from_script` with the regtest parameters and on
/// the address's `Display`: the outcome depends on the script bytes alone, and
/// an empty script has no address form.
#[verifier::external_body]
pub(crate) fn decode_address(script: &Vec<u8>) -> (r: Option<String>)
    ensures
        r matches Some(s) ==> regtest_address(script@) == Some(s@),
        r is None ==> regtest_address(script@) is None,
        script@.len() == 0 ==> r is None,
{
    let script = bitcoin::Script::from_bytes(script.as_slice());
    match bitcoin::Address::from_script(script, bitcoin::Network::Regtest) {
        Ok(address) => Some(address.to_string()),
        Err(_) => None,
    }
}

} // verus!
