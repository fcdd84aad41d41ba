use vstd::prelude::*;
use vstd::string::*;
use crate::text::{chars_contain_str, chars_occur_at, contains_text, starts_with_text, to_chars};

verus! {

/// An address that names a machine of the local network or the machine
/// itself.
pub open spec fn is_local_address(address: Seq<char>) -> bool {
    contains_text(address, "localhost"@) || starts_with_text(address, "127."@) || starts_with_text(
        address,
        "192.168."@,
    ) || starts_with_text(address, "10."@)
}

/// The address to connect to: an address that names its scheme is taken as
/// it is, a local address gets the plain scheme, every other address the
/// secure one.
pub open spec fn gateway_url(address: Seq<char>) -> Seq<char> {
    if starts_with_text(address, "http://"@) || starts_with_text(address, "https://"@) {
        address
    } else if is_local_address(address) {
        "http://"@ + address
    } else {
        "https://"@ + address
    }
}

fn begins(hay: &Vec<char>, prefix: &str) -> (b: bool)
    ensures
        b == starts_with_text(hay@, prefix@),
{
    let p = to_chars(prefix);
    chars_occur_at(hay, &p, 0)
}

/// The address under which the gateway is reached.
pub fn build_gateway_url(address: &str) -> (url: String)
    ensures
        url@ == gateway_url(address@),
{
    let chars = to_chars(address);
    if begins(&chars, "http://") || begins(&chars, "https://") {
        String::from_str(address)
    } else if chars_contain_str(&chars, "localhost") || begins(&chars, "127.") || begins(
        &chars,
        "192.168.",
    ) || begins(&chars, "10.") {
        String::from_str("http://").concat(address)
    } else {
        String::from_str("https://").concat(address)
    }
}

} // verus!
