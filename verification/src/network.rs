use vstd::prelude::*;

use crate::paths::opt_string_view;

verus! {

/// ASCII digits and letters.
pub open spec fn is_ascii_alnum(b: u8) -> bool {
    (48 <= b && b <= 57) || (65 <= b && b <= 90) || (97 <= b && b <= 122)
}

/// The ASCII-alphanumeric bytes of `bs`, in order.
pub open spec fn spec_keep_alnum(bs: Seq<u8>) -> Seq<u8>
    decreases bs.len(),
{
    if bs.len() == 0 {
        bs
    } else if is_ascii_alnum(bs.last()) {
        spec_keep_alnum(bs.drop_last()).push(bs.last())
    } else {
        spec_keep_alnum(bs.drop_last())
    }
}

/// Bytes read as the characters with the same codes; meaningful below 128.
pub open spec fn ascii_chars(bs: Seq<u8>) -> Seq<char> {
    bs.map_values(|b: u8| b as char)
}

/// The fallback device identifier: `host-` followed by the alphanumeric
/// characters of the host name, or a fixed value when no host name is known.
pub open spec fn spec_fallback_identifier(hostname: Option<Seq<char>>) -> Seq<char> {
    match hostname {
        Some(h) => "host-"@ + ascii_chars(spec_keep_alnum(vstd::utf8::encode_utf8(h))),
        None => "unknown-device"@,
    }
}

/// Relies on mac_address::get_mac_address and MacAddress's Display form: six
/// colon-separated two-digit groups, 17 characters. Which address — and
/// whether one exists at all — depends on the machine, so nothing more is
/// promised.
#[verifier::external_body]
fn fetch_mac_address() -> (r: Result<Option<String>, String>)
    ensures
        r matches Ok(Some(s)) ==> s@.len() == 17,
{
    match mac_address::get_mac_address() {
        Ok(Some(mac)) => Ok(Some(mac.to_string())),
        Ok(None) => Ok(None),
        Err(e) => Err(e.to_string()),
    }
}

/// Relies on String::from_utf8: bytes below 128 are single-byte code points,
/// each becoming the character with the same code.
#[verifier::external_body]
fn ascii_bytes_to_string(bytes: Vec<u8>) -> (r: String)
    requires
        forall|i: int| 0 <= i < bytes@.len() ==> bytes@[i] < 128,
    ensures
        r@ == ascii_chars(bytes@),
{
    match String::from_utf8(bytes) {
        Ok(s) => s,
        Err(_) => String::new(),
    }
}

/// Keeps the ASCII-alphanumeric bytes of `bytes`, in order.
fn filter_alnum(bytes: Vec<u8>) -> (r: Vec<u8>)
    ensures
        r@ == spec_keep_alnum(bytes@),
        forall|i: int| 0 <= i < r@.len() ==> r@[i] < 128,
{
    let n = bytes.len();
    let mut out: Vec<u8> = Vec::new();
    let mut i: usize = 0;
    while i < n
        invariant
            i <= n,
            n == bytes@.len(),
            out@ == spec_keep_alnum(bytes@.take(i as int)),
            forall|k: int| 0 <= k < out@.len() ==> out@[k] < 128,
        decreases n - i,
    {
        let b = bytes[i];
        proof {
            assert(bytes@.take(i + 1 as int).drop_last() =~= bytes@.take(i as int));
            assert(bytes@.take(i + 1 as int).last() == bytes@[i as int]);
        }
        if (48 <= b && b <= 57) || (65 <= b && b <= 90) || (97 <= b && b <= 122) {
            out.push(b);
        }
        i = i + 1;
    }
    proof {
        assert(bytes@.take(n as int) =~= bytes@);
    }
    out
}

/// The identifier used when no MAC address can be read: derived from the host
/// name when one is known, a fixed value otherwise.
pub fn fallback_identifier(hostname: Option<String>) -> (r: String)
    ensures
        r@ == spec_fallback_identifier(opt_string_view(hostname)),
{
    match hostname {
        Some(h) => {
            let bytes = h.as_str().as_bytes_vec();
            let kept = filter_alnum(bytes);
            let tail = ascii_bytes_to_string(kept);
            let mut out = String::from_str("host-");
            out.append(tail.as_str());
            out
        },
        None => String::from_str("unknown-device"),
    }
}

/// The device identifier a fetched MAC address yields: the address itself when
/// one was read, the fallback identifier otherwise.
pub fn resolve_host_identifier(fetched: Option<String>, hostname: Option<String>) -> (r: String)
    ensures
        fetched matches Some(m) ==> r@ == m@,
        fetched is None ==> r@ == spec_fallback_identifier(opt_string_view(hostname)),
{
    match fetched {
        Some(m) => m,
        None => fallback_identifier(hostname),
    }
}

/// The device identifier: the machine's MAC address when one can be read, the
/// fallback identifier otherwise. What the machine reports may differ from
/// call to call, so the contract states what holds of every outcome: either a
/// 17-character address or exactly the fallback identifier.
pub fn get_main_mac_address(hostname: Option<String>) -> (r: String)
    ensures
        r@.len() == 17 || r@ == spec_fallback_identifier(opt_string_view(hostname)),
{
    let fetched = match fetch_mac_address() {
        Ok(Some(m)) => Some(m),
        Ok(None) => None,
        Err(_) => None,
    };
    resolve_host_identifier(fetched, hostname)
}

/// The device identifier together with the network interface name; the
/// interface is reported as the default one.
pub fn get_mac_address_with_interface(hostname: Option<String>) -> (r: (String, String))
    ensures
        r.0@.len() == 17 || r.0@ == spec_fallback_identifier(opt_string_view(hostname)),
        r.1@ == "default"@,
{
    let mac = get_main_mac_address(hostname);
    (mac, String::from_str("default"))
}

/// Every known device identifier; only the main one is reported.
pub fn get_all_mac_addresses(hostname: Option<String>) -> (r: Vec<String>)
    ensures
        r@.len() == 1,
        r@[0]@.len() == 17 || r@[0]@ == spec_fallback_identifier(opt_string_view(hostname)),
{
    let mac = get_main_mac_address(hostname);
    let mut out: Vec<String> = Vec::new();
    out.push(mac);
    out
}

} // verus!
