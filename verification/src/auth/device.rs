//! Identifiers that the aTrust Web VPN expects from a browser: the device ID,
//! saved once and reused, and the trace ID of a request.

use vstd::prelude::*;
use crate::auth::random::random_range;
use crate::text::{chars_of, string_of, trim, trim_chars};

verus! {

/// The lower-case hexadecimal digit of `v`.
pub open spec fn hex_char(v: nat) -> char {
    if v < 10 {
        (v + 48) as char
    } else {
        (v - 10 + 97) as char
    }
}

/// Whether `c` is a lower-case hexadecimal digit.
pub open spec fn is_lower_hex(c: char) -> bool {
    ('0' <= c && c <= '9') || ('a' <= c && c <= 'f')
}

/// The shape of a device ID of the aTrust web client: 67 lower-case
/// hexadecimal digits, the first two `0` and the third not.
pub open spec fn is_vpn_device_id(s: Seq<char>) -> bool {
    &&& s.len() == 67
    &&& s[0] == '0'
    &&& s[1] == '0'
    &&& s[2] != '0'
    &&& forall|i: int| 0 <= i < s.len() ==> is_lower_hex(#[trigger] s[i])
}

/// The shape of a trace ID: 8 lower-case hexadecimal digits.
pub open spec fn is_sdp_trace_id(s: Seq<char>) -> bool {
    &&& s.len() == 8
    &&& forall|i: int| 0 <= i < s.len() ==> is_lower_hex(#[trigger] s[i])
}

/// The lower-case hexadecimal digit of `v`.
pub fn hex_digit(v: u64) -> (c: char)
    requires
        v < 16,
    ensures
        c == hex_char(v as nat),
        is_lower_hex(c),
        (c == '0') <==> v == 0,
{
    if v < 10 {
        ((v as u8) + 48) as char
    } else {
        ((v as u8) - 10 + 97) as char
    }
}

/// Appends `n` random lower-case hexadecimal digits to `v`.
fn push_random_hex(v: &mut Vec<char>, n: usize)
    ensures
        final(v)@.len() == old(v)@.len() + n,
        final(v)@.take(old(v)@.len() as int) == old(v)@,
        forall|i: int| old(v)@.len() <= i < final(v)@.len() ==> is_lower_hex(#[trigger] final(v)@[i]),
{
    let ghost start = v@;
    let mut k: usize = 0;
    while k < n
        invariant
            k <= n,
            v@.len() == start.len() + k,
            v@.take(start.len() as int) == start,
            forall|i: int| start.len() <= i < v@.len() ==> is_lower_hex(#[trigger] v@[i]),
        decreases n - k,
    {
        let d = random_range(0, 16);
        v.push(hex_digit(d));
        k += 1;
    }
}

/// A new device ID in the shape of the aTrust web client's: `00`, a non-zero
/// digit, then 64 random digits.
///
/// The web client writes the leading zeros of an RSA result as two zeros; the
/// server cannot check that computation, so a random ID of the same shape does.
pub fn generate_vpn_device_id() -> (r: String)
    ensures
        is_vpn_device_id(r@),
{
    let mut v: Vec<char> = Vec::new();
    v.push('0');
    v.push('0');
    let first = random_range(1, 16);
    v.push(hex_digit(first));
    let ghost head = v@;
    assert(head[0] == '0' && head[1] == '0' && head[2] != '0');
    push_random_hex(&mut v, 64);
    assert(v@.take(3) == head);
    assert(v@[0] == v@.take(3)[0] && v@[1] == v@.take(3)[1] && v@[2] == v@.take(3)[2]);
    assert forall|i: int| 0 <= i < v@.len() implies is_lower_hex(#[trigger] v@[i]) by {
        if i < 3 {
            assert(v@[i] == v@.take(3)[i]);
        }
    }
    string_of(v.as_slice())
}

/// A new trace ID for the `x-sdp-traceid` header: 8 random digits.
pub fn generate_sdp_trace_id() -> (r: String)
    ensures
        is_sdp_trace_id(r@),
{
    let mut v: Vec<char> = Vec::new();
    push_random_hex(&mut v, 8);
    string_of(v.as_slice())
}

/// Whether `id` has the shape of a device ID of the aTrust web client.
pub fn is_valid_vpn_device_id(id: &str) -> (r: bool)
    ensures
        r == is_vpn_device_id(id@),
{
    let c = chars_of(id);
    if c.len() != 67 || c[0] != '0' || c[1] != '0' || c[2] == '0' {
        return false;
    }
    let mut i: usize = 0;
    while i < c.len()
        invariant
            i <= c@.len(),
            c@ == id@,
            forall|j: int| 0 <= j < i ==> is_lower_hex(#[trigger] c@[j]),
        decreases c@.len() - i,
    {
        let ch = c[i];
        if !(('0' <= ch && ch <= '9') || ('a' <= ch && ch <= 'f')) {
            assert(!is_lower_hex(c@[i as int]));
            return false;
        }
        i += 1;
    }
    true
}

/// Why a device ID was not saved.
#[derive(Debug, Clone, Copy, PartialEq, Eq, Structural)]
pub enum DeviceIdError {
    /// The ID does not have the shape of a device ID.
    Invalid,
}

/// Checks a device ID before it is saved: an ID of another shape is refused.
pub fn check_vpn_device_id(id: &str) -> (r: Result<(), DeviceIdError>)
    ensures
        r is Ok <==> is_vpn_device_id(id@),
        r is Err ==> r == Err::<(), DeviceIdError>(DeviceIdError::Invalid),
{
    if is_valid_vpn_device_id(id) {
        Ok(())
    } else {
        Err(DeviceIdError::Invalid)
    }
}

/// A device ID to use, and whether it was made now and must be saved.
pub struct VpnDeviceId {
    pub id: String,
    pub is_new: bool,
}

/// The device ID to use, given what was saved before: the saved text without
/// its surrounding whitespace, or, where nothing was saved, a new ID to save.
pub fn get_or_create_vpn_device_id_at(saved: Option<&str>) -> (r: VpnDeviceId)
    ensures
        match saved {
            Some(s) => r.id@ == trim(s@) && !r.is_new,
            None => is_vpn_device_id(r.id@) && r.is_new,
        },
{
    match saved {
        Some(s) => {
            let c = chars_of(s);
            let t = trim_chars(c.as_slice());
            VpnDeviceId { id: string_of(t.as_slice()), is_new: false }
        },
        None => VpnDeviceId { id: generate_vpn_device_id(), is_new: true },
    }
}

} // verus!
