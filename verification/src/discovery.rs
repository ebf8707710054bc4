//! Names under which the server announces itself over mDNS.

use vstd::prelude::*;
use crate::text::{chars_of, string_from_chars};

verus! {

/// The mDNS service type clients browse for.
pub const SERVICE_TYPE: &'static str = "_minnty._udp.local.";

/// `:` (from IPv6 addresses) is not usable in an instance name; it becomes `-`.
pub open spec fn dns_safe(c: char) -> char {
    if c == ':' {
        '-'
    } else {
        c
    }
}

/// The instance name for a server reachable at the address written `ip`:
/// `minnty-` and the address, with every `:` turned into `-`.
pub open spec fn instance_name_for(ip: Seq<char>) -> Seq<char> {
    (seq!['m', 'i', 'n', 'n', 't', 'y', '-'] + ip).map_values(|c: char| dns_safe(c))
}

pub fn mdns_instance_name(ip: &str) -> (r: String)
    ensures
        r@ == instance_name_for(ip@),
{
    let ip_chars = chars_of(ip);
    let mut out: Vec<char> = Vec::new();
    out.push('m');
    out.push('i');
    out.push('n');
    out.push('n');
    out.push('t');
    out.push('y');
    out.push('-');
    let ghost prefix = seq!['m', 'i', 'n', 'n', 't', 'y', '-'];
    assert(out@ =~= (prefix + ip@.take(0)).map_values(|c: char| dns_safe(c)));
    let mut i: usize = 0;
    while i < ip_chars.len()
        invariant
            i <= ip_chars@.len(),
            ip_chars@ == ip@,
            out@ == (prefix + ip@.take(i as int)).map_values(|c: char| dns_safe(c)),
        decreases ip_chars@.len() - i,
    {
        let c = ip_chars[i];
        out.push(if c == ':' { '-' } else { c });
        i += 1;
        assert(out@ =~= (prefix + ip@.take(i as int)).map_values(|c: char| dns_safe(c)));
    }
    assert(ip@.take(i as int) =~= ip@);
    string_from_chars(&out)
}

/// The host name announced with an instance: the instance name under
/// `.local.`.
pub fn mdns_host_name(instance: &str) -> (r: String)
    ensures
        r@ == instance@ + ".local."@,
{
    let mut r = String::from_str(instance);
    r.append(".local.");
    r
}

} // verus!
