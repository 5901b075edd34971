//! Routing of ordinary URLs through the aTrust Web VPN of Nanjing University.
//!
//! A site `foo-bar.nju.edu.cn` is reached as `foo--bar-nju-edu-cn.atrust.nju.edu.cn`:
//! every `-` of the host is doubled, then every `.` becomes `-`.

pub mod login;

use vstd::prelude::*;
use crate::text::{chars_of, ends_with, string_of, chars_eq};
use crate::weburl::{WebUrl, spec_url_host, spec_url_set_host};

verus! {

/// The host of the ZTNA portal, which the Web VPN uses for its own pages.
pub open spec fn ztna_host() -> Seq<char> {
    seq!['z', 't', 'n', 'a', '.', 'n', 'j', 'u', '.', 'e', 'd', 'u', '.', 'c', 'n']
}

/// The suffix of every host behind the Web VPN.
pub open spec fn atrust_suffix() -> Seq<char> {
    seq!['.', 'a', 't', 'r', 'u', 's', 't', '.', 'n', 'j', 'u', '.', 'e', 'd', 'u', '.', 'c', 'n']
}

pub fn ztna_host_chars() -> (r: Vec<char>)
    ensures
        r@ == ztna_host(),
{
    let r = vec!['z', 't', 'n', 'a', '.', 'n', 'j', 'u', '.', 'e', 'd', 'u', '.', 'c', 'n'];
    assert(r@ == ztna_host());
    r
}

pub fn atrust_suffix_chars() -> (r: Vec<char>)
    ensures
        r@ == atrust_suffix(),
{
    let r = vec!['.', 'a', 't', 'r', 'u', 's', 't', '.', 'n', 'j', 'u', '.', 'e', 'd', 'u', '.', 'c', 'n'];
    assert(r@ == atrust_suffix());
    r
}

/// How one character of a host is written in a Web VPN host.
pub open spec fn encode_char(c: char) -> Seq<char> {
    if c == '-' {
        seq!['-', '-']
    } else if c == '.' {
        seq!['-']
    } else {
        seq![c]
    }
}

/// `host.replace('-', "--").replace('.', "-")`.
pub open spec fn encode_host(host: Seq<char>) -> Seq<char>
    decreases host.len(),
{
    if host.len() == 0 {
        Seq::empty()
    } else {
        encode_char(host[0]) + encode_host(host.drop_first())
    }
}

/// The host under which the Web VPN serves `host`.
pub open spec fn web_vpn_host(host: Seq<char>) -> Seq<char> {
    encode_host(host) + atrust_suffix()
}

/// Reads an encoded host back: `--` is `-`, a single `-` is `.`.
pub open spec fn decode_host(e: Seq<char>) -> Seq<char>
    decreases e.len(),
{
    if e.len() == 0 {
        Seq::empty()
    } else if e.len() >= 2 && e[0] == '-' && e[1] == '-' {
        seq!['-'] + decode_host(e.skip(2))
    } else if e[0] == '-' {
        seq!['.'] + decode_host(e.drop_first())
    } else {
        seq![e[0]] + decode_host(e.drop_first())
    }
}

/// No `.` of `host` is directly followed by `-` or `.`, as in every host whose
/// labels are non-empty and do not begin with a hyphen.
pub open spec fn dots_well_placed(host: Seq<char>) -> bool {
    forall|i: int|
        0 <= i < host.len() - 1 && #[trigger] host[i] == '.' ==> host[i + 1] != '-' && host[i + 1]
            != '.'
}

/// Whether a request to `host` is already routed through the Web VPN.
pub open spec fn is_routed_host(host: Seq<char>) -> bool {
    host == ztna_host() || (atrust_suffix().len() <= host.len() && host.skip(
        host.len() - atrust_suffix().len(),
    ) == atrust_suffix())
}

pub proof fn lemma_encode_push(s: Seq<char>, c: char)
    ensures
        encode_host(s.push(c)) == encode_host(s) + encode_char(c),
    decreases s.len(),
{
    if s.len() == 0 {
        assert(s.push(c).drop_first() == Seq::<char>::empty());
        assert(encode_host(s.push(c)) == encode_char(c) + encode_host(Seq::<char>::empty()));
    } else {
        assert(s.push(c).drop_first() == s.drop_first().push(c));
        lemma_encode_push(s.drop_first(), c);
        assert(encode_host(s.push(c)) == encode_char(s[0]) + encode_host(s.drop_first().push(c)));
    }
}

/// The encoding is read back by `decode_host` on every host whose dots are well placed.
pub proof fn lemma_decode_encode(host: Seq<char>)
    requires
        dots_well_placed(host),
    ensures
        decode_host(encode_host(host)) == host,
    decreases host.len(),
{
    if host.len() > 0 {
        let c = host[0];
        let t = host.drop_first();
        assert(dots_well_placed(t)) by {
            assert forall|i: int| 0 <= i < t.len() - 1 && #[trigger] t[i] == '.' implies t[i + 1]
                != '-' && t[i + 1] != '.' by {
                assert(t[i] == host[i + 1] && t[i + 1] == host[i + 2]);
            }
        }
        lemma_decode_encode(t);
        let e = encode_host(host);
        let et = encode_host(t);
        assert(e == encode_char(c) + et);
        if c == '-' {
            assert(e.skip(2) == et);
        } else if c == '.' {
            assert(e.drop_first() == et);
            if t.len() > 0 {
                assert(host[1] == t[0]);
                assert(t[0] != '-' && t[0] != '.');
                assert(encode_host(t) == encode_char(t[0]) + encode_host(t.drop_first()));
                assert(et[0] != '-');
            }
        } else {
            assert(e.drop_first() == et);
        }
        assert(seq![c] + t == host);
    }
}

/// Different hosts with well-placed dots have different Web VPN hosts.
pub proof fn lemma_web_vpn_host_injective(a: Seq<char>, b: Seq<char>)
    requires
        dots_well_placed(a),
        dots_well_placed(b),
        web_vpn_host(a) == web_vpn_host(b),
    ensures
        a == b,
{
    let ea = encode_host(a);
    let eb = encode_host(b);
    assert(web_vpn_host(a).len() == ea.len() + atrust_suffix().len());
    assert(web_vpn_host(b).len() == eb.len() + atrust_suffix().len());
    assert(ea.len() == eb.len());
    assert(ea == web_vpn_host(a).take(ea.len() as int));
    assert(eb == web_vpn_host(b).take(eb.len() as int));
    lemma_decode_encode(a);
    lemma_decode_encode(b);
}

/// A host that the Web VPN serves is recognized as already routed.
pub proof fn lemma_web_vpn_host_is_routed(host: Seq<char>)
    ensures
        is_routed_host(web_vpn_host(host)),
{
    let w = web_vpn_host(host);
    assert(w.skip(w.len() - atrust_suffix().len()) == atrust_suffix());
}

/// `host.replace('-', "--").replace('.', "-")`.
pub fn encode_host_chars(host: &[char]) -> (r: Vec<char>)
    ensures
        r@ == encode_host(host@),
{
    let mut r: Vec<char> = Vec::new();
    let mut i: usize = 0;
    while i < host.len()
        invariant
            i <= host@.len(),
            r@ == encode_host(host@.take(i as int)),
        decreases host@.len() - i,
    {
        let c = host[i];
        proof {
            lemma_encode_push(host@.take(i as int), c);
            assert(host@.take(i + 1) == host@.take(i as int).push(c));
        }
        if c == '-' {
            r.push('-');
            r.push('-');
        } else if c == '.' {
            r.push('-');
        } else {
            r.push(c);
        }
        i += 1;
    }
    assert(host@.take(host@.len() as int) == host@);
    r
}

/// The Web VPN host of `host`.
pub fn web_vpn_host_of(host: &str) -> (r: String)
    ensures
        r@ == web_vpn_host(host@),
{
    let h = chars_of(host);
    let mut e = encode_host_chars(h.as_slice());
    let mut suffix = atrust_suffix_chars();
    e.append(&mut suffix);
    string_of(e.as_slice())
}

/// Whether requests to `host` already go through the Web VPN.
pub fn is_routed(host: &str) -> (r: bool)
    ensures
        r == is_routed_host(host@),
{
    let h = chars_of(host);
    let z = ztna_host_chars();
    let s = atrust_suffix_chars();
    chars_eq(h.as_slice(), z.as_slice()) || ends_with(h.as_slice(), s.as_slice())
}

/// Why a URL cannot be reached through the Web VPN.
#[derive(Debug, Clone, Copy, PartialEq, Eq, Structural)]
pub enum WebVpnUrlError {
    /// The URL has no host.
    NoHost,
    /// The rewritten host was refused by the URL parser.
    InvalidHost,
}

/// The Web VPN address of `target_url`: its host replaced by [`web_vpn_host`].
pub fn web_vpn_url(target_url: &WebUrl) -> (r: Result<WebUrl, WebVpnUrlError>)
    ensures
        match spec_url_host(target_url@) {
            None => r == Err::<WebUrl, WebVpnUrlError>(WebVpnUrlError::NoHost),
            Some(host) => match spec_url_set_host(target_url@, web_vpn_host(host)) {
                Some(u) => r matches Ok(v) && v@ == u,
                None => r == Err::<WebUrl, WebVpnUrlError>(WebVpnUrlError::InvalidHost),
            },
        },
{
    let host = match target_url.host_str() {
        Some(host) => host,
        None => return Err(WebVpnUrlError::NoHost),
    };
    let vpn_host = web_vpn_host_of(host.as_str());
    match target_url.with_host(vpn_host.as_str()) {
        Some(url) => Ok(url),
        None => Err(WebVpnUrlError::InvalidHost),
    }
}

/// The URL a request to `url` is sent to: unchanged where it already goes to
/// the ZTNA portal or an aTrust host, its [`web_vpn_url`] otherwise.
pub fn routed_url(url: &WebUrl) -> (r: Result<WebUrl, WebVpnUrlError>)
    ensures
        match spec_url_host(url@) {
            Some(host) => if is_routed_host(host) {
                r matches Ok(v) && v@ == url@
            } else {
                match spec_url_set_host(url@, web_vpn_host(host)) {
                    Some(u) => r matches Ok(v) && v@ == u,
                    None => r == Err::<WebUrl, WebVpnUrlError>(WebVpnUrlError::InvalidHost),
                }
            },
            None => r == Err::<WebUrl, WebVpnUrlError>(WebVpnUrlError::NoHost),
        },
{
    if let Some(host) = url.host_str() {
        if is_routed(host.as_str()) {
            return Ok(url.clone());
        }
    }
    web_vpn_url(url)
}

/// Sends every request through the Web VPN: a request whose URL does not
/// already go to the ZTNA portal or an aTrust host is sent to its
/// [`web_vpn_url`]; answers are not changed.
#[derive(Debug, Clone, Copy, Default)]
pub struct WebVpnMiddleware;

impl WebVpnMiddleware {
    /// The URL that a request to `url` is sent to.
    pub fn route(&self, url: &WebUrl) -> (r: Result<WebUrl, WebVpnUrlError>)
        ensures
            match spec_url_host(url@) {
                Some(host) => if is_routed_host(host) {
                    r matches Ok(v) && v@ == url@
                } else {
                    match spec_url_set_host(url@, web_vpn_host(host)) {
                        Some(u) => r matches Ok(v) && v@ == u,
                        None => r == Err::<WebUrl, WebVpnUrlError>(WebVpnUrlError::InvalidHost),
                    }
                },
                None => r == Err::<WebUrl, WebVpnUrlError>(WebVpnUrlError::NoHost),
            },
    {
        routed_url(url)
    }
}

} // verus!
