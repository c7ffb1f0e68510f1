//! Turning a raw connection string into the caller's IP address.

use vstd::prelude::*;
use vstd::string::*;

verus! {

/// The caller's IP address, held as plain numbers.
#[derive(Debug, Clone, Copy, PartialEq, Eq)]
pub enum ClientAddress {
    V4([u8; 4]),
    V6([u16; 8]),
}

/// Why no caller address could be had.
#[derive(Debug, Clone, Copy, PartialEq, Eq)]
pub enum AddressParseError {
    /// No connection information was available.
    Missing,
    /// The text, with any port removed, is not an IP literal.
    Malformed,
}

/// What `IpAddr`'s parser makes of a text: `None` where it refuses it.
pub uninterp spec fn ip_of(s: Seq<char>) -> Option<ClientAddress>;

/// Relies on `<core::net::IpAddr as FromStr>::from_str`: it parses an IPv4 or
/// IPv6 literal, and its answer depends on the text alone.
#[verifier::external_body]
fn parse_ip(s: &str) -> (r: Option<ClientAddress>)
    ensures
        r == ip_of(s@),
{
    match s.parse::<core::net::IpAddr>() {
        Ok(core::net::IpAddr::V4(a)) => Some(ClientAddress::V4(a.octets())),
        Ok(core::net::IpAddr::V6(a)) => Some(ClientAddress::V6(a.segments())),
        Err(_) => None,
    }
}

pub open spec fn is_digit(c: char) -> bool {
    '0' <= c && c <= '9'
}

/// Where the run of decimal digits at the end of `s` begins.
pub open spec fn digit_start(s: Seq<char>) -> int
    decreases s.len(),
{
    if s.len() > 0 && is_digit(s.last()) {
        digit_start(s.drop_last())
    } else {
        s.len() as int
    }
}

/// `s` ends in `:<port>` with at least one digit, and something stands before it.
pub open spec fn has_port(s: Seq<char>) -> bool {
    let d = digit_start(s);
    d < s.len() && d >= 2 && s[d - 1] == ':'
}

/// The address part of `host:port`, without the brackets of `[v6]:port`.
pub open spec fn host_of(s: Seq<char>) -> Seq<char> {
    let h = s.subrange(0, digit_start(s) - 1);
    if h.len() > 2 && h[0] == '[' && h.last() == ']' {
        h.subrange(1, h.len() - 1)
    } else {
        h
    }
}

/// The address that a raw connection string names: the whole text where it is
/// an IP literal, else the text before a trailing `:<port>`.
pub open spec fn extracted(raw: Option<Seq<char>>) -> Result<ClientAddress, AddressParseError> {
    match raw {
        None => Err(AddressParseError::Missing),
        Some(s) => if s.len() == 0 {
            Err(AddressParseError::Malformed)
        } else if ip_of(s) is Some {
            Ok(ip_of(s)->Some_0)
        } else if has_port(s) && ip_of(host_of(s)) is Some {
            Ok(ip_of(host_of(s))->Some_0)
        } else {
            Err(AddressParseError::Malformed)
        },
    }
}

/// The text that extraction parsed when it succeeded.
pub open spec fn canonical_text(s: Seq<char>) -> Seq<char> {
    if ip_of(s) is Some {
        s
    } else {
        host_of(s)
    }
}

/// Where the trailing digits of `s` begin.
fn find_digit_start(s: &str) -> (r: usize)
    ensures
        r as int == digit_start(s@),
{
    let n = s.unicode_len();
    let mut i: usize = n;
    proof {
        assert(s@.subrange(0, n as int) =~= s@);
    }
    while i > 0 && is_ascii_digit(s.get_char(i - 1))
        invariant
            n == s@.len(),
            i <= n,
            digit_start(s@) == digit_start(s@.subrange(0, i as int)),
        decreases i,
    {
        proof {
            let t = s@.subrange(0, i as int);
            assert(t.drop_last() =~= s@.subrange(0, i - 1));
        }
        i = i - 1;
    }
    i
}

fn is_ascii_digit(c: char) -> (r: bool)
    ensures
        r == is_digit(c),
{
    '0' <= c && c <= '9'
}

/// The address part of `s` when `s` ends in `:<port>`; `None` otherwise.
pub fn strip_port(s: &str) -> (r: Option<&str>)
    ensures
        r is Some <==> has_port(s@),
        r is Some ==> r->Some_0@ == host_of(s@),
{
    let d = find_digit_start(s);
    let n = s.unicode_len();
    if d < n && d >= 2 && s.get_char(d - 1) == ':' {
        let h = s.substring_char(0, d - 1);
        let m = h.unicode_len();
        if m > 2 && h.get_char(0) == '[' && h.get_char(m - 1) == ']' {
            Some(h.substring_char(1, m - 1))
        } else {
            Some(h)
        }
    } else {
        None
    }
}

/// Resolves the caller's address from the raw connection string: the whole
/// text when it is an IP literal, else the text before its `:<port>`.
pub fn extract_address(raw: Option<&str>) -> (r: Result<ClientAddress, AddressParseError>)
    ensures
        r == extracted(
            match raw {
                Some(s) => Some(s@),
                None => None,
            },
        ),
{
    match raw {
        None => Err(AddressParseError::Missing),
        Some(s) => {
            if s.unicode_len() == 0 {
                return Err(AddressParseError::Malformed);
            }
            match parse_ip(s) {
                Some(a) => Ok(a),
                None => match strip_port(s) {
                    Some(h) => match parse_ip(h) {
                        Some(a) => Ok(a),
                        None => Err(AddressParseError::Malformed),
                    },
                    None => Err(AddressParseError::Malformed),
                },
            }
        },
    }
}

/// Extraction is idempotent: the text it parsed names the same address again.
pub proof fn lemma_extract_idempotent(s: Seq<char>)
    requires
        extracted(Some(s)) is Ok,
    ensures
        extracted(Some(canonical_text(s))) == extracted(Some(s)),
{
    if ip_of(s) is None {
        let h = s.subrange(0, digit_start(s) - 1);
        assert(h.len() > 0);
        assert(host_of(s).len() > 0);
    }
}

/// A missing or empty connection string never yields an address.
pub proof fn lemma_extract_fails_without_text()
    ensures
        extracted(None) == Err::<ClientAddress, AddressParseError>(AddressParseError::Missing),
        extracted(Some(Seq::<char>::empty())) == Err::<ClientAddress, AddressParseError>(
            AddressParseError::Malformed,
        ),
{
}

} // verus!
