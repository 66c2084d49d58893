//! The address the board listens on, taken from its configured URL: the
//! URL's host and its explicit port, as `host:port`.
use vstd::prelude::*;
use vstd::string::*;

verus! {

/// The URL type of the `url` crate, carried through unchanged.
#[verifier::external_type_specification]
#[verifier::external_body]
pub struct ExUrl(url::Url);

/// The host of a URL as `url::Url::host` gives it, written out with the
/// `Display` impl of `url::Host` (a domain as it stands, an IPv4 address in
/// dotted form, an IPv6 address in square brackets); `None` for a URL
/// without a host. It depends on the URL alone.
pub uninterp spec fn url_host_text(url: url::Url) -> Option<Seq<char>>;

/// The port written in a URL, as `url::Url::port` gives it: `None` when the
/// URL has no port or gives its scheme's default port. It depends on the URL
/// alone.
pub uninterp spec fn url_port_of(url: url::Url) -> Option<u16>;

/// Calls `url::Url::host` and writes the host out with its `Display` impl;
/// the contract claims only that the result is `url_host_text` of the URL.
#[verifier::external_body]
fn url_host(url: &url::Url) -> (host: Option<String>)
    ensures
        match host {
            Some(h) => url_host_text(*url) == Some(h@),
            None => url_host_text(*url) is None,
        },
{
    match url.host() {
        Some(h) => Some(h.to_string()),
        None => None,
    }
}

/// Calls `url::Url::port`; the contract claims only that the result is
/// `url_port_of` of the URL.
#[verifier::external_body]
fn url_port(url: &url::Url) -> (port: Option<u16>)
    ensures
        port == url_port_of(*url),
{
    url.port()
}

/// The character of a decimal digit.
pub open spec fn digit_char(d: nat) -> char {
    if d == 0 {
        '0'
    } else if d == 1 {
        '1'
    } else if d == 2 {
        '2'
    } else if d == 3 {
        '3'
    } else if d == 4 {
        '4'
    } else if d == 5 {
        '5'
    } else if d == 6 {
        '6'
    } else if d == 7 {
        '7'
    } else if d == 8 {
        '8'
    } else {
        '9'
    }
}

/// A number written in decimal, without leading zeros.
pub open spec fn decimal(n: nat) -> Seq<char>
    decreases n,
{
    if n < 10 {
        seq![digit_char(n)]
    } else {
        decimal(n / 10) + seq![digit_char(n % 10)]
    }
}

/// The number that a text of decimal digits stands for.
pub open spec fn decimal_value(text: Seq<char>) -> int
    decreases text.len(),
{
    if text.len() == 0 {
        0
    } else {
        decimal_value(text.drop_last()) * 10 + (text.last() as int - '0' as int)
    }
}

/// Law of a digit: the character written for the digit value `d` is the
/// one whose code is that of `'0'` plus `d`.
pub proof fn law_digit_char_code(d: nat)
    requires
        d < 10,
    ensures
        digit_char(d) as int == '0' as int + d,
{
}

/// Law of the decimal writing: the text written for a number is made of
/// digits only, does not start with a zero unless it is the number zero, and
/// reading it as a decimal number gives the number back.
pub proof fn law_decimal_reads_back(n: nat)
    ensures
        decimal(n).len() > 0,
        forall|i: int| 0 <= i < decimal(n).len() ==> '0' <= #[trigger] decimal(n)[i] <= '9',
        n > 0 ==> decimal(n)[0] != '0',
        decimal_value(decimal(n)) == n,
    decreases n,
{
    law_digit_char_code(n % 10);
    if n >= 10 {
        law_decimal_reads_back(n / 10);
        let s = decimal(n);
        assert(s.drop_last() =~= decimal(n / 10));
        assert(s.last() == digit_char(n % 10));
        assert((n / 10) * 10 + n % 10 == n) by (nonlinear_arith);
        assert forall|i: int| 0 <= i < s.len() implies '0' <= #[trigger] s[i] <= '9' by {
            if i < s.len() - 1 {
                assert(s[i] == decimal(n / 10)[i]);
            }
        }
        assert(s[0] == decimal(n / 10)[0]);
        assert(decimal_value(s) == decimal_value(s.drop_last()) * 10 + (s.last() as int - '0' as int));
        assert(decimal_value(s.drop_last()) == n / 10);
        assert(s.last() as int - '0' as int == n % 10);
    } else {
        let s = decimal(n);
        assert(s.drop_last() =~= Seq::<char>::empty());
        assert(decimal_value(s.drop_last()) == 0);
        assert(decimal_value(s) == decimal_value(s.drop_last()) * 10 + (s.last() as int - '0' as int));
    }
}

fn digit_text(d: u16) -> (s: &'static str)
    requires
        d < 10,
    ensures
        s@ == seq![digit_char(d as nat)],
{
    proof {
        reveal_strlit("0");
        reveal_strlit("1");
        reveal_strlit("2");
        reveal_strlit("3");
        reveal_strlit("4");
        reveal_strlit("5");
        reveal_strlit("6");
        reveal_strlit("7");
        reveal_strlit("8");
        reveal_strlit("9");
    }
    if d == 0 {
        "0"
    } else if d == 1 {
        "1"
    } else if d == 2 {
        "2"
    } else if d == 3 {
        "3"
    } else if d == 4 {
        "4"
    } else if d == 5 {
        "5"
    } else if d == 6 {
        "6"
    } else if d == 7 {
        "7"
    } else if d == 8 {
        "8"
    } else {
        "9"
    }
}

fn append_decimal(s: &mut String, n: u16)
    ensures
        final(s)@ == old(s)@ + decimal(n as nat),
    decreases n,
{
    if n >= 10 {
        append_decimal(s, n / 10);
    }
    s.append(digit_text(n % 10));
}

/// The address `host:port`, with the port in decimal.
pub fn listen_address(host: &str, port: u16) -> (address: String)
    ensures
        address@ == host@ + ":"@ + decimal(port as nat),
{
    let mut address = String::from_str(host);
    address.append(":");
    append_decimal(&mut address, port);
    address
}

/// The address for a host and a port when both are known: `host:port`;
/// without a host or without a port there is none.
pub fn address_of(host: Option<String>, port: Option<u16>) -> (address: Option<String>)
    ensures
        match (host, port) {
            (Some(h), Some(p)) => address matches Some(a) && a@ == h@ + ":"@ + decimal(p as nat),
            _ => address is None,
        },
{
    match (host, port) {
        (Some(h), Some(p)) => Some(listen_address(h.as_str(), p)),
        _ => None,
    }
}

/// The address to listen on for a URL: its host and its explicit port, as
/// `host:port`. A URL without a host or without an explicit port gives no
/// address.
pub fn bind_address(url: &url::Url) -> (address: Option<String>)
    ensures
        match (url_host_text(*url), url_port_of(*url)) {
            (Some(h), Some(p)) => address matches Some(a) && a@ == h + ":"@ + decimal(p as nat),
            _ => address is None,
        },
{
    address_of(url_host(url), url_port(url))
}

} // verus!
