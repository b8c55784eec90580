//! Protocol and address choices of the command line front end.

use vstd::prelude::*;
use vstd::string::StringExecFns;

use crate::connection::{first_ipv4, SocketAddress};

verus! {

/// The type of bench that is being ran.
#[derive(Clone, Copy, Debug, PartialEq, Eq, Structural)]
pub enum BenchType {
    /// Sets the http protocol to be used as h1
    HTTP1,
    /// Sets the http protocol to be used as h2
    HTTP2,
}

impl BenchType {
    pub fn is_http1(&self) -> (answer: bool)
        ensures
            answer == (*self == BenchType::HTTP1),
    {
        matches!(self, Self::HTTP1)
    }

    pub fn is_http2(&self) -> (answer: bool)
        ensures
            answer == (*self == BenchType::HTTP2),
    {
        matches!(self, Self::HTTP2)
    }
}

/// The protocol names `http/1.1` and `h2` as bytes.
pub open spec fn http1_alpn() -> Seq<u8> {
    seq![104u8, 116u8, 116u8, 112u8, 47u8, 49u8, 46u8, 49u8]
}

pub open spec fn http2_alpn() -> Seq<u8> {
    seq![104u8, 50u8]
}

/// HTTP/1.1.
#[derive(Clone, Copy, Debug, PartialEq, Eq, Structural)]
pub struct Http;

impl Http {
    pub fn is_http2(&self) -> (answer: bool)
        ensures
            !answer,
    {
        false
    }

    /// The protocols offered in the TLS handshake: `http/1.1` alone.
    pub fn alpn_protocols(&self) -> (names: Vec<Vec<u8>>)
        ensures
            names.len() == 1,
            names[0]@ == http1_alpn(),
    {
        let mut name: Vec<u8> = Vec::new();
        name.push(104);
        name.push(116);
        name.push(116);
        name.push(112);
        name.push(47);
        name.push(49);
        name.push(46);
        name.push(49);
        assert(name@ =~= http1_alpn());
        let mut names: Vec<Vec<u8>> = Vec::new();
        names.push(name);
        names
    }
}

/// HTTP/2.
#[derive(Clone, Copy, Debug, PartialEq, Eq, Structural)]
pub struct Http2;

impl Http2 {
    pub fn is_http2(&self) -> (answer: bool)
        ensures
            answer,
    {
        true
    }

    /// The protocols offered in the TLS handshake: `h2` alone.
    pub fn alpn_protocols(&self) -> (names: Vec<Vec<u8>>)
        ensures
            names.len() == 1,
            names[0]@ == http2_alpn(),
    {
        let mut name: Vec<u8> = Vec::new();
        name.push(104);
        name.push(50);
        assert(name@ =~= http2_alpn());
        let mut names: Vec<Vec<u8>> = Vec::new();
        names.push(name);
        names
    }
}

/// A connector for cleartext connections: the HTTP handshake follows the
/// TCP connection at once.
#[derive(Clone, Copy, Debug, PartialEq, Eq, Structural)]
pub struct HttpConnector;

impl HttpConnector {
    pub fn new() -> Self {
        Self
    }
}

/// The scheme of a URI as the front end understands it.
#[allow(clippy::upper_case_acronyms)]
#[derive(Clone, Copy, Debug, PartialEq, Eq, Structural)]
pub enum UriScheme {
    HTTP,
    HTTPS,
}

impl UriScheme {
    pub fn default_port(&self) -> (port: u16)
        ensures
            port == match self {
                UriScheme::HTTP => 80u16,
                UriScheme::HTTPS => 443u16,
            },
    {
        match self {
            UriScheme::HTTP => 80,
            UriScheme::HTTPS => 443,
        }
    }

    /// The scheme that a URI names: HTTPS for `https`, and HTTP for every
    /// other name and for none.
    pub fn from(name: Option<&str>) -> (scheme: Self)
        ensures
            scheme == if name matches Some(text) && text@ == "https"@ {
                UriScheme::HTTPS
            } else {
                UriScheme::HTTP
            },
    {
        match name {
            Some(text) => {
                if text.to_owned() == "https".to_owned() {
                    UriScheme::HTTPS
                } else {
                    UriScheme::HTTP
                }
            },
            None => UriScheme::HTTP,
        }
    }
}

/// The address that the front end connects to among those a host resolves
/// to: the first IPv4 address, or the first address if none is IPv4.
pub open spec fn preferred_ip(addresses: Seq<SocketAddress>) -> Option<SocketAddress> {
    match first_ipv4(addresses) {
        Some(address) => Some(address),
        None => if addresses.len() > 0 {
            Some(addresses[0])
        } else {
            None
        },
    }
}

/// Picks the address to connect to among those a lookup found.
pub fn get_preferred_ip(addresses: &Vec<SocketAddress>) -> (picked: Option<SocketAddress>)
    ensures
        picked == preferred_ip(addresses@),
        addresses.len() == 0 <==> picked is None,
{
    let mut res: Option<SocketAddress> = None;
    let mut i: usize = 0;
    assert(addresses@.skip(0) =~= addresses@);
    while i < addresses.len()
        invariant
            i <= addresses.len(),
            first_ipv4(addresses@) == first_ipv4(addresses@.skip(i as int)),
            i == 0 <==> res is None,
            i > 0 ==> res == Some(addresses[0]),
        decreases addresses.len() - i,
    {
        let addr = addresses[i];
        let ghost rest = addresses@.skip(i as int);
        assert(rest[0] == addr);
        assert(rest.drop_first() =~= addresses@.skip(i + 1));
        if addr.is_ipv4() {
            return Some(addr);
        }
        if res.is_none() {
            res = Some(addr);
        }
        i += 1;
    }
    res
}

/// The character of a decimal digit.
pub open spec fn digit_char(digit: nat) -> char {
    if digit == 0 {
        '0'
    } else if digit == 1 {
        '1'
    } else if digit == 2 {
        '2'
    } else if digit == 3 {
        '3'
    } else if digit == 4 {
        '4'
    } else if digit == 5 {
        '5'
    } else if digit == 6 {
        '6'
    } else if digit == 7 {
        '7'
    } else if digit == 8 {
        '8'
    } else {
        '9'
    }
}

/// A number as it is written in decimal digits, without leading zeros.
pub open spec fn decimal_text(number: nat) -> Seq<char>
    decreases number,
{
    if number < 10 {
        seq![digit_char(number)]
    } else {
        decimal_text(number / 10).push(digit_char(number % 10))
    }
}

/// The text of the host header of the front end: the host alone for port 80,
/// and otherwise the host, a colon and the port in decimal digits.
pub open spec fn host_header(host: Seq<char>, port: u16) -> Seq<char> {
    if port == 80 {
        host
    } else {
        host + seq![':'] + decimal_text(port as nat)
    }
}

/// The text of a decimal digit.
fn digit_text(digit: u16) -> (text: &'static str)
    requires
        digit < 10,
    ensures
        text@ == seq![digit_char(digit as nat)],
{
    proof {
        reveal_strlit("0");
        reveal_strlit("1");
        reveal_strlit("2");
        reveal_strlit("3");
        reveal_strlit("4");
        reveal_strlit("5");
        reveal_strlit("6");
        reveal_strlit("7");
        reveal_strlit("8");
        reveal_strlit("9");
    }
    let text = if digit == 0 {
        "0"
    } else if digit == 1 {
        "1"
    } else if digit == 2 {
        "2"
    } else if digit == 3 {
        "3"
    } else if digit == 4 {
        "4"
    } else if digit == 5 {
        "5"
    } else if digit == 6 {
        "6"
    } else if digit == 7 {
        "7"
    } else if digit == 8 {
        "8"
    } else {
        "9"
    };
    assert(text@ =~= seq![digit_char(digit as nat)]);
    text
}

/// A number in decimal digits.
pub fn decimal(number: u16) -> (text: String)
    ensures
        text@ == decimal_text(number as nat),
    decreases number,
{
    if number < 10 {
        String::from_str(digit_text(number))
    } else {
        let mut text = decimal(number / 10);
        text.append(digit_text(number % 10));
        assert(text@ =~= decimal_text(number as nat));
        text
    }
}

/// The text of the host header of the front end for a host and a port.
pub fn host_header_text(host: &str, port: u16) -> (text: String)
    ensures
        text@ == host_header(host@, port),
{
    let mut text = String::from_str(host);
    if port != 80 {
        proof {
            reveal_strlit(":");
        }
        text.append(":");
        let digits = decimal(port);
        text.append(digits.as_str());
        assert(text@ =~= host@ + seq![':'] + decimal_text(port as nat));
    }
    text
}

} // verus!
