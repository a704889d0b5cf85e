use vstd::prelude::*;
use vstd::string::StringSliceAdditionalSpecFns;

use libp2p::multiaddr::Error as AddressError;
use libp2p::Multiaddr;

verus! {

/// Listen port used when none is configured.
pub const DEFAULT_LISTEN_PORT: u16 = 9999;

#[verifier::external_type_specification]
#[verifier::external_body]
pub struct ExMultiaddr(Multiaddr);

#[verifier::external_type_specification]
#[verifier::external_body]
pub struct ExAddressError(AddressError);

/// Whether libp2p's multiaddr parser accepts `text`.
pub uninterp spec fn multiaddr_accepts(text: Seq<char>) -> bool;

/// Relies on `<Multiaddr as FromStr>::from_str`: parses a textual multiaddr,
/// succeeding on the texts its grammar accepts and on no other.
#[verifier::external_body]
fn parse_multiaddr(text: &str) -> (r: Result<Multiaddr, AddressError>)
    ensures
        r is Ok <==> multiaddr_accepts(text@),
{
    text.parse::<Multiaddr>()
}

/// Why the startup settings cannot be used.
#[derive(Clone, Copy, Debug, PartialEq, Eq)]
pub enum ConfigError {
    /// The listen port is not a decimal number from 0 to 65535.
    InvalidPort,
    /// No remote peer address is configured.
    MissingPeerAddress,
    /// The remote peer address is not a valid multiaddr.
    InvalidPeerAddress,
    /// The listen address built from the port is not a valid multiaddr.
    InvalidListenAddress,
}

pub open spec fn is_digit(b: u8) -> bool {
    48 <= b <= 57
}

/// Value of a sequence of decimal digits, most significant first.
pub open spec fn digits_value(d: Seq<u8>) -> int
    decreases d.len(),
{
    if d.len() == 0 {
        0
    } else {
        digits_value(d.drop_last()) * 10 + (d.last() - 48)
    }
}

/// The digits of a port text: an optional leading `+` is not one of them.
pub open spec fn port_digits(text: Seq<u8>) -> Seq<u8> {
    if text.len() > 0 && text[0] == 43 {
        text.drop_first()
    } else {
        text
    }
}

/// A port text is one or more decimal digits, optionally after a `+`, whose
/// value fits in 16 bits.
pub open spec fn valid_port_text(text: Seq<u8>) -> bool {
    let d = port_digits(text);
    &&& d.len() > 0
    &&& forall|i: int| 0 <= i < d.len() ==> is_digit(#[trigger] d[i])
    &&& digits_value(d) <= 65535
}

proof fn lemma_digits_value_grows(d: Seq<u8>, i: int, j: int)
    requires
        0 <= i <= j <= d.len(),
        forall|k: int| 0 <= k < d.len() ==> is_digit(#[trigger] d[k]),
    ensures
        digits_value(d.subrange(0, i)) <= digits_value(d.subrange(0, j)),
    decreases j - i,
{
    if i < j {
        lemma_digits_value_grows(d, i, j - 1);
        assert(d.subrange(0, j).drop_last() =~= d.subrange(0, j - 1));
        assert(is_digit(d[j - 1]));
        assert(digits_value(d.subrange(0, j - 1)) >= 0) by {
            lemma_digits_value_nonneg(d.subrange(0, j - 1));
        }
    }
}

proof fn lemma_digits_value_nonneg(d: Seq<u8>)
    requires
        forall|k: int| 0 <= k < d.len() ==> is_digit(#[trigger] d[k]),
    ensures
        digits_value(d) >= 0,
    decreases d.len(),
{
    if d.len() > 0 {
        assert(is_digit(d[d.len() - 1]));
        lemma_digits_value_nonneg(d.drop_last());
    }
}

/// The listen port that a setting gives, or why it gives none.
pub open spec fn listen_port_setting(value: Option<&str>) -> Result<u16, ConfigError> {
    match value {
        None => Ok(DEFAULT_LISTEN_PORT),
        Some(s) => if valid_port_text(s.spec_bytes()) {
            Ok(digits_value(port_digits(s.spec_bytes())) as u16)
        } else {
            Err(ConfigError::InvalidPort)
        },
    }
}

/// Reads the listen port setting; without one the default port is used.
pub fn parse_listen_port(value: Option<&str>) -> (r: Result<u16, ConfigError>)
    ensures
        r == listen_port_setting(value),
{
    let s = match value {
        None => return Ok(DEFAULT_LISTEN_PORT),
        Some(s) => s,
    };
    let text = s.as_bytes();
    let ghost t = text@;
    let start: usize = if text.len() > 0 && text[0] == 43u8 { 1 } else { 0 };
    proof {
        assert(port_digits(t) =~= t.subrange(start as int, t.len() as int));
    }
    if start >= text.len() {
        return Err(ConfigError::InvalidPort);
    }
    let mut acc: u32 = 0;
    let mut i: usize = start;
    while i < text.len()
        invariant
            value == Some(s),
            t == text@,
            t == s.spec_bytes(),
            port_digits(t) =~= t.subrange(start as int, t.len() as int),
            start <= i <= text.len(),
            forall|k: int| start <= k < i ==> is_digit(#[trigger] t[k]),
            acc as int == digits_value(t.subrange(start as int, i as int)),
            acc <= 65535,
        decreases text.len() - i,
    {
        let b = text[i];
        if b < 48u8 || b > 57u8 {
            proof {
                let d = t.subrange(start as int, t.len() as int);
                assert(!is_digit(d[i - start]));
            }
            return Err(ConfigError::InvalidPort);
        }
        proof {
            assert(t.subrange(start as int, i + 1).drop_last() =~= t.subrange(start as int, i as int));
        }
        let next = acc * 10 + (b - 48u8) as u32;
        if next > 65535 {
            proof {
                let d = t.subrange(start as int, t.len() as int);
                assert(d.subrange(0, i + 1 - start) =~= t.subrange(start as int, i + 1));
                if forall|k: int| 0 <= k < d.len() ==> is_digit(#[trigger] d[k]) {
                    lemma_digits_value_grows(d, i + 1 - start, d.len() as int);
                    assert(d.subrange(0, d.len() as int) =~= d);
                }
            }
            return Err(ConfigError::InvalidPort);
        }
        acc = next;
        i = i + 1;
    }
    proof {
        let d = t.subrange(start as int, t.len() as int);
        assert forall|k: int| 0 <= k < d.len() implies is_digit(#[trigger] d[k]) by {
            assert(d[k] == t[start + k]);
        }
    }
    Ok(acc as u16)
}

/// Reads the remote peer address setting, which is required.
pub fn parse_peer_address(value: Option<&str>) -> (r: Result<Multiaddr, ConfigError>)
    ensures
        value is None ==> r == Err::<Multiaddr, ConfigError>(ConfigError::MissingPeerAddress),
        value matches Some(s) ==> (r is Ok <==> multiaddr_accepts(s@)),
        value matches Some(s) ==> (!multiaddr_accepts(s@) ==> r == Err::<Multiaddr, ConfigError>(
            ConfigError::InvalidPeerAddress,
        )),
{
    match value {
        None => Err(ConfigError::MissingPeerAddress),
        Some(s) => match parse_multiaddr(s) {
            Ok(address) => Ok(address),
            Err(_) => Err(ConfigError::InvalidPeerAddress),
        },
    }
}

pub open spec fn digit_char(n: nat) -> char {
    (48 + n % 10) as char
}

/// Decimal digits of `n`, most significant first, without leading zeros.
pub open spec fn decimal_text(n: nat) -> Seq<char>
    decreases n,
{
    if n < 10 {
        seq![digit_char(n)]
    } else {
        decimal_text(n / 10) + seq![digit_char(n % 10)]
    }
}

/// Text of the address the local listener binds: every IPv4 interface, TCP
/// on `port`.
pub open spec fn listen_address_text(port: u16) -> Seq<char> {
    seq!['/', 'i', 'p', '4', '/', '0', '.', '0', '.', '0', '.', '0', '/', 't', 'c', 'p', '/']
        + decimal_text(port as nat)
}

/// Relies on `format!` writing a `u16` with `{}` as its decimal digits, with
/// no sign, padding or leading zeros.
#[verifier::external_body]
fn format_listen_address(port: u16) -> (r: String)
    ensures
        r@ == listen_address_text(port),
{
    format!("/ip4/0.0.0.0/tcp/{}", port)
}

/// The address the local listener binds for `port`.
pub fn listen_address(port: u16) -> (r: Result<Multiaddr, ConfigError>)
    ensures
        r is Ok <==> multiaddr_accepts(listen_address_text(port)),
        r is Err ==> r == Err::<Multiaddr, ConfigError>(ConfigError::InvalidListenAddress),
{
    let text = format_listen_address(port);
    match parse_multiaddr(text.as_str()) {
        Ok(address) => Ok(address),
        Err(_) => Err(ConfigError::InvalidListenAddress),
    }
}

/// Startup settings of a chat session.
pub struct StartupConfig {
    pub listen_port: u16,
    pub listen_address: Multiaddr,
    pub remote_peer: Multiaddr,
}

impl StartupConfig {
    /// Checks the listen port setting, then the remote peer address, then the
    /// listen address built from the port; the first that fails decides the
    /// error.
    pub fn from_settings(port: Option<&str>, peer: Option<&str>) -> (r: Result<
        StartupConfig,
        ConfigError,
    >)
        ensures
            listen_port_setting(port) matches Err(e) ==> r == Err::<StartupConfig, ConfigError>(e),
            listen_port_setting(port) matches Ok(p) ==> match peer {
                None => r == Err::<StartupConfig, ConfigError>(ConfigError::MissingPeerAddress),
                Some(s) => if !multiaddr_accepts(s@) {
                    r == Err::<StartupConfig, ConfigError>(ConfigError::InvalidPeerAddress)
                } else if !multiaddr_accepts(listen_address_text(p)) {
                    r == Err::<StartupConfig, ConfigError>(ConfigError::InvalidListenAddress)
                } else {
                    r matches Ok(c) && c.listen_port == p
                },
            },
    {
        let listen_port = match parse_listen_port(port) {
            Ok(p) => p,
            Err(e) => return Err(e),
        };
        let remote_peer = match parse_peer_address(peer) {
            Ok(a) => a,
            Err(e) => return Err(e),
        };
        let listen_address = match listen_address(listen_port) {
            Ok(a) => a,
            Err(e) => return Err(e),
        };
        Ok(StartupConfig { listen_port, listen_address, remote_peer })
    }
}

} // verus!
