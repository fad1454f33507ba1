//! The network endpoint of a front end and its connection string.

use vstd::prelude::*;
use crate::decimal::{
    decimal_digits, is_digit, lemma_decimal_digits_canonical, lemma_decimal_digits_injective,
    push_decimal,
};

verus! {

/// A host and a port. Neither is validated: any text is a host and any
/// 16-bit number a port.
#[derive(Debug)]
pub struct NetworkConfig {
    pub host: String,
    pub port: u16,
}

/// The connection string of `host` and `port`: the host, one colon, and
/// the port in decimal notation.
pub open spec fn connection_text(host: Seq<char>, port: u16) -> Seq<char> {
    host + seq![':'] + decimal_digits(port as nat)
}

impl NetworkConfig {
    /// The connection string of this endpoint, as a specification.
    pub open spec fn spec_connection_string(&self) -> Seq<char> {
        connection_text(self.host@, self.port)
    }

    /// An endpoint with a copy of `host` and with `port`.
    pub fn new(host: &str, port: u16) -> (config: Self)
        ensures
            config.host@ == host@,
            config.port == port,
    {
        NetworkConfig { host: host.to_owned(), port }
    }

    /// The text `host:port`, the port in decimal notation.
    pub fn connection_string(&self) -> (text: String)
        ensures
            text@ == self.spec_connection_string(),
    {
        let mut text = self.host.clone();
        text.append(":");
        proof {
            reveal_strlit(":");
            assert(":"@ =~= seq![':']);
        }
        push_decimal(&mut text, self.port);
        text
    }
}

/// A digit is no colon.
proof fn lemma_digit_is_no_colon(c: char)
    requires
        is_digit(c),
    ensures
        c != ':',
{
}

/// In a connection string the host comes first, the colon that follows it
/// is the last colon of the text, and the port's notation is what comes
/// after that colon: however many colons the host holds, exactly one
/// separates it from the port.
pub proof fn lemma_connection_text_separator(host: Seq<char>, port: u16)
    ensures
        connection_text(host, port).len() == host.len() + 1 + decimal_digits(port as nat).len(),
        connection_text(host, port).subrange(0, host.len() as int) == host,
        connection_text(host, port)[host.len() as int] == ':',
        connection_text(host, port).skip(host.len() as int + 1) == decimal_digits(port as nat),
        forall|i: int|
            host.len() < i < connection_text(host, port).len() ==> #[trigger] connection_text(
                host,
                port,
            )[i] != ':',
{
    let digits = decimal_digits(port as nat);
    let text = connection_text(host, port);
    lemma_decimal_digits_canonical(port as nat);
    assert(text.subrange(0, host.len() as int) =~= host);
    assert(text.skip(host.len() as int + 1) =~= digits);
    assert forall|i: int| host.len() < i < text.len() implies #[trigger] text[i] != ':' by {
        assert(text[i] == digits[i - host.len() - 1]);
        lemma_digit_is_no_colon(digits[i - host.len() - 1]);
    }
}

/// Endpoints with the same connection string have the same host and the
/// same port.
pub proof fn lemma_connection_text_injective(
    host_a: Seq<char>,
    port_a: u16,
    host_b: Seq<char>,
    port_b: u16,
)
    requires
        connection_text(host_a, port_a) == connection_text(host_b, port_b),
    ensures
        host_a == host_b,
        port_a == port_b,
{
    let text = connection_text(host_a, port_a);
    lemma_connection_text_separator(host_a, port_a);
    lemma_connection_text_separator(host_b, port_b);
    if host_a.len() < host_b.len() {
        assert(text[host_b.len() as int] == ':');
        assert(false);
    }
    if host_b.len() < host_a.len() {
        assert(text[host_a.len() as int] == ':');
        assert(false);
    }
    lemma_decimal_digits_injective(port_a as nat, port_b as nat);
}

} // verus!
