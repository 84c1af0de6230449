//! What the agent is configured with.

use vstd::prelude::*;

verus! {

/// The port of the admin interface where none is configured.
pub const DEFAULT_HTTP_PORT: u16 = 9090;

/// Configuration of the agent.
#[derive(Debug)]
pub struct Config {
    /// The port the admin interface listens on.
    pub http_port: u16,
    /// The address of the chain node to connect to.
    pub airo_node: String,
    /// The secret uri of the provider's signing key.
    pub airo_suri: String,
}

/// The address of the chain node where none is configured.
pub open spec fn default_node() -> Seq<char> {
    "ws://127.0.0.1:9944"@
}

/// The number that `digit` writes, if it is a decimal digit.
pub open spec fn digit_value(digit: char) -> Option<nat> {
    if '0' <= digit <= '9' {
        Some((digit as u32 - '0' as u32) as nat)
    } else {
        None
    }
}

/// Whether every character of `text` is a decimal digit.
pub open spec fn all_digits(text: Seq<char>) -> bool {
    forall|i: int| 0 <= i < text.len() ==> digit_value(#[trigger] text[i]) is Some
}

/// The number that the decimal digits `text` write.
pub open spec fn decimal(text: Seq<char>) -> nat
    decreases text.len(),
{
    if text.len() == 0 {
        0
    } else {
        decimal(text.drop_last()) * 10 + match digit_value(text.last()) {
            Some(value) => value,
            None => 0,
        }
    }
}

/// The digits of `text`, a leading plus sign set aside.
pub open spec fn unsigned(text: Seq<char>) -> Seq<char> {
    if text.len() > 0 && text[0] == '+' {
        text.skip(1)
    } else {
        text
    }
}

/// The port that `text` writes: decimal digits, at least one, after at most
/// one plus sign, that write a number of 16 bits.
pub open spec fn port_of(text: Seq<char>) -> Option<u16> {
    let digits = unsigned(text);
    if digits.len() > 0 && all_digits(digits) && decimal(digits) <= u16::MAX {
        Some(decimal(digits) as u16)
    } else {
        None
    }
}

/// More digits never write a smaller number.
proof fn lemma_decimal_grows(text: Seq<char>, shorter: int)
    requires
        0 <= shorter <= text.len(),
    ensures
        decimal(text.take(shorter)) <= decimal(text),
    decreases text.len(),
{
    if shorter == text.len() {
        assert(text.take(shorter) =~= text);
    } else {
        assert(text.drop_last().take(shorter) =~= text.take(shorter));
        lemma_decimal_grows(text.drop_last(), shorter);
    }
}

/// Reads a port number written in decimal.
pub fn parse_port(text: &str) -> (port: Option<u16>)
    ensures
        port == port_of(text@),
{
    let len = text.unicode_len();
    let start: usize = if len > 0 && text.get_char(0) == '+' {
        1
    } else {
        0
    };
    let ghost digits = unsigned(text@);
    assert(digits.len() == len - start);
    if start == len {
        return None;
    }
    let mut value: u32 = 0;
    let mut i: usize = start;
    proof {
        assert(digits.take(0) =~= Seq::<char>::empty());
    }
    while i < len
        invariant
            start <= i <= len,
            len == text@.len(),
            digits == unsigned(text@),
            digits.len() == len - start,
            start <= 1,
            forall|j: int| 0 <= j < digits.len() ==> digits[j] == text@[j + start],
            all_digits(digits.take(i - start)),
            value == decimal(digits.take(i - start)),
            value <= u16::MAX,
        decreases len - i,
    {
        let c = text.get_char(i);
        let code = c as u32;
        let ghost seen = digits.take(i - start + 1);
        proof {
            assert(seen.drop_last() =~= digits.take(i - start));
            assert(seen.last() == c);
        }
        if code < 48 || code > 57 {
            proof {
                assert(digit_value(digits[i - start]) is None);
            }
            return None;
        }
        let next = value * 10 + (code - 48);
        proof {
            assert(digit_value(c) == Some((code - 48) as nat));
            assert(decimal(seen) == next);
        }
        if next > 65535 {
            proof {
                lemma_decimal_grows(digits, i - start + 1);
            }
            return None;
        }
        proof {
            assert forall|j: int| 0 <= j < seen.len() implies digit_value(
                #[trigger] seen[j],
            ) is Some by {
                if j < i - start {
                    assert(seen[j] == digits.take(i - start)[j]);
                }
            }
        }
        value = next;
        i += 1;
    }
    proof {
        assert(digits.take(len - start) =~= digits);
    }
    Some(value as u16)
}

impl Config {
    /// The port that the setting `http_port` stands for: the number it writes,
    /// and the default where it is missing or writes none.
    pub open spec fn port_or_default(http_port: Option<String>) -> u16 {
        match http_port {
            Some(text) => match port_of(text@) {
                Some(port) => port,
                None => DEFAULT_HTTP_PORT,
            },
            None => DEFAULT_HTTP_PORT,
        }
    }

    /// The configuration that the settings stand for. A missing port or node
    /// address, and a port that is no number of 16 bits, give way to the
    /// default; the secret uri has none.
    pub fn new(http_port: Option<String>, airo_node: Option<String>, airo_suri: String) -> (config:
        Config)
        ensures
            config.http_port == Config::port_or_default(http_port),
            config.airo_node@ == match airo_node {
                Some(node) => node@,
                None => default_node(),
            },
            config.airo_suri == airo_suri,
    {
        let port = match &http_port {
            Some(text) => match parse_port(text.as_str()) {
                Some(port) => port,
                None => DEFAULT_HTTP_PORT,
            },
            None => DEFAULT_HTTP_PORT,
        };
        let node = match airo_node {
            Some(node) => node,
            None => "ws://127.0.0.1:9944".to_owned(),
        };
        Config { http_port: port, airo_node: node, airo_suri }
    }
}

} // verus!
