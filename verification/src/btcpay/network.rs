//! Which Bitcoin network an address belongs to.

use crate::text::{
    begins_with, chars_of, lowercased, starts_with, to_ascii_lower, trim, trimmed,
};
use vstd::prelude::*;
use vstd::utf8::encode_utf8;

verus! {

/// A Bitcoin network.
#[derive(Clone, Copy, Debug, PartialEq, Eq, Structural)]
pub enum BitcoinNetwork {
    Mainnet,
    Testnet,
    /// Addresses of this network look like those of `Testnet`.
    Signet,
    Regtest,
}

impl BitcoinNetwork {
    /// The network's name.
    pub open spec fn name(self) -> Seq<char> {
        match self {
            BitcoinNetwork::Mainnet => "mainnet"@,
            BitcoinNetwork::Testnet => "testnet"@,
            BitcoinNetwork::Signet => "signet"@,
            BitcoinNetwork::Regtest => "regtest"@,
        }
    }

    /// The network's name.
    pub fn as_str(self) -> (r: &'static str)
        ensures
            r@ == self.name(),
    {
        match self {
            BitcoinNetwork::Mainnet => "mainnet",
            BitcoinNetwork::Testnet => "testnet",
            BitcoinNetwork::Signet => "signet",
            BitcoinNetwork::Regtest => "regtest",
        }
    }

    /// Whether this is the network where coins have value.
    pub fn is_mainnet(self) -> (r: bool)
        ensures
            r == (self is Mainnet),
    {
        matches!(self, BitcoinNetwork::Mainnet)
    }
}

/// Is a character one of Bitcoin's base58 alphabet: a letter or digit other
/// than `0`, `O`, `I` and `l`?
pub open spec fn is_base58_char(c: char) -> bool {
    ||| '1' <= c <= '9'
    ||| 'A' <= c <= 'Z' && c != 'I' && c != 'O'
    ||| 'a' <= c <= 'z' && c != 'l'
}

/// Is a character one of Bitcoin's base58 alphabet?
fn is_base58(c: char) -> (r: bool)
    ensures
        r == is_base58_char(c),
{
    ('1' <= c && c <= '9') || ('A' <= c && c <= 'Z' && c != 'I' && c != 'O') || ('a' <= c && c
        <= 'z' && c != 'l')
}

/// Could a text be a base58 address, by its length and its characters?
pub open spec fn is_base58_address(s: Seq<char>) -> bool {
    26 <= encode_utf8(s).len() <= 35 && forall|i: int|
        0 <= i < s.len() ==> is_base58_char(#[trigger] s[i])
}

/// The network of an address, by its prefix; none where the address shows none.
pub open spec fn network_of(addr: Seq<char>) -> Option<BitcoinNetwork> {
    let s = trimmed(addr);
    let lower = lowercased(s);
    if begins_with(lower, "bcrt1"@) {
        Some(BitcoinNetwork::Regtest)
    } else if begins_with(lower, "tb1"@) {
        Some(BitcoinNetwork::Testnet)
    } else if begins_with(lower, "bc1"@) {
        Some(BitcoinNetwork::Mainnet)
    } else if s.len() == 0 || !is_base58_address(s) {
        None
    } else if s[0] == '1' || s[0] == '3' {
        Some(BitcoinNetwork::Mainnet)
    } else if s[0] == 'm' || s[0] == 'n' || s[0] == '2' {
        Some(BitcoinNetwork::Testnet)
    } else {
        None
    }
}

/// The network of an address, by its prefix. Where it is unknown, the caller
/// must expect the main network.
pub fn classify_address_network(addr: &str) -> (r: Option<BitcoinNetwork>)
    ensures
        r == network_of(addr@),
{
    let s: &str = trim(addr);
    proof {
        reveal_strlit("bcrt1");
        reveal_strlit("tb1");
        reveal_strlit("bc1");
    }
    if s.unicode_len() == 0 {
        return None;
    }
    let lower: String = to_ascii_lower(s);
    if starts_with(lower.as_str(), "bcrt1") {
        return Some(BitcoinNetwork::Regtest);
    }
    if starts_with(lower.as_str(), "tb1") {
        return Some(BitcoinNetwork::Testnet);
    }
    if starts_with(lower.as_str(), "bc1") {
        return Some(BitcoinNetwork::Mainnet);
    }
    let n: usize = s.as_bytes().len();
    if n < 26 || n > 35 {
        return None;
    }
    let v: Vec<char> = chars_of(s);
    for i in 0..v.len()
        invariant
            v@ == s@,
            s@ == trimmed(addr@),
            !begins_with(lowercased(s@), "bcrt1"@),
            !begins_with(lowercased(s@), "tb1"@),
            !begins_with(lowercased(s@), "bc1"@),
            forall|j: int| 0 <= j < i ==> is_base58_char(#[trigger] s@[j]),
    {
        if !is_base58(v[i]) {
            assert(!is_base58_char(s@[i as int]));
            return None;
        }
    }
    let first: char = v[0];
    if first == '1' || first == '3' {
        Some(BitcoinNetwork::Mainnet)
    } else if first == 'm' || first == 'n' || first == '2' {
        Some(BitcoinNetwork::Testnet)
    } else {
        None
    }
}

/// No address of the main network is taken for one of another network: those
/// begin with `bc1`, in either case, with `1` or with `3`.
pub proof fn mainnet_is_never_taken_for_another(addr: Seq<char>)
    requires
        ({
            let s = trimmed(addr);
            ||| begins_with(lowercased(s), "bc1"@)
            ||| s.len() > 0 && (s[0] == '1' || s[0] == '3')
        }),
    ensures
        network_of(addr) is None || network_of(addr)->0 is Mainnet,
{
    reveal_strlit("bcrt1");
    reveal_strlit("tb1");
    reveal_strlit("bc1");
    let s = trimmed(addr);
    let lower = lowercased(s);
    if begins_with(lower, "bc1"@) {
        assert(lower.subrange(0, 3)[0] == 'b');
        assert(lower.subrange(0, 3)[2] == '1');
        assert(lower[0] == 'b' && lower[2] == '1');
    } else {
        assert(lower[0] == s[0]);
    }
    if begins_with(lower, "bcrt1"@) {
        assert(lower.subrange(0, 5)[0] == 'b');
        assert(lower.subrange(0, 5)[2] == 'r');
    }
    if begins_with(lower, "tb1"@) {
        assert(lower.subrange(0, 3)[0] == 't');
    }
}

} // verus!
