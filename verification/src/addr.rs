//! Account addresses: a fixed 20-byte value, and the parser that reads one
//! from a hex string.
//!
//! The accepted grammar: an optional `0x` prefix, then exactly forty hex
//! digits of either case, possibly interleaved with ASCII whitespace
//! (space, tab, carriage return, line feed).  Consecutive digit pairs name
//! the bytes from the most significant end.

use vstd::prelude::*;
use vstd::string::*;
use crate::errors::ParseError;

verus! {

/// A 20-byte account address, immutable once obtained from the provider.
#[derive(Clone, Copy, Debug, PartialEq, Eq)]
pub struct Address(pub [u8; 20]);

impl View for Address {
    type V = Seq<u8>;

    open spec fn view(&self) -> Seq<u8> {
        self.0@
    }
}

/// ASCII `0`..`9`, `A`..`F` or `a`..`f`.
pub open spec fn is_hex_digit(b: u8) -> bool {
    (48 <= b && b <= 57) || (65 <= b && b <= 70) || (97 <= b && b <= 102)
}

/// The value of a hex digit byte.
pub open spec fn hex_val(b: u8) -> u8 {
    if 48 <= b && b <= 57 {
        (b - 48) as u8
    } else if 65 <= b && b <= 70 {
        (b - 55) as u8
    } else {
        (b - 87) as u8
    }
}

/// ASCII whitespace that the parser skips between digits.
pub open spec fn is_hex_space(b: u8) -> bool {
    b == 32 || b == 13 || b == 10 || b == 9
}

/// The hex-digit values of `s` with whitespace skipped, or `None` if some
/// byte is neither a hex digit nor whitespace.
pub open spec fn hex_nibbles(s: Seq<u8>) -> Option<Seq<u8>>
    decreases s.len(),
{
    if s.len() == 0 {
        Some(Seq::empty())
    } else {
        match hex_nibbles(s.drop_last()) {
            Option::None => None,
            Option::Some(pre) => {
                if is_hex_digit(s.last()) {
                    Some(pre.push(hex_val(s.last())))
                } else if is_hex_space(s.last()) {
                    Some(pre)
                } else {
                    None
                }
            },
        }
    }
}

/// `s` without a leading `0x`, if it has one.
pub open spec fn strip_hex_prefix(s: Seq<u8>) -> Seq<u8> {
    if s.len() >= 2 && s[0] == 48 && s[1] == 120 {
        s.subrange(2, s.len() as int)
    } else {
        s
    }
}

/// Packs digit values pairwise into bytes, first digit of each pair in the
/// high nibble.
pub open spec fn pack_nibbles(n: Seq<u8>) -> Seq<u8> {
    Seq::new(n.len() / 2, |i: int| (n[2 * i] * 16 + n[2 * i + 1]) as u8)
}

/// Whether a byte string is a well-formed address: after the optional `0x`
/// prefix, exactly forty hex digits beside skipped whitespace.
pub open spec fn addr_ok(s: Seq<u8>) -> bool {
    match hex_nibbles(strip_hex_prefix(s)) {
        Some(n) => n.len() == 40,
        None => false,
    }
}

/// The 20 bytes a well-formed address string names.
pub open spec fn addr_bytes(s: Seq<u8>) -> Seq<u8> {
    pack_nibbles(hex_nibbles(strip_hex_prefix(s)).unwrap())
}

/// The checksummed hex rendering of a 20-byte address: `0x`, then forty hex
/// digits whose case encodes a digest of the lowercase rendering.
pub uninterp spec fn peer_hex_of(addr: Seq<u8>) -> Seq<char>;

/// Relies on chamomile_types::PeerId::to_hex: the checksummed hex rendering
/// depends on the address bytes alone.
#[verifier::external_body]
pub fn peer_hex(a: &Address) -> (r: String)
    ensures
        r@ == peer_hex_of(a@),
{
    chamomile_types::PeerId(a.0).to_hex()
}

/// If some prefix of `s` already fails to scan, the whole of `s` fails too.
proof fn lemma_hex_nibbles_prefix_none(s: Seq<u8>, k: int)
    requires
        0 <= k <= s.len(),
        hex_nibbles(s.subrange(0, k)) is None,
    ensures
        hex_nibbles(s) is None,
    decreases s.len() - k,
{
    if k == s.len() {
        assert(s.subrange(0, k) =~= s);
    } else {
        assert(s.subrange(0, k + 1).drop_last() =~= s.subrange(0, k));
        lemma_hex_nibbles_prefix_none(s, k + 1);
    }
}

impl Address {
    /// Reads an address from a hex string; reports a malformed one instead
    /// of panicking.
    pub fn parse(s: &str) -> (r: Result<Address, ParseError>)
        ensures
            r is Ok <==> addr_ok(s.spec_bytes()),
            r matches Ok(a) ==> a@ == addr_bytes(s.spec_bytes()),
            r matches Err(e) ==> e == ParseError::BadAddress,
    {
        let b = s.as_bytes();
        let start: usize = if b.len() >= 2 && b[0] == 48 && b[1] == 120 {
            2
        } else {
            0
        };
        let ghost t = strip_hex_prefix(s.spec_bytes());
        proof {
            assert(t =~= b@.subrange(start as int, b@.len() as int));
        }
        let mut nibbles: Vec<u8> = Vec::new();
        let mut i: usize = start;
        while i < b.len()
            invariant
                start <= i <= b@.len(),
                b@ == s.spec_bytes(),
                t == strip_hex_prefix(s.spec_bytes()),
                t == b@.subrange(start as int, b@.len() as int),
                hex_nibbles(t.subrange(0, i - start)) == Some(nibbles@),
                forall|k: int| 0 <= k < nibbles@.len() ==> nibbles@[k] < 16,
            decreases b@.len() - i,
        {
            let c = b[i];
            proof {
                assert(t.subrange(0, i - start + 1).drop_last() =~= t.subrange(0, i - start));
                assert(t.subrange(0, i - start + 1).last() == t[i - start]);
                assert(t[i - start] == b@[i as int]);
            }
            if 48 <= c && c <= 57 {
                nibbles.push(c - 48);
            } else if 65 <= c && c <= 70 {
                nibbles.push(c - 55);
            } else if 97 <= c && c <= 102 {
                nibbles.push(c - 87);
            } else if c == 32 || c == 13 || c == 10 || c == 9 {
            } else {
                proof {
                    assert(hex_nibbles(t.subrange(0, i - start + 1)) is None);
                    lemma_hex_nibbles_prefix_none(t, i - start + 1);
                }
                return Err(ParseError::BadAddress);
            }
            i += 1;
        }
        proof {
            assert(t.subrange(0, i - start) =~= t);
        }
        if nibbles.len() != 40 {
            return Err(ParseError::BadAddress);
        }
        let mut out: [u8; 20] = [0u8; 20];
        let mut j: usize = 0;
        while j < 20
            invariant
                j <= 20,
                out@.len() == 20,
                nibbles@.len() == 40,
                hex_nibbles(strip_hex_prefix(s.spec_bytes())) == Some(nibbles@),
                forall|k: int| 0 <= k < nibbles@.len() ==> nibbles@[k] < 16,
                forall|k: int| 0 <= k < j ==> out@[k] == pack_nibbles(nibbles@)[k],
            decreases 20 - j,
        {
            let hi = nibbles[2 * j];
            let lo = nibbles[2 * j + 1];
            out[j] = hi * 16 + lo;
            j += 1;
        }
        proof {
            assert(out@ =~= pack_nibbles(nibbles@));
        }
        Ok(Address(out))
    }
}

} // verus!

