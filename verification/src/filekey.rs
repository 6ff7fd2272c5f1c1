//! The 64-bit file-group identifier: the first 8 bytes of the MD5 of a group
//! name, read little-endian, and rendered on disk as 16 upper-hex characters,
//! least-significant nibble first.

use vstd::prelude::*;

use crate::digests::{md5_of, md5_parts};
use crate::stream::le_u64_at;
use vstd::string::StringSliceAdditionalSpecFns;

verus! {

/// The upper-hex character of a nibble.
pub open spec fn nibble_char(v: u8) -> char {
    if v < 10 {
        ((v + 48) as u8) as char
    } else {
        ((v + 55) as u8) as char
    }
}

/// The nibble value of an upper-hex character, if it is one.
pub open spec fn char_nibble(c: char) -> Option<u8> {
    let n = c as u32;
    if 48 <= n <= 57 {
        Some((n - 48) as u8)
    } else if 65 <= n <= 70 {
        Some((n - 55) as u8)
    } else {
        None
    }
}

/// `count` hex characters of `v`, least-significant nibble first.
pub open spec fn spec_file_part_rec(v: u64, count: nat) -> Seq<char>
    decreases count,
{
    if count == 0 {
        Seq::empty()
    } else {
        seq![nibble_char((v % 16) as u8)] + spec_file_part_rec(v / 16, (count - 1) as nat)
    }
}

/// The 16-character on-disk rendering of a file key value.
pub open spec fn spec_file_part(v: u64) -> Seq<char> {
    spec_file_part_rec(v, 16)
}

/// The value a nibble-first hex string stands for, if every character is a
/// hex digit.
pub open spec fn spec_parse_nibbles(s: Seq<char>) -> Option<int>
    decreases s.len(),
{
    if s.len() == 0 {
        Some(0)
    } else {
        match char_nibble(s[0]) {
            None => None,
            Some(n) => match spec_parse_nibbles(s.drop_first()) {
                None => None,
                Some(rest) => Some(n + 16 * rest),
            },
        }
    }
}

/// Sixteen raised to the power `n`.
pub open spec fn pow16(n: nat) -> int
    decreases n,
{
    if n == 0 {
        1
    } else {
        16 * pow16((n - 1) as nat)
    }
}

/// A 64-bit identifier for one file group of an account.
#[derive(Debug, Default, Copy, Clone, PartialEq, Eq, Structural)]
pub struct FileKey(pub u64);

impl FileKey {
    /// Derives the key of a file-group name: the first 8 bytes of the MD5
    /// of its UTF-8 bytes, interpreted little-endian.
    pub fn compute(data_name: &str) -> (r: Self)
        ensures
            r.0 == le_u64_at(md5_of(data_name.spec_bytes()), 0),
    {
        let bytes = data_name.as_bytes();
        let empty: Vec<u8> = Vec::new();
        let hash = md5_parts(bytes, empty.as_slice(), empty.as_slice(), empty.as_slice());
        proof {
            assert(bytes@ + Seq::<u8>::empty() + Seq::<u8>::empty() + Seq::<u8>::empty()
                =~= data_name.spec_bytes());
        }
        let d0 = hash[0] as u32;
        let d1 = hash[1] as u32;
        let d2 = hash[2] as u32;
        let d3 = hash[3] as u32;
        let d4 = hash[4] as u32;
        let d5 = hash[5] as u32;
        let d6 = hash[6] as u32;
        let d7 = hash[7] as u32;
        let lo: u32 = d0 + d1 * 0x100 + d2 * 0x10000 + d3 * 0x1000000;
        let hi: u32 = d4 + d5 * 0x100 + d6 * 0x10000 + d7 * 0x1000000;
        let v: u64 = lo as u64 + (hi as u64) * 0x100000000;
        FileKey(v)
    }

    /// Renders the key as its 16-character upper-hex file-name part,
    /// least-significant nibble first.
    pub fn to_file_part(&self) -> (r: String)
        ensures
            r@ == spec_file_part(self.0),
            r@.len() == 16,
    {
        let mut val: u64 = self.0;
        let mut result = String::new();
        let mut i: usize = 0;
        while i < 16
            invariant
                i <= 16,
                result@.len() == i,
                result@ + spec_file_part_rec(val, (16 - i) as nat) == spec_file_part(self.0),
            decreases 16 - i,
        {
            let ghost before = result@;
            let ghost val_before = val;
            let v = (val % 16) as u8;
            let c = if v < 10 {
                (48 + v) as char
            } else {
                (55 + v) as char
            };
            crate::digests::push_char(&mut result, c);
            val = val / 16;
            i = i + 1;
            proof {
                assert(c == nibble_char((val_before % 16) as u8));
                assert(spec_file_part_rec(val_before, (16 - (i - 1)) as nat) == seq![c]
                    + spec_file_part_rec(val, (16 - i) as nat));
                assert(result@ + spec_file_part_rec(val, (16 - i) as nat) =~= before
                    + spec_file_part_rec(val_before, (16 - i + 1) as nat));
            }
        }
        proof {
            assert(result@ + spec_file_part_rec(val, 0) =~= result@);
        }
        result
    }
}

/// One rendering step parses back: `count` characters of `v` stand for
/// `v` modulo sixteen to the `count`.
proof fn lemma_file_part_rec_roundtrip(v: u64, count: nat)
    ensures
        spec_file_part_rec(v, count).len() == count,
        spec_parse_nibbles(spec_file_part_rec(v, count)) == Some((v as int) % pow16(count)),
    decreases count,
{
    if count == 0 {
        assert((v as int) % 1 == 0) by (nonlinear_arith);
    } else {
        let s = spec_file_part_rec(v, count);
        let c = nibble_char((v % 16) as u8);
        let rest = spec_file_part_rec(v / 16, (count - 1) as nat);
        lemma_file_part_rec_roundtrip(v / 16, (count - 1) as nat);
        assert(s[0] == c);
        assert(s.drop_first() =~= rest);
        assert(char_nibble(c) == Some((v % 16) as u8));
        let p = pow16((count - 1) as nat);
        assert(p > 0) by {
            lemma_pow16_pos((count - 1) as nat);
        }
        vstd::arithmetic::div_mod::lemma_mod_breakdown(v as int, 16, p);
        assert(pow16(count) == 16 * p);
    }
}

/// Sixteen to any power is positive.
proof fn lemma_pow16_pos(n: nat)
    ensures
        pow16(n) > 0,
    decreases n,
{
    if n > 0 {
        lemma_pow16_pos((n - 1) as nat);
    }
}

/// The on-disk rendering of a file key parses back to the same value: the
/// round-trip law of the file-name layer.
pub proof fn lemma_file_part_roundtrip(v: u64)
    ensures
        spec_file_part(v).len() == 16,
        spec_parse_nibbles(spec_file_part(v)) == Some(v as int),
{
    lemma_file_part_rec_roundtrip(v, 16);
    assert(pow16(16) == 0x10000000000000000) by {
        reveal_with_fuel(pow16, 17);
    }
    assert((v as int) % 0x10000000000000000 == v as int) by (nonlinear_arith)
        requires
            0 <= v < 0x10000000000000000,
    ;
}

} // verus!
