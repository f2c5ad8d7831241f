//! The packed, parity-checked weapon identifier and its hex string form.
//!
//! An identifier is 8 bytes: level, weapon type index, the four slot part
//! indices, a reserved zero byte, and a parity byte equal to the XOR of the
//! six meaningful bytes. Its external form is the 16-character lower-case
//! hex rendering of the 8 bytes read as a big-endian 64-bit integer.

use vstd::prelude::*;

verus! {

/// Why an identifier string failed to parse.
#[derive(Clone, Copy, PartialEq, Eq, Structural, Debug)]
pub enum ParseError {
    /// The string was empty.
    Empty,
    /// A character was not a base-16 digit (after an optional leading `+`).
    InvalidDigit,
    /// The digits denote a value that does not fit in 64 bits.
    Overflow,
}

/// The XOR parity of the six meaningful identifier bytes.
pub open spec fn parity_of(level: u8, typ: u8, body: u8, barrel: u8, magazine: u8, stock: u8) -> u8 {
    level ^ typ ^ body ^ barrel ^ magazine ^ stock
}

/// An 8-byte weapon identifier.
///
/// The fields are plain bytes; `check` tells whether the stored parity
/// matches the other six meaningful bytes. Parsing does not re-validate
/// parity, so a freshly parsed identifier may fail `check`.
#[derive(Clone, Copy, PartialEq, Eq, Structural, Debug)]
pub struct Id {
    /// Byte 0: the level the weapon was generated at.
    pub level: u8,
    /// Byte 1: the weapon type index.
    pub typ: u8,
    /// Byte 2: index of the body part in the catalog list.
    pub body: u8,
    /// Byte 3: index of the barrel part in the catalog list.
    pub barrel: u8,
    /// Byte 4: index of the magazine part in the catalog list.
    pub magazine: u8,
    /// Byte 5: index of the stock part in the catalog list.
    pub stock: u8,
    /// Byte 6: reserved, zero on every encoded identifier.
    pub reserved: u8,
    /// Byte 7: XOR of bytes 0 through 5.
    pub parity: u8,
}

impl Id {
    /// The identifier that encodes the given level, type index and slot indices.
    pub open spec fn from_spec(
        level: u8,
        typ: u8,
        body: u8,
        barrel: u8,
        magazine: u8,
        stock: u8,
    ) -> Id {
        Id {
            level,
            typ,
            body,
            barrel,
            magazine,
            stock,
            reserved: 0,
            parity: parity_of(level, typ, body, barrel, magazine, stock),
        }
    }

    /// Encode a level, a type index and the four slot indices, computing parity.
    pub fn from(level: u8, typ: u8, body: u8, barrel: u8, magazine: u8, stock: u8) -> (r: Id)
        ensures
            r == Id::from_spec(level, typ, body, barrel, magazine, stock),
    {
        let parity = level ^ typ ^ body ^ barrel ^ magazine ^ stock;
        Id { level, typ, body, barrel, magazine, stock, reserved: 0, parity }
    }

    /// Whether the stored parity byte matches the other six meaningful bytes.
    pub open spec fn check_spec(self) -> bool {
        self.parity == parity_of(self.level, self.typ, self.body, self.barrel, self.magazine, self.stock)
    }

    /// Recompute parity from the six meaningful bytes and compare it to the
    /// stored parity byte.
    pub fn check(&self) -> (r: bool)
        ensures
            r == self.check_spec(),
    {
        let result = self.level ^ self.typ ^ self.body ^ self.barrel ^ self.magazine ^ self.stock;
        self.parity == result
    }

    /// The level byte.
    pub fn level(&self) -> (r: u8)
        ensures
            r == self.level,
    {
        self.level
    }

    /// The weapon type index byte.
    pub fn typ(&self) -> (r: u8)
        ensures
            r == self.typ,
    {
        self.typ
    }

    /// The body part index byte.
    pub fn body(&self) -> (r: u8)
        ensures
            r == self.body,
    {
        self.body
    }

    /// The barrel part index byte.
    pub fn barrel(&self) -> (r: u8)
        ensures
            r == self.barrel,
    {
        self.barrel
    }

    /// The magazine part index byte.
    pub fn magazine(&self) -> (r: u8)
        ensures
            r == self.magazine,
    {
        self.magazine
    }

    /// The stock part index byte.
    pub fn stock(&self) -> (r: u8)
        ensures
            r == self.stock,
    {
        self.stock
    }

    /// The identifier whose bytes are the big-endian bytes of `n`.
    pub open spec fn of_u64_spec(n: u64) -> Id {
        Id {
            level: (n >> 56) as u8,
            typ: (n >> 48) as u8,
            body: (n >> 40) as u8,
            barrel: (n >> 32) as u8,
            magazine: (n >> 24) as u8,
            stock: (n >> 16) as u8,
            reserved: (n >> 8) as u8,
            parity: n as u8,
        }
    }

    /// Unpack a 64-bit value into its big-endian bytes.
    pub fn new(id: u64) -> (r: Id)
        ensures
            r == Id::of_u64_spec(id),
    {
        Id {
            level: #[verifier::truncate] ((id >> 56) as u8),
            typ: #[verifier::truncate] ((id >> 48) as u8),
            body: #[verifier::truncate] ((id >> 40) as u8),
            barrel: #[verifier::truncate] ((id >> 32) as u8),
            magazine: #[verifier::truncate] ((id >> 24) as u8),
            stock: #[verifier::truncate] ((id >> 16) as u8),
            reserved: #[verifier::truncate] ((id >> 8) as u8),
            parity: #[verifier::truncate] (id as u8),
        }
    }

    /// The 8 bytes read as a big-endian unsigned 64-bit integer.
    pub open spec fn value_spec(self) -> int {
        (self.level as int) * 0x100000000000000 + (self.typ as int) * 0x1000000000000
            + (self.body as int) * 0x10000000000 + (self.barrel as int) * 0x100000000 + (
        self.magazine as int) * 0x1000000 + (self.stock as int) * 0x10000 + (self.reserved as int)
            * 0x100 + (self.parity as int)
    }

    /// The 16-character lower-case hex rendering of this identifier.
    pub open spec fn hex_spec(self) -> Seq<char> {
        byte_hex(self.level) + byte_hex(self.typ) + byte_hex(self.body) + byte_hex(self.barrel)
            + byte_hex(self.magazine) + byte_hex(self.stock) + byte_hex(self.reserved) + byte_hex(
        self.parity)
    }

    /// Render this identifier as its 16-character lower-case hex string,
    /// zero-padded, most significant byte first.
    pub fn to_hex(&self) -> (r: String)
        ensures
            r@ == self.hex_spec(),
    {
        let mut s = String::new();
        push_byte_hex(&mut s, self.level);
        push_byte_hex(&mut s, self.typ);
        push_byte_hex(&mut s, self.body);
        push_byte_hex(&mut s, self.barrel);
        push_byte_hex(&mut s, self.magazine);
        push_byte_hex(&mut s, self.stock);
        push_byte_hex(&mut s, self.reserved);
        push_byte_hex(&mut s, self.parity);
        s
    }

    /// What parsing a candidate identifier string yields: an optional leading
    /// `+`, then base-16 digits of a value that must fit in 64 bits. Parity
    /// is not validated here; `check` does that separately.
    pub open spec fn parse_spec(s: Seq<char>) -> Result<Id, ParseError> {
        if s.len() == 0 {
            Err(ParseError::Empty)
        } else {
            let digits = if s[0] == '+' {
                s.skip(1)
            } else {
                s
            };
            if digits.len() == 0 {
                Err(ParseError::InvalidDigit)
            } else {
                match scan_spec(digits, 0) {
                    Ok(v) => Ok(Id::of_u64_spec(v)),
                    Err(e) => Err(e),
                }
            }
        }
    }

    /// Parse a base-16 identifier string into its 8 bytes.
    pub fn parse(s: &str) -> (r: Result<Id, ParseError>)
        ensures
            r == Id::parse_spec(s@),
    {
        let len = s.unicode_len();
        if len == 0 {
            return Err(ParseError::Empty);
        }
        let start: usize = if s.get_char(0) == '+' {
            1
        } else {
            0
        };
        if start == len {
            return Err(ParseError::InvalidDigit);
        }
        let ghost digits = if s@[0] == '+' {
            s@.skip(1)
        } else {
            s@
        };
        proof {
            assert(s@.skip(0) =~= s@);
            assert(digits =~= s@.skip(start as int));
        }
        let mut value: u64 = 0;
        let mut i: usize = start;
        while i < len
            invariant
                start <= i <= len,
                0 < len == s@.len(),
                start == 1 || start == 0,
                start == 1 <==> s@[0] == '+',
                digits == s@.skip(start as int),
                digits == if s@[0] == '+' {
                    s@.skip(1)
                } else {
                    s@
                },
                scan_spec(digits, 0) == scan_spec(s@.skip(i as int), value),
            decreases len - i,
        {
            let c = s.get_char(i);
            proof {
                let tail = s@.skip(i as int);
                assert(tail.len() == len - i);
                assert(tail[0] == c);
                assert(tail.skip(1) =~= s@.skip(i as int + 1));
            }
            match hex_digit(c) {
                None => {
                    proof {
                        let tail = s@.skip(i as int);
                        assert(tail.len() > 0);
                        assert(hex_digit_spec(tail[0]) == -1);
                        assert(scan_spec(tail, value) == Err::<u64, ParseError>(
                            ParseError::InvalidDigit,
                        ));
                        assert(digits.len() > 0);
                        assert(Id::parse_spec(s@) == Err::<Id, ParseError>(
                            ParseError::InvalidDigit,
                        ));
                    }
                    return Err(ParseError::InvalidDigit);
                },
                Some(d) => {
                    if value < 0x1000000000000000 {
                        let shifted = value * 16;
                        if (d as u64) <= 0xFFFFFFFFFFFFFFFFu64 - shifted {
                            value = shifted + d as u64;
                        } else {
                            proof {
                                let tail = s@.skip(i as int);
                                assert(16 * (value as int) + hex_digit_spec(tail[0])
                                    >= 0x10000000000000000);
                                assert(scan_spec(tail, value) == Err::<u64, ParseError>(
                                    ParseError::Overflow,
                                ));
                                assert(digits.len() > 0);
                                assert(Id::parse_spec(s@) == Err::<Id, ParseError>(
                                    ParseError::Overflow,
                                ));
                            }
                            return Err(ParseError::Overflow);
                        }
                    } else {
                        proof {
                            let tail = s@.skip(i as int);
                            assert(16 * (value as int) + hex_digit_spec(tail[0])
                                >= 0x10000000000000000);
                            assert(scan_spec(tail, value) == Err::<u64, ParseError>(
                                ParseError::Overflow,
                            ));
                            assert(digits.len() > 0);
                            assert(Id::parse_spec(s@) == Err::<Id, ParseError>(
                                ParseError::Overflow,
                            ));
                        }
                        return Err(ParseError::Overflow);
                    }
                },
            }
            i = i + 1;
        }
        proof {
            assert(s@.skip(len as int) =~= Seq::<char>::empty());
        }
        Ok(Id::new(value))
    }
}

/// The lower-case hex character of a value below 16.
pub open spec fn nibble_char(v: u8) -> char {
    if v == 0 {
        '0'
    } else if v == 1 {
        '1'
    } else if v == 2 {
        '2'
    } else if v == 3 {
        '3'
    } else if v == 4 {
        '4'
    } else if v == 5 {
        '5'
    } else if v == 6 {
        '6'
    } else if v == 7 {
        '7'
    } else if v == 8 {
        '8'
    } else if v == 9 {
        '9'
    } else if v == 10 {
        'a'
    } else if v == 11 {
        'b'
    } else if v == 12 {
        'c'
    } else if v == 13 {
        'd'
    } else if v == 14 {
        'e'
    } else {
        'f'
    }
}

/// The two lower-case hex characters of a byte, high nibble first.
pub open spec fn byte_hex(b: u8) -> Seq<char> {
    seq![nibble_char((b / 16) as u8), nibble_char((b % 16) as u8)]
}

/// The value of a hex digit character, or -1 if it is not one.
pub open spec fn hex_digit_spec(c: char) -> int {
    if c == '0' {
        0
    } else if c == '1' {
        1
    } else if c == '2' {
        2
    } else if c == '3' {
        3
    } else if c == '4' {
        4
    } else if c == '5' {
        5
    } else if c == '6' {
        6
    } else if c == '7' {
        7
    } else if c == '8' {
        8
    } else if c == '9' {
        9
    } else if c == 'a' || c == 'A' {
        10
    } else if c == 'b' || c == 'B' {
        11
    } else if c == 'c' || c == 'C' {
        12
    } else if c == 'd' || c == 'D' {
        13
    } else if c == 'e' || c == 'E' {
        14
    } else if c == 'f' || c == 'F' {
        15
    } else {
        -1
    }
}

/// Left-to-right base-16 accumulation of `s` on top of `acc`, reporting the
/// first bad digit or the first point where the value leaves 64 bits.
pub open spec fn scan_spec(s: Seq<char>, acc: u64) -> Result<u64, ParseError>
    decreases s.len(),
{
    if s.len() == 0 {
        Ok(acc)
    } else {
        let d = hex_digit_spec(s[0]);
        if d < 0 {
            Err(ParseError::InvalidDigit)
        } else if 16 * (acc as int) + d >= 0x10000000000000000 {
            Err(ParseError::Overflow)
        } else {
            scan_spec(s.skip(1), (16 * (acc as int) + d) as u64)
        }
    }
}

/// The value of a hex digit character, if it is one.
fn hex_digit(c: char) -> (r: Option<u8>)
    ensures
        match r {
            Some(d) => d < 16 && hex_digit_spec(c) == d as int,
            None => hex_digit_spec(c) == -1,
        },
{
    match c {
        '0' => Some(0),
        '1' => Some(1),
        '2' => Some(2),
        '3' => Some(3),
        '4' => Some(4),
        '5' => Some(5),
        '6' => Some(6),
        '7' => Some(7),
        '8' => Some(8),
        '9' => Some(9),
        'a' => Some(10),
        'A' => Some(10),
        'b' => Some(11),
        'B' => Some(11),
        'c' => Some(12),
        'C' => Some(12),
        'd' => Some(13),
        'D' => Some(13),
        'e' => Some(14),
        'E' => Some(14),
        'f' => Some(15),
        'F' => Some(15),
        _ => None,
    }
}

/// The one-character string slice for a value below 16, in lower-case hex.
fn nibble_str(v: u8) -> (r: &'static str)
    requires
        v < 16,
    ensures
        r@ == seq![nibble_char(v)],
{
    if v == 0 {
        proof {
            reveal_strlit("0");
            assert("0"@ =~= seq![nibble_char(0u8)]);
        }
        "0"
    } else if v == 1 {
        proof {
            reveal_strlit("1");
            assert("1"@ =~= seq![nibble_char(1u8)]);
        }
        "1"
    } else if v == 2 {
        proof {
            reveal_strlit("2");
            assert("2"@ =~= seq![nibble_char(2u8)]);
        }
        "2"
    } else if v == 3 {
        proof {
            reveal_strlit("3");
            assert("3"@ =~= seq![nibble_char(3u8)]);
        }
        "3"
    } else if v == 4 {
        proof {
            reveal_strlit("4");
            assert("4"@ =~= seq![nibble_char(4u8)]);
        }
        "4"
    } else if v == 5 {
        proof {
            reveal_strlit("5");
            assert("5"@ =~= seq![nibble_char(5u8)]);
        }
        "5"
    } else if v == 6 {
        proof {
            reveal_strlit("6");
            assert("6"@ =~= seq![nibble_char(6u8)]);
        }
        "6"
    } else if v == 7 {
        proof {
            reveal_strlit("7");
            assert("7"@ =~= seq![nibble_char(7u8)]);
        }
        "7"
    } else if v == 8 {
        proof {
            reveal_strlit("8");
            assert("8"@ =~= seq![nibble_char(8u8)]);
        }
        "8"
    } else if v == 9 {
        proof {
            reveal_strlit("9");
            assert("9"@ =~= seq![nibble_char(9u8)]);
        }
        "9"
    } else if v == 10 {
        proof {
            reveal_strlit("a");
            assert("a"@ =~= seq![nibble_char(10u8)]);
        }
        "a"
    } else if v == 11 {
        proof {
            reveal_strlit("b");
            assert("b"@ =~= seq![nibble_char(11u8)]);
        }
        "b"
    } else if v == 12 {
        proof {
            reveal_strlit("c");
            assert("c"@ =~= seq![nibble_char(12u8)]);
        }
        "c"
    } else if v == 13 {
        proof {
            reveal_strlit("d");
            assert("d"@ =~= seq![nibble_char(13u8)]);
        }
        "d"
    } else if v == 14 {
        proof {
            reveal_strlit("e");
            assert("e"@ =~= seq![nibble_char(14u8)]);
        }
        "e"
    } else {
        proof {
            reveal_strlit("f");
            assert("f"@ =~= seq![nibble_char(15u8)]);
        }
        "f"
    }
}

/// Every encoded identifier passes the parity check.
pub proof fn lemma_encode_verifies(
    level: u8,
    typ: u8,
    body: u8,
    barrel: u8,
    magazine: u8,
    stock: u8,
)
    ensures
        Id::from_spec(level, typ, body, barrel, magazine, stock).check_spec(),
{
}

/// `id` with a single bit of one byte inverted. Byte 0 is the level byte,
/// byte 7 the parity byte.
pub open spec fn with_bit_flipped(id: Id, byte_index: int, bit: u8) -> Id {
    let mask = 1u8 << bit;
    Id {
        level: if byte_index == 0 {
            id.level ^ mask
        } else {
            id.level
        },
        typ: if byte_index == 1 {
            id.typ ^ mask
        } else {
            id.typ
        },
        body: if byte_index == 2 {
            id.body ^ mask
        } else {
            id.body
        },
        barrel: if byte_index == 3 {
            id.barrel ^ mask
        } else {
            id.barrel
        },
        magazine: if byte_index == 4 {
            id.magazine ^ mask
        } else {
            id.magazine
        },
        stock: if byte_index == 5 {
            id.stock ^ mask
        } else {
            id.stock
        },
        reserved: if byte_index == 6 {
            id.reserved ^ mask
        } else {
            id.reserved
        },
        parity: if byte_index == 7 {
            id.parity ^ mask
        } else {
            id.parity
        },
    }
}

/// Flipping any single bit of a byte that takes part in the parity — the six
/// meaningful bytes or the parity byte itself — makes the check fail. The
/// reserved byte does not take part; see `lemma_reserved_byte_ignored`.
pub proof fn lemma_single_bit_flip_detected(id: Id, byte_index: int, bit: u8)
    requires
        id.check_spec(),
        0 <= byte_index <= 7,
        byte_index != 6,
        bit < 8,
    ensures
        !with_bit_flipped(id, byte_index, bit).check_spec(),
{
    let mask = 1u8 << bit;
    let l = id.level;
    let t = id.typ;
    let b = id.body;
    let r = id.barrel;
    let m = id.magazine;
    let s = id.stock;
    let p = id.parity;
    assert(mask != 0) by (bit_vector)
        requires
            mask == 1u8 << bit,
            bit < 8,
    ;
    if byte_index == 0 {
        assert((l ^ mask) ^ t ^ b ^ r ^ m ^ s != p) by (bit_vector)
            requires
                p == l ^ t ^ b ^ r ^ m ^ s,
                mask != 0,
        ;
    } else if byte_index == 1 {
        assert(l ^ (t ^ mask) ^ b ^ r ^ m ^ s != p) by (bit_vector)
            requires
                p == l ^ t ^ b ^ r ^ m ^ s,
                mask != 0,
        ;
    } else if byte_index == 2 {
        assert(l ^ t ^ (b ^ mask) ^ r ^ m ^ s != p) by (bit_vector)
            requires
                p == l ^ t ^ b ^ r ^ m ^ s,
                mask != 0,
        ;
    } else if byte_index == 3 {
        assert(l ^ t ^ b ^ (r ^ mask) ^ m ^ s != p) by (bit_vector)
            requires
                p == l ^ t ^ b ^ r ^ m ^ s,
                mask != 0,
        ;
    } else if byte_index == 4 {
        assert(l ^ t ^ b ^ r ^ (m ^ mask) ^ s != p) by (bit_vector)
            requires
                p == l ^ t ^ b ^ r ^ m ^ s,
                mask != 0,
        ;
    } else if byte_index == 5 {
        assert(l ^ t ^ b ^ r ^ m ^ (s ^ mask) != p) by (bit_vector)
            requires
                p == l ^ t ^ b ^ r ^ m ^ s,
                mask != 0,
        ;
    } else {
        assert(l ^ t ^ b ^ r ^ m ^ s != p ^ mask) by (bit_vector)
            requires
                p == l ^ t ^ b ^ r ^ m ^ s,
                mask != 0,
        ;
    }
}

/// The reserved byte is not covered by the parity: corrupting it alone goes
/// undetected by the check.
pub proof fn lemma_reserved_byte_ignored(id: Id, bit: u8)
    requires
        id.check_spec(),
        bit < 8,
    ensures
        with_bit_flipped(id, 6, bit).check_spec(),
{
}

/// A hex character scans back to the nibble it renders.
proof fn lemma_nibble_roundtrip(v: u8)
    requires
        v < 16,
    ensures
        hex_digit_spec(nibble_char(v)) == v as int,
{
}

/// Scanning the two hex characters of a byte folds that byte into the
/// accumulator, base 256.
proof fn lemma_scan_byte(s: Seq<char>, b: u8, acc: u64)
    requires
        acc < 0x100000000000000,
    ensures
        scan_spec(byte_hex(b) + s, acc) == scan_spec(s, (256 * (acc as int) + b) as u64),
{
    let hi = (b / 16) as u8;
    let lo = (b % 16) as u8;
    assert(hi < 16 && lo < 16);
    lemma_nibble_roundtrip(hi);
    lemma_nibble_roundtrip(lo);
    let full = byte_hex(b) + s;
    assert(full[0] == nibble_char(hi));
    assert(full.skip(1) =~= seq![nibble_char(lo)] + s);
    let acc1 = (16 * (acc as int) + hi) as u64;
    assert(scan_spec(full, acc) == scan_spec(seq![nibble_char(lo)] + s, acc1));
    let mid = seq![nibble_char(lo)] + s;
    assert(mid[0] == nibble_char(lo));
    assert(mid.skip(1) =~= s);
    let acc2 = (16 * (acc1 as int) + lo) as u64;
    assert(scan_spec(mid, acc1) == scan_spec(s, acc2));
    assert(16 * hi + lo == b);
    assert(acc2 == (256 * (acc as int) + b) as u64);
}

/// The big-endian value of the bytes fits in 64 bits, and unpacking it
/// recovers the identifier.
proof fn lemma_value_unpacks(id: Id)
    ensures
        0 <= id.value_spec() < 0x10000000000000000,
        Id::of_u64_spec(id.value_spec() as u64) == id,
{
    let l = id.level;
    let t = id.typ;
    let b = id.body;
    let r = id.barrel;
    let m = id.magazine;
    let s = id.stock;
    let q = id.reserved;
    let p = id.parity;
    assert(0 <= id.value_spec() < 0x10000000000000000);
    let v: u64 = id.value_spec() as u64;
    assert((v >> 56) as u8 == l && (v >> 48) as u8 == t && (v >> 40) as u8 == b && (v >> 32) as u8
        == r && (v >> 24) as u8 == m && (v >> 16) as u8 == s && (v >> 8) as u8 == q && v as u8 == p)
        by (bit_vector)
        requires
            v == (l as u64) * 0x100000000000000 + (t as u64) * 0x1000000000000 + (b as u64)
                * 0x10000000000 + (r as u64) * 0x100000000 + (m as u64) * 0x1000000 + (s as u64)
                * 0x10000 + (q as u64) * 0x100 + (p as u64),
    ;
}

/// Rendering an identifier as hex and parsing the result gives back exactly
/// the identifier, byte for byte.
pub proof fn lemma_hex_round_trip(id: Id)
    ensures
        Id::parse_spec(id.hex_spec()) == Ok::<Id, ParseError>(id),
{
    let s = id.hex_spec();
    let t7 = byte_hex(id.parity);
    let t6 = byte_hex(id.reserved) + t7;
    let t5 = byte_hex(id.stock) + t6;
    let t4 = byte_hex(id.magazine) + t5;
    let t3 = byte_hex(id.barrel) + t4;
    let t2 = byte_hex(id.body) + t3;
    let t1 = byte_hex(id.typ) + t2;
    let t0 = byte_hex(id.level) + t1;
    assert(s =~= t0);
    let a1 = (id.level as int) as u64;
    let a2 = (256 * (a1 as int) + id.typ) as u64;
    let a3 = (256 * (a2 as int) + id.body) as u64;
    let a4 = (256 * (a3 as int) + id.barrel) as u64;
    let a5 = (256 * (a4 as int) + id.magazine) as u64;
    let a6 = (256 * (a5 as int) + id.stock) as u64;
    let a7 = (256 * (a6 as int) + id.reserved) as u64;
    let a8 = (256 * (a7 as int) + id.parity) as u64;
    lemma_scan_byte(t1, id.level, 0);
    lemma_scan_byte(t2, id.typ, a1);
    lemma_scan_byte(t3, id.body, a2);
    lemma_scan_byte(t4, id.barrel, a3);
    lemma_scan_byte(t5, id.magazine, a4);
    lemma_scan_byte(t6, id.stock, a5);
    lemma_scan_byte(t7, id.reserved, a6);
    lemma_scan_byte(Seq::<char>::empty(), id.parity, a7);
    assert(byte_hex(id.parity) + Seq::<char>::empty() =~= t7);
    assert(scan_spec(t0, 0) == Ok::<u64, ParseError>(a8));
    assert(a8 == id.value_spec());
    lemma_value_unpacks(id);
    assert(s.len() == 16);
    assert(s[0] == nibble_char((id.level / 16) as u8));
    assert(nibble_char((id.level / 16) as u8) != '+');
    assert(Id::parse_spec(s) == Ok::<Id, ParseError>(Id::of_u64_spec(a8)));
}

/// Append the two hex characters of a byte to `s`, high nibble first.
fn push_byte_hex(s: &mut String, b: u8)
    ensures
        final(s)@ == old(s)@ + byte_hex(b),
{
    s.append(nibble_str(b / 16));
    s.append(nibble_str(b % 16));
    proof {
        assert(s@ =~= old(s)@ + byte_hex(b));
    }
}

} // verus!
