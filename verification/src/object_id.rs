//! Document identifiers: the twelve-byte ids of the content store, held as
//! two integers, with their 24-digit hexadecimal spelling.

use vstd::prelude::*;

verus! {

/// The value of a hexadecimal digit, upper or lower case.
pub open spec fn hex_digit_value(c: char) -> Option<nat> {
    if '0' <= c && c <= '9' {
        Some((c as nat - '0' as nat) as nat)
    } else if 'a' <= c && c <= 'f' {
        Some((c as nat - 'a' as nat + 10) as nat)
    } else if 'A' <= c && c <= 'F' {
        Some((c as nat - 'A' as nat + 10) as nat)
    } else {
        None
    }
}

/// The lower-case hexadecimal digit of a value below 16.
pub open spec fn lower_hex_digit(v: nat) -> char
    recommends
        v < 16,
{
    if v < 10 {
        (v + '0' as nat) as char
    } else {
        (v - 10 + 'a' as nat) as char
    }
}

/// A well-formed id text: exactly 24 hexadecimal digits.
pub open spec fn is_object_id_text(s: Seq<char>) -> bool {
    &&& s.len() == 24
    &&& forall|i: int| 0 <= i < 24 ==> (#[trigger] hex_digit_value(s[i])) is Some
}

/// The byte that the digits `2 * i` and `2 * i + 1` of `s` spell.
pub open spec fn spelled_byte(s: Seq<char>, i: int) -> nat {
    16 * hex_digit_value(s[2 * i])->0 + hex_digit_value(s[2 * i + 1])->0
}

/// The twelve bytes that a well-formed id text spells.
pub open spec fn spelled_bytes(s: Seq<char>) -> Seq<nat> {
    Seq::new(12, |i: int| spelled_byte(s, i))
}

/// Big-endian value of the `n` bytes of `b` that start at `at`.
pub open spec fn big_endian(b: Seq<nat>, at: int, n: nat) -> nat
    decreases n,
{
    if n == 0 {
        0
    } else {
        256 * big_endian(b, at, (n - 1) as nat) + b[at + n - 1]
    }
}

/// The 24 lower-case digits that spell twelve bytes.
pub open spec fn hex_spelling(b: Seq<nat>) -> Seq<char> {
    Seq::new(24, |k: int| if k % 2 == 0 {
        lower_hex_digit(b[k / 2] / 16)
    } else {
        lower_hex_digit(b[k / 2] % 16)
    })
}

/// A document id of the content store. The first four of its twelve bytes
/// are `seconds`, the other eight are `tail`, both big-endian. Every pair of
/// values is an id, and two ids are the same document exactly when both
/// fields agree.
#[derive(Clone, Copy, Debug, PartialEq, Eq, Structural, PartialOrd, Ord, Hash)]
pub struct DocId {
    pub seconds: u32,
    pub tail: u64,
}

/// What `bson::oid::ObjectId::parse_str` followed by `ObjectId::bytes` gives:
/// the text is accepted exactly when it is 24 hexadecimal digits (either
/// case), and each byte is sixteen times the first digit of its pair plus the
/// second. Not proved: the parsing is the outside crate's.
#[verifier::external_body]
fn parse_object_id_bytes(text: &str) -> (r: Option<[u8; 12]>)
    ensures
        r is Some <==> is_object_id_text(text@),
        r matches Some(b) ==> forall|i: int|
            0 <= i < 12 ==> (#[trigger] b@[i]) as nat == spelled_byte(text@, i),
{
    match mongodb::bson::oid::ObjectId::parse_str(text) {
        Ok(id) => Some(id.bytes()),
        Err(_) => None,
    }
}

/// What `bson::oid::ObjectId::from_bytes` followed by `ObjectId::to_hex`
/// gives: 24 characters, two lower-case hexadecimal digits for each byte, the
/// high half first. Not proved: the encoding is the outside crate's.
#[verifier::external_body]
fn object_id_hex(bytes: [u8; 12]) -> (r: String)
    ensures
        r@ == hex_spelling(Seq::new(12, |i: int| bytes@[i] as nat)),
{
    mongodb::bson::oid::ObjectId::from_bytes(bytes).to_hex()
}

impl DocId {
    /// The twelve bytes of the id.
    pub open spec fn bytes(self) -> Seq<nat> {
        seq![
            (self.seconds as nat / 0x100_0000) % 256,
            (self.seconds as nat / 0x1_0000) % 256,
            (self.seconds as nat / 0x100) % 256,
            self.seconds as nat % 256,
            (self.tail as nat / 0x100_0000_0000_0000) % 256,
            (self.tail as nat / 0x1_0000_0000_0000) % 256,
            (self.tail as nat / 0x100_0000_0000) % 256,
            (self.tail as nat / 0x1_0000_0000) % 256,
            (self.tail as nat / 0x100_0000) % 256,
            (self.tail as nat / 0x1_0000) % 256,
            (self.tail as nat / 0x100) % 256,
            self.tail as nat % 256,
        ]
    }

    /// The id that twelve bytes hold.
    pub open spec fn of_bytes(b: Seq<nat>) -> DocId {
        DocId { seconds: big_endian(b, 0, 4) as u32, tail: big_endian(b, 4, 8) as u64 }
    }

    /// The id that a text spells, if it spells one.
    pub open spec fn spelled_by(s: Seq<char>) -> Option<DocId> {
        if is_object_id_text(s) {
            Some(DocId::of_bytes(spelled_bytes(s)))
        } else {
            None
        }
    }

    /// The canonical spelling of the id: 24 lower-case hexadecimal digits.
    pub open spec fn hex(self) -> Seq<char> {
        hex_spelling(self.bytes())
    }

    /// Reads an id from its hexadecimal spelling. `None` for any text that is
    /// not 24 hexadecimal digits.
    pub fn parse(text: &str) -> (r: Option<DocId>)
        ensures
            r == DocId::spelled_by(text@),
    {
        match parse_object_id_bytes(text) {
            None => None,
            Some(b) => {
                let ghost sb = spelled_bytes(text@);
                assert(forall|i: int| 0 <= i < 12 ==> sb[i] == b@[i] as nat);
                let s0: u32 = b[0] as u32;
                let s1: u32 = s0 * 256 + b[1] as u32;
                let s2: u32 = s1 * 256 + b[2] as u32;
                let s3: u32 = s2 * 256 + b[3] as u32;
                let t0: u64 = b[4] as u64;
                let t1: u64 = t0 * 256 + b[5] as u64;
                let t2: u64 = t1 * 256 + b[6] as u64;
                let t3: u64 = t2 * 256 + b[7] as u64;
                let t4: u64 = t3 * 256 + b[8] as u64;
                let t5: u64 = t4 * 256 + b[9] as u64;
                let t6: u64 = t5 * 256 + b[10] as u64;
                let t7: u64 = t6 * 256 + b[11] as u64;
                proof {
                    reveal_with_fuel(big_endian, 9);
                    assert(big_endian(sb, 0, 4) == s3);
                    assert(big_endian(sb, 4, 8) == t7);
                }
                Some(DocId { seconds: s3, tail: t7 })
            },
        }
    }

    /// The canonical spelling of the id.
    pub fn to_hex(&self) -> (r: String)
        ensures
            r@ == self.hex(),
    {
        let s: u32 = self.seconds;
        let t: u64 = self.tail;
        let bytes: [u8; 12] = [
            ((s / 0x100_0000) % 256) as u8,
            ((s / 0x1_0000) % 256) as u8,
            ((s / 0x100) % 256) as u8,
            (s % 256) as u8,
            ((t / 0x100_0000_0000_0000) % 256) as u8,
            ((t / 0x1_0000_0000_0000) % 256) as u8,
            ((t / 0x100_0000_0000) % 256) as u8,
            ((t / 0x1_0000_0000) % 256) as u8,
            ((t / 0x100_0000) % 256) as u8,
            ((t / 0x1_0000) % 256) as u8,
            ((t / 0x100) % 256) as u8,
            (t % 256) as u8,
        ];
        assert(Seq::new(12, |i: int| bytes@[i] as nat) =~= self.bytes());
        object_id_hex(bytes)
    }
}

/// A lower-case digit reads back as the value it was written for.
proof fn lemma_digit_round_trip(v: nat)
    requires
        v < 16,
    ensures
        hex_digit_value(lower_hex_digit(v)) == Some(v),
{
}

/// Reading the canonical spelling of an id gives the id back: no two ids
/// share a spelling.
pub proof fn lemma_hex_round_trip(id: DocId)
    ensures
        is_object_id_text(id.hex()),
        DocId::spelled_by(id.hex()) == Some(id),
{
    let b = id.bytes();
    let s = id.hex();
    assert forall|k: int| 0 <= k < 24 implies (#[trigger] hex_digit_value(s[k])) is Some by {
        if k % 2 == 0 {
            lemma_digit_round_trip(b[k / 2] / 16);
        } else {
            lemma_digit_round_trip(b[k / 2] % 16);
        }
    }
    assert forall|i: int| 0 <= i < 12 implies spelled_byte(s, i) == b[i] by {
        lemma_digit_round_trip(b[i] / 16);
        lemma_digit_round_trip(b[i] % 16);
        assert(s[2 * i] == lower_hex_digit(b[(2 * i) / 2] / 16));
        assert(s[2 * i + 1] == lower_hex_digit(b[(2 * i + 1) / 2] % 16));
    }
    assert(spelled_bytes(s) =~= b);
    lemma_bytes_hold_the_fields(id);
}

/// Dividing twice, by `256` and then by `d`, is dividing by `256 * d`.
proof fn lemma_shift_one_byte(v: nat, d: nat)
    requires
        d > 0,
    ensures
        (v / 256) / d == v / (256 * d),
        v / d == 256 * (v / (256 * d)) + (v / d) % 256,
{
    assert((v / 256) / d == v / (256 * d) && v / d == 256 * (v / (256 * d)) + (v / d) % 256)
        by (nonlinear_arith)
        requires
            d > 0,
    ;
}

/// The big-endian values of the two halves of an id's bytes are its fields.
proof fn lemma_bytes_hold_the_fields(id: DocId)
    ensures
        DocId::of_bytes(id.bytes()) == id,
{
    let b = id.bytes();
    let s = id.seconds as nat;
    let t = id.tail as nat;
    reveal_with_fuel(big_endian, 2);
    lemma_shift_one_byte(s, 1);
    lemma_shift_one_byte(s, 0x100);
    lemma_shift_one_byte(s, 0x1_0000);
    assert(s / 0x100_0000 < 256);
    assert(big_endian(b, 0, 1) == s / 0x100_0000);
    assert(big_endian(b, 0, 2) == s / 0x1_0000);
    assert(big_endian(b, 0, 3) == s / 0x100);
    assert(big_endian(b, 0, 4) == s);
    lemma_shift_one_byte(t, 1);
    lemma_shift_one_byte(t, 0x100);
    lemma_shift_one_byte(t, 0x1_0000);
    lemma_shift_one_byte(t, 0x100_0000);
    lemma_shift_one_byte(t, 0x1_0000_0000);
    lemma_shift_one_byte(t, 0x100_0000_0000);
    lemma_shift_one_byte(t, 0x1_0000_0000_0000);
    assert(t / 0x100_0000_0000_0000 < 256);
    assert(big_endian(b, 4, 1) == t / 0x100_0000_0000_0000);
    assert(big_endian(b, 4, 2) == t / 0x1_0000_0000_0000);
    assert(big_endian(b, 4, 3) == t / 0x100_0000_0000);
    assert(big_endian(b, 4, 4) == t / 0x1_0000_0000);
    assert(big_endian(b, 4, 5) == t / 0x100_0000);
    assert(big_endian(b, 4, 6) == t / 0x1_0000);
    assert(big_endian(b, 4, 7) == t / 0x100);
    assert(big_endian(b, 4, 8) == t);
}

} // verus!
