use vstd::prelude::*;
use vstd::string::*;

verus! {

/// The twelve-byte identifier of a stored document.
#[derive(Clone, Copy, Debug)]
pub struct ObjectId {
    pub bytes: [u8; 12],
}

/// The lowercase hexadecimal digit of a value below sixteen.
pub open spec fn hex_digit(d: nat) -> char
    recommends
        d < 16,
{
    if d < 10 {
        crate::text::digit_char(d)
    } else if d == 10 {
        'a'
    } else if d == 11 {
        'b'
    } else if d == 12 {
        'c'
    } else if d == 13 {
        'd'
    } else if d == 14 {
        'e'
    } else {
        'f'
    }
}

/// Two lowercase hexadecimal digits per byte, the high half of each byte first.
pub open spec fn hex(bytes: Seq<u8>) -> Seq<char>
    decreases bytes.len(),
{
    if bytes.len() == 0 {
        Seq::empty()
    } else {
        let b = bytes.last();
        hex(bytes.drop_last()) + seq![hex_digit((b / 16) as nat), hex_digit((b % 16) as nat)]
    }
}

/// Each byte gives two hexadecimal digits.
pub proof fn lemma_hex_len(bytes: Seq<u8>)
    ensures
        hex(bytes).len() == 2 * bytes.len(),
    decreases bytes.len(),
{
    if bytes.len() > 0 {
        lemma_hex_len(bytes.drop_last());
    }
}

fn hex_digit_str(d: u8) -> (s: &'static str)
    requires
        d < 16,
    ensures
        s@ == seq![hex_digit(d as nat)],
{
    proof {
        reveal_strlit("0");
        reveal_strlit("1");
        reveal_strlit("2");
        reveal_strlit("3");
        reveal_strlit("4");
        reveal_strlit("5");
        reveal_strlit("6");
        reveal_strlit("7");
        reveal_strlit("8");
        reveal_strlit("9");
        reveal_strlit("a");
        reveal_strlit("b");
        reveal_strlit("c");
        reveal_strlit("d");
        reveal_strlit("e");
        reveal_strlit("f");
    }
    match d {
        0 => "0",
        1 => "1",
        2 => "2",
        3 => "3",
        4 => "4",
        5 => "5",
        6 => "6",
        7 => "7",
        8 => "8",
        9 => "9",
        10 => "a",
        11 => "b",
        12 => "c",
        13 => "d",
        14 => "e",
        _ => "f",
    }
}

impl ObjectId {
    /// A fresh identifier from `bson::oid::ObjectId::new`, which combines the
    /// clock, a random per-process value and a counter: nothing is stated of
    /// its bytes.
    #[verifier::external_body]
    pub(crate) fn generate() -> (r: ObjectId) {
        ObjectId { bytes: bson::oid::ObjectId::new().bytes() }
    }

    /// The identifier made of these twelve bytes.
    pub fn from_bytes(bytes: [u8; 12]) -> (r: ObjectId)
        ensures
            r.bytes == bytes,
    {
        ObjectId { bytes }
    }

    /// The identifier's hexadecimal form, twenty-four lowercase digits.
    pub fn to_hex(&self) -> (r: String)
        ensures
            r@ == hex(self.bytes@),
            r@.len() == 24,
    {
        let mut r = String::new();
        let mut i: usize = 0;
        while i < 12
            invariant
                i <= 12,
                self.bytes@.len() == 12,
                r@ == hex(self.bytes@.subrange(0, i as int)),
            decreases 12 - i,
        {
            let b = self.bytes[i];
            r.append(hex_digit_str(b / 16));
            r.append(hex_digit_str(b % 16));
            proof {
                let s = self.bytes@.subrange(0, i + 1);
                assert(s.drop_last() =~= self.bytes@.subrange(0, i as int));
                assert(s.last() == b);
            }
            i = i + 1;
        }
        assert(self.bytes@.subrange(0, 12) =~= self.bytes@);
        proof {
            lemma_hex_len(self.bytes@);
        }
        r
    }
}

impl PartialEq for ObjectId {
    fn eq(&self, other: &Self) -> (r: bool) {
        let mut i: usize = 0;
        while i < 12
            invariant
                i <= 12,
                self.bytes@.len() == 12,
                other.bytes@.len() == 12,
                forall|j: int| 0 <= j < i ==> self.bytes@[j] == other.bytes@[j],
            decreases 12 - i,
        {
            if self.bytes[i] != other.bytes[i] {
                return false;
            }
            i = i + 1;
        }
        assert(self.bytes@ =~= other.bytes@);
        true
    }
}

impl Eq for ObjectId {
}

impl vstd::std_specs::cmp::PartialEqSpecImpl for ObjectId {
    open spec fn obeys_eq_spec() -> bool {
        true
    }

    open spec fn eq_spec(&self, other: &Self) -> bool {
        self.bytes@ == other.bytes@
    }
}

} // verus!
