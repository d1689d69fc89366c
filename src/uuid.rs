use vstd::prelude::*;

verus! {

/// The lowercase hexadecimal digits, by value.
pub open spec fn hex_digits() -> Seq<char> {
    seq!['0', '1', '2', '3', '4', '5', '6', '7', '8', '9', 'a', 'b', 'c', 'd', 'e', 'f']
}

/// Two lowercase hexadecimal digits for a byte, high half first.
pub open spec fn byte_hex(b: u8) -> Seq<char> {
    seq![hex_digits()[(b / 16) as int], hex_digits()[(b % 16) as int]]
}

/// Two lowercase hexadecimal digits for each byte, in order.
pub open spec fn hex_text(bytes: Seq<u8>) -> Seq<char>
    decreases bytes.len(),
{
    if bytes.len() == 0 {
        Seq::empty()
    } else {
        hex_text(bytes.drop_last()) + byte_hex(bytes.last())
    }
}

/// The canonical form of an identifier: its bytes in hexadecimal, in groups of 4, 2, 2,
/// 2 and 6 bytes joined by hyphens.
pub open spec fn hyphenated_text(b: Seq<u8>) -> Seq<char> {
    hex_text(b.subrange(0, 4)) + seq!['-'] + hex_text(b.subrange(4, 6)) + seq!['-'] + hex_text(
        b.subrange(6, 8),
    ) + seq!['-'] + hex_text(b.subrange(8, 10)) + seq!['-'] + hex_text(b.subrange(10, 16))
}

/// A 128-bit identifier that correlates telemetry items.
#[derive(Clone, Copy, Debug, PartialEq, Eq)]
pub struct Uuid {
    bytes: [u8; 16],
}

impl View for Uuid {
    type V = Seq<u8>;

    closed spec fn view(&self) -> Seq<u8> {
        self.bytes@
    }
}

/// Appends the hexadecimal digits of `bytes[from..to]`.
fn push_hex(s: &mut String, bytes: &[u8; 16], from: usize, to: usize)
    requires
        from <= to <= 16,
    ensures
        final(s)@ == old(s)@ + hex_text(bytes@.subrange(from as int, to as int)),
{
    let digits = "0123456789abcdef";
    proof {
        reveal_strlit("0123456789abcdef");
        assert(digits@ =~= hex_digits());
    }
    let ghost start = s@;
    let mut i: usize = from;
    assert(bytes@.subrange(from as int, from as int) =~= Seq::<u8>::empty());
    while i < to
        invariant
            from <= i <= to <= 16,
            digits@ == hex_digits(),
            s@ == start + hex_text(bytes@.subrange(from as int, i as int)),
        decreases to - i,
    {
        let b = bytes[i];
        let high = digits.substring_char((b / 16) as usize, (b / 16) as usize + 1);
        let low = digits.substring_char((b % 16) as usize, (b % 16) as usize + 1);
        s.append(high);
        s.append(low);
        proof {
            let next = bytes@.subrange(from as int, i + 1);
            assert(next.drop_last() =~= bytes@.subrange(from as int, i as int));
            assert(next.last() == b);
            assert(high@ =~= seq![hex_digits()[(b / 16) as int]]);
            assert(low@ =~= seq![hex_digits()[(b % 16) as int]]);
            assert(s@ =~= start + hex_text(next));
        }
        i = i + 1;
    }
}

impl Uuid {
    /// The identifier with the given bytes.
    pub fn from_bytes(bytes: [u8; 16]) -> (r: Uuid)
        ensures
            r@ == bytes@,
    {
        Uuid { bytes }
    }

    /// The bytes of the identifier.
    pub fn as_bytes(&self) -> (r: [u8; 16])
        ensures
            r@ == self@,
    {
        self.bytes
    }

    /// The canonical lowercase, hyphenated text of the identifier
    /// (`67e55044-10b1-426f-9247-bb680e5fe0c8`).
    pub fn to_hyphenated(&self) -> (r: String)
        ensures
            r@ == hyphenated_text(self@),
    {
        let hyphen = "-";
        proof {
            reveal_strlit("-");
        }
        let mut s = String::new();
        push_hex(&mut s, &self.bytes, 0, 4);
        s.append(hyphen);
        push_hex(&mut s, &self.bytes, 4, 6);
        s.append(hyphen);
        push_hex(&mut s, &self.bytes, 6, 8);
        s.append(hyphen);
        push_hex(&mut s, &self.bytes, 8, 10);
        s.append(hyphen);
        push_hex(&mut s, &self.bytes, 10, 16);
        assert(s@ =~= hyphenated_text(self@));
        s
    }
}

} // verus!
