//! Node identities.

use vstd::prelude::*;
use vstd::string::*;

use crate::keys::VerifyingKey;

verus! {

/// Identity of a SnapPipe node, as the text that trust stores, rate limiters
/// and tickets refer to it by: the node's public key in lower-case hexadecimal.
#[derive(Debug)]
pub struct NodeId(pub String);

impl View for NodeId {
    type V = Seq<char>;

    open spec fn view(&self) -> Seq<char> {
        self.0@
    }
}

impl Clone for NodeId {
    fn clone(&self) -> (copy: Self)
        ensures
            copy == *self,
    {
        NodeId(self.0.clone())
    }
}

impl PartialEq for NodeId {
    fn eq(&self, other: &Self) -> (same: bool) {
        self.0 == other.0
    }
}

impl Eq for NodeId {

}

impl vstd::std_specs::cmp::PartialEqSpecImpl for NodeId {
    open spec fn obeys_eq_spec() -> bool {
        true
    }

    open spec fn eq_spec(&self, other: &Self) -> bool {
        self@ == other@
    }
}

/// The hexadecimal digit of a number below sixteen.
pub open spec fn hex_digit(value: int) -> char {
    seq!['0', '1', '2', '3', '4', '5', '6', '7', '8', '9', 'a', 'b', 'c', 'd', 'e', 'f'][value]
}

/// Bytes in hexadecimal, two digits to the byte.
pub open spec fn hex_text(bytes: Seq<u8>) -> Seq<char>
    decreases bytes.len(),
{
    if bytes.len() == 0 {
        Seq::empty()
    } else {
        hex_text(bytes.drop_last()) + seq![
            hex_digit(bytes.last() as int / 16),
            hex_digit(bytes.last() as int % 16),
        ]
    }
}

/// The text of one hexadecimal digit.
fn hex_digit_text(value: u8) -> (text: &'static str)
    requires
        value < 16,
    ensures
        text@ == seq![hex_digit(value as int)],
{
    proof {
        reveal_strlit("0");
        reveal_strlit("1");
        reveal_strlit("2");
        reveal_strlit("3");
        reveal_strlit("4");
        reveal_strlit("5");
        reveal_strlit("6");
        reveal_strlit("7");
        reveal_strlit("8");
        reveal_strlit("9");
        reveal_strlit("a");
        reveal_strlit("b");
        reveal_strlit("c");
        reveal_strlit("d");
        reveal_strlit("e");
        reveal_strlit("f");
    }
    match value {
        0 => "0",
        1 => "1",
        2 => "2",
        3 => "3",
        4 => "4",
        5 => "5",
        6 => "6",
        7 => "7",
        8 => "8",
        9 => "9",
        10 => "a",
        11 => "b",
        12 => "c",
        13 => "d",
        14 => "e",
        _ => "f",
    }
}

impl NodeId {
    /// The identity of the node that holds the secret half of `key`.
    pub fn from_verifying_key(key: &VerifyingKey) -> (id: Self)
        ensures
            id@ == hex_text(key@),
    {
        let bytes = key.to_bytes();
        let mut text = String::new();
        let mut at: usize = 0;
        while at < 32
            invariant
                at <= 32,
                text@ == hex_text(bytes@.take(at as int)),
            decreases 32 - at,
        {
            text.append(hex_digit_text(bytes[at] / 16));
            text.append(hex_digit_text(bytes[at] % 16));
            assert(bytes@.take(at + 1).drop_last() =~= bytes@.take(at as int));
            assert(text@ =~= hex_text(bytes@.take(at + 1)));
            at = at + 1;
        }
        assert(bytes@.take(32) =~= bytes@);
        NodeId(text)
    }

    /// The identity as text.
    pub fn to_string(&self) -> (text: String)
        ensures
            text@ == self@,
    {
        self.0.clone()
    }
}

/// Law: an identity stands for one key: two keys share an identity only if
/// they are the same bytes.
pub proof fn law_identity_determines_key(a: Seq<u8>, b: Seq<u8>)
    ensures
        hex_text(a) == hex_text(b) <==> a == b,
    decreases a.len(),
{
    if hex_text(a) == hex_text(b) {
        lemma_hex_text_len(a);
        lemma_hex_text_len(b);
        if a.len() > 0 {
            let text = hex_text(a);
            assert(hex_text(a.drop_last()) =~= text.take(text.len() - 2));
            assert(hex_text(b.drop_last()) =~= text.take(text.len() - 2));
            assert(text[text.len() - 2] == hex_digit(a.last() as int / 16));
            assert(text[text.len() - 2] == hex_digit(b.last() as int / 16));
            assert(text[text.len() - 1] == hex_digit(a.last() as int % 16));
            assert(text[text.len() - 1] == hex_digit(b.last() as int % 16));
            law_identity_determines_key(a.drop_last(), b.drop_last());
            assert(a =~= a.drop_last().push(a.last()));
            assert(b =~= b.drop_last().push(b.last()));
        }
        assert(a =~= b);
    }
}

proof fn lemma_hex_text_len(bytes: Seq<u8>)
    ensures
        hex_text(bytes).len() == 2 * bytes.len(),
    decreases bytes.len(),
{
    if bytes.len() > 0 {
        lemma_hex_text_len(bytes.drop_last());
    }
}

/// The value of a lower-case hexadecimal digit, by its code point.
pub open spec fn digit_value(digit: char) -> int {
    if '0' <= digit && digit <= '9' {
        digit as int - '0' as int
    } else {
        digit as int - 'a' as int + 10
    }
}

/// Law: an identity reads back as its key. It has two characters to each byte
/// of the key, digits or lower-case letters up to `f`, the high half first; and
/// it is the text of the identity itself.
pub proof fn law_identity_spells_the_key(id: NodeId, key: Seq<u8>, at: int)
    requires
        id@ == hex_text(key),
        0 <= at < key.len(),
    ensures
        id.0@.len() == 2 * key.len(),
        ({
            let high = id.0@[2 * at];
            let low = id.0@[2 * at + 1];
            &&& ('0' <= high && high <= '9') || ('a' <= high && high <= 'f')
            &&& ('0' <= low && low <= '9') || ('a' <= low && low <= 'f')
            &&& digit_value(high) * 16 + digit_value(low) == key[at]
        }),
{
    lemma_spells_the_key(key, at);
}

proof fn lemma_spells_the_key(key: Seq<u8>, at: int)
    requires
        0 <= at < key.len(),
    ensures
        hex_text(key).len() == 2 * key.len(),
        hex_text(key)[2 * at] == hex_digit(key[at] as int / 16),
        hex_text(key)[2 * at + 1] == hex_digit(key[at] as int % 16),
        digit_value(hex_digit(key[at] as int / 16)) == key[at] as int / 16,
        digit_value(hex_digit(key[at] as int % 16)) == key[at] as int % 16,
        is_digit(hex_digit(key[at] as int / 16)),
        is_digit(hex_digit(key[at] as int % 16)),
    decreases key.len(),
{
    lemma_hex_text_len(key);
    lemma_hex_text_len(key.drop_last());
    lemma_digit_value(key[at] as int / 16);
    lemma_digit_value(key[at] as int % 16);
    if at < key.len() - 1 {
        lemma_spells_the_key(key.drop_last(), at);
        assert(key.drop_last()[at] == key[at]);
    }
}

spec fn is_digit(digit: char) -> bool {
    ('0' <= digit && digit <= '9') || ('a' <= digit && digit <= 'f')
}

proof fn lemma_digit_value(value: int)
    requires
        0 <= value < 16,
    ensures
        digit_value(hex_digit(value)) == value,
        is_digit(hex_digit(value)),
{
}

} // verus!
