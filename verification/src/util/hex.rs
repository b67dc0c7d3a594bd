//! Bytes as text: two capital hexadecimal digits to a byte, a space between
//! bytes.

use vstd::prelude::*;

verus! {

/// The sixteen hexadecimal digits.
pub open spec fn digits() -> Seq<char> {
    seq!['0', '1', '2', '3', '4', '5', '6', '7', '8', '9', 'A', 'B', 'C', 'D', 'E', 'F']
}

/// The two digits of a byte, the high one first.
pub open spec fn byte_text(byte: u8) -> Seq<char> {
    seq![digits()[(byte / 16) as int], digits()[(byte % 16) as int]]
}

/// The text of a byte sequence.
pub open spec fn text_of(bytes: Seq<u8>) -> Seq<char>
    decreases bytes.len(),
{
    if bytes.len() == 0 {
        Seq::empty()
    } else if bytes.len() == 1 {
        byte_text(bytes[0])
    } else {
        text_of(bytes.drop_last()) + seq![' '] + byte_text(bytes.last())
    }
}

fn digit(value: u8) -> (text: &'static str)
    requires
        value < 16,
    ensures
        text@ == seq![digits()[value as int]],
{
    proof {
        reveal_strlit("0");
        reveal_strlit("1");
        reveal_strlit("2");
        reveal_strlit("3");
        reveal_strlit("4");
        reveal_strlit("5");
        reveal_strlit("6");
        reveal_strlit("7");
        reveal_strlit("8");
        reveal_strlit("9");
        reveal_strlit("A");
        reveal_strlit("B");
        reveal_strlit("C");
        reveal_strlit("D");
        reveal_strlit("E");
        reveal_strlit("F");
    }
    let text = match value {
        0 => "0",
        1 => "1",
        2 => "2",
        3 => "3",
        4 => "4",
        5 => "5",
        6 => "6",
        7 => "7",
        8 => "8",
        9 => "9",
        10 => "A",
        11 => "B",
        12 => "C",
        13 => "D",
        14 => "E",
        _ => "F",
    };
    assert(text@ =~= seq![digits()[value as int]]);
    text
}

/// Writes `bytes` out as text.
pub fn to_text(bytes: &[u8]) -> (text: String)
    ensures
        text@ == text_of(bytes@),
{
    let mut text = String::new();
    let mut at: usize = 0;
    while at < bytes.len()
        invariant
            at <= bytes.len(),
            text@ == text_of(bytes@.take(at as int)),
        decreases bytes.len() - at,
    {
        let byte: u8 = bytes[at];
        let ghost before = text@;
        if at > 0 {
            text.append(" ");
        }
        text.append(digit(byte / 16));
        text.append(digit(byte % 16));
        proof {
            reveal_strlit(" ");
            let taken = bytes@.take(at + 1);
            assert(taken.drop_last() =~= bytes@.take(at as int));
            assert(taken.last() == byte);
            if at == 0 {
                assert(before =~= Seq::<char>::empty());
                assert(text@ =~= byte_text(byte));
            } else {
                assert(text@ =~= before + seq![' '] + byte_text(byte));
            }
        }
        at = at + 1;
    }
    proof {
        assert(bytes@.take(bytes.len() as int) =~= bytes@);
    }
    text
}

} // verus!
