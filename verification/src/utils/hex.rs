use vstd::prelude::*;

verus! {

/// The code of the digit `0`; the digits up to `9` follow it.
pub const ZERO: u8 = 48;

/// The code of the letter `a`, less the ten that it stands for; the letters
/// up to `f` follow it.
pub const LETTERS: u8 = 87;

/// The lower-case hexadecimal digit of a value below sixteen.
pub open spec fn hex_digit(nibble: u8) -> char {
    if nibble < 10 {
        (ZERO + nibble) as char
    } else {
        (LETTERS + nibble) as char
    }
}

/// The value of a lower-case hexadecimal digit.
pub open spec fn hex_value(digit: char) -> Option<u8> {
    if '0' <= digit <= '9' {
        Some((digit as u8 - ZERO) as u8)
    } else if 'a' <= digit <= 'f' {
        Some((digit as u8 - LETTERS) as u8)
    } else {
        None
    }
}

/// Bytes as text: two digits for each byte, the high half first.
pub open spec fn hex_text(bytes: Seq<u8>) -> Seq<char> {
    Seq::new(
        2 * bytes.len(),
        |i: int|
            if i % 2 == 0 {
                hex_digit(bytes[i / 2] / 16)
            } else {
                hex_digit(bytes[i / 2] % 16)
            },
    )
}

/// A text of an even number of hexadecimal digits.
pub open spec fn is_hex_text(text: Seq<char>) -> bool {
    &&& text.len() % 2 == 0
    &&& forall|i: int| 0 <= i < text.len() ==> hex_value(#[trigger] text[i]) is Some
}

/// The bytes that a text of hexadecimal digits stands for.
pub open spec fn hex_bytes(text: Seq<char>) -> Option<Seq<u8>> {
    if is_hex_text(text) {
        Some(
            Seq::new(
                (text.len() / 2) as nat,
                |i: int|
                    (hex_value(text[2 * i]).unwrap() * 16 + hex_value(
                        text[2 * i + 1],
                    ).unwrap()) as u8,
            ),
        )
    } else {
        None
    }
}

/// A digit and its value are each other's inverse.
pub proof fn lemma_hex_digit_value(nibble: u8)
    requires
        nibble < 16,
    ensures
        hex_value(hex_digit(nibble)) == Some(nibble),
        hex_digit(nibble) != '.',
{
}

/// Decoding undoes encoding, and an encoded text holds digits only.
pub proof fn lemma_hex_round_trip(bytes: Seq<u8>)
    ensures
        is_hex_text(hex_text(bytes)),
        hex_bytes(hex_text(bytes)) == Some(bytes),
        !hex_text(bytes).contains('.'),
{
    let text = hex_text(bytes);
    assert forall|i: int| 0 <= i < text.len() implies hex_value(#[trigger] text[i]) is Some
        && text[i] != '.' by {
        lemma_hex_digit_value(bytes[i / 2] / 16);
        lemma_hex_digit_value(bytes[i / 2] % 16);
    }
    let decoded = hex_bytes(text).unwrap();
    assert forall|i: int| 0 <= i < bytes.len() implies decoded[i] == bytes[i] by {
        lemma_hex_digit_value(bytes[i] / 16);
        lemma_hex_digit_value(bytes[i] % 16);
        assert(text[2 * i] == hex_digit(bytes[i] / 16));
        assert(text[2 * i + 1] == hex_digit(bytes[i] % 16));
    }
    assert(decoded =~= bytes);
}

/// Encoding undoes decoding: a text of digits is the one way to write the
/// bytes it stands for.
pub proof fn lemma_hex_text_of_bytes(text: Seq<char>)
    requires
        is_hex_text(text),
    ensures
        hex_text(hex_bytes(text).unwrap()) == text,
{
    let bytes = hex_bytes(text).unwrap();
    let again = hex_text(bytes);
    assert forall|i: int| 0 <= i < text.len() implies again[i] == text[i] by {
        let k = i / 2;
        let high = hex_value(text[2 * k]).unwrap();
        let low = hex_value(text[2 * k + 1]).unwrap();
        assert(hex_value(text[2 * k]) is Some);
        assert(hex_value(text[2 * k + 1]) is Some);
        assert(bytes[k] == high * 16 + low);
        assert(hex_digit(high) == text[2 * k]);
        assert(hex_digit(low) == text[2 * k + 1]);
    }
    assert(again =~= text);
}

/// The digit of a value below sixteen, as a text of its own.
fn digit_of(nibble: u8) -> (digit: &'static str)
    requires
        nibble < 16,
    ensures
        digit@ == seq![hex_digit(nibble)],
{
    let digit = match nibble {
        0 => {
            proof {
                reveal_strlit("0");
            }
            "0"
        },
        1 => {
            proof {
                reveal_strlit("1");
            }
            "1"
        },
        2 => {
            proof {
                reveal_strlit("2");
            }
            "2"
        },
        3 => {
            proof {
                reveal_strlit("3");
            }
            "3"
        },
        4 => {
            proof {
                reveal_strlit("4");
            }
            "4"
        },
        5 => {
            proof {
                reveal_strlit("5");
            }
            "5"
        },
        6 => {
            proof {
                reveal_strlit("6");
            }
            "6"
        },
        7 => {
            proof {
                reveal_strlit("7");
            }
            "7"
        },
        8 => {
            proof {
                reveal_strlit("8");
            }
            "8"
        },
        9 => {
            proof {
                reveal_strlit("9");
            }
            "9"
        },
        10 => {
            proof {
                reveal_strlit("a");
            }
            "a"
        },
        11 => {
            proof {
                reveal_strlit("b");
            }
            "b"
        },
        12 => {
            proof {
                reveal_strlit("c");
            }
            "c"
        },
        13 => {
            proof {
                reveal_strlit("d");
            }
            "d"
        },
        14 => {
            proof {
                reveal_strlit("e");
            }
            "e"
        },
        _ => {
            proof {
                reveal_strlit("f");
            }
            "f"
        },
    };
    assert(digit@ =~= seq![hex_digit(nibble)]);
    digit
}

fn value_of(digit: char) -> (v: Option<u8>)
    ensures
        v == hex_value(digit),
{
    if '0' <= digit && digit <= '9' {
        Some((digit as u8) - ZERO)
    } else if 'a' <= digit && digit <= 'f' {
        Some((digit as u8) - LETTERS)
    } else {
        None
    }
}

/// Writes bytes as hexadecimal text.
pub fn encode(bytes: &[u8]) -> (text: String)
    ensures
        text@ == hex_text(bytes@),
{
    let mut text = String::new();
    let mut i: usize = 0;
    while i < bytes.len()
        invariant
            i <= bytes.len(),
            text@ == hex_text(bytes@.take(i as int)),
        decreases bytes.len() - i,
    {
        let byte = bytes[i];
        text.append(digit_of(byte / 16));
        text.append(digit_of(byte % 16));
        i = i + 1;
        assert(text@ =~= hex_text(bytes@.take(i as int)));
    }
    assert(bytes@.take(i as int) =~= bytes@);
    text
}

/// Reads hexadecimal text back into bytes; `None` for any other text.
pub fn decode(text: &str) -> (bytes: Option<Vec<u8>>)
    ensures
        match bytes {
            Some(bytes) => hex_bytes(text@) == Some(bytes@),
            None => hex_bytes(text@) is None,
        },
{
    let mut bytes: Vec<u8> = Vec::new();
    let mut high: Option<u8> = None;
    for c in it: text.chars()
        invariant
            it.seq() == text@,
            forall|i: int| 0 <= i < it.index() ==> hex_value(#[trigger] text@[i]) is Some,
            bytes@.len() == it.index() / 2,
            forall|i: int|
                0 <= i < bytes@.len() ==> #[trigger] bytes@[i] == (hex_value(
                    text@[2 * i],
                ).unwrap() * 16 + hex_value(text@[2 * i + 1]).unwrap()) as u8,
            match high {
                Some(value) => it.index() % 2 == 1 && hex_value(text@[it.index() - 1]) == Some(
                    value,
                ),
                None => it.index() % 2 == 0,
            },
    {
        let value = match value_of(c) {
            Some(value) => value,
            None => {
                assert(hex_value(text@[it.index() as int]) is None);
                return None;
            },
        };
        match high {
            Some(first) => {
                bytes.push(first * 16 + value);
                high = None;
            },
            None => {
                high = Some(value);
            },
        }
    }
    if high.is_some() {
        return None;
    }
    assert(bytes@ =~= hex_bytes(text@).unwrap());
    Some(bytes)
}

} // verus!
