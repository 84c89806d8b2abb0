use vstd::prelude::*;

verus! {

/// Appends a character to a string.
///
/// Calls `String::push`, which its documentation says appends the character
/// to the end of the string.
#[verifier::external_body]
pub(crate) fn string_push(s: &mut String, c: char)
    ensures
        final(s)@ == old(s)@.push(c),
{
    s.push(c);
}

/// The text that `String::from_utf8_lossy` makes of a byte sequence.
pub uninterp spec fn utf8_lossy_text(bytes: Seq<u8>) -> Seq<char>;

/// Decodes bytes as UTF-8, with U+FFFD in place of each invalid sequence.
///
/// Calls `String::from_utf8_lossy`. The result is named by `utf8_lossy_text`;
/// the one fact stated of it is the documented one, that valid UTF-8 is
/// decoded as it stands.
#[verifier::external_body]
pub(crate) fn utf8_lossy(bytes: &[u8]) -> (text: String)
    ensures
        text@ == utf8_lossy_text(bytes@),
        vstd::utf8::valid_utf8(bytes@) ==> text@ == vstd::utf8::decode_utf8(bytes@),
{
    String::from_utf8_lossy(bytes).into_owned()
}

/// The decimal digit character for a number below ten.
pub open spec fn digit_char(d: nat) -> char {
    if d == 0 {
        '0'
    } else if d == 1 {
        '1'
    } else if d == 2 {
        '2'
    } else if d == 3 {
        '3'
    } else if d == 4 {
        '4'
    } else if d == 5 {
        '5'
    } else if d == 6 {
        '6'
    } else if d == 7 {
        '7'
    } else if d == 8 {
        '8'
    } else {
        '9'
    }
}

/// The decimal notation of a natural number, without leading zeros.
pub open spec fn decimal(n: nat) -> Seq<char>
    decreases n,
{
    if n < 10 {
        seq![digit_char(n)]
    } else {
        decimal(n / 10).push(digit_char(n % 10))
    }
}

fn digit(d: u128) -> (c: char)
    requires
        d < 10,
    ensures
        c == digit_char(d as nat),
{
    if d == 0 {
        '0'
    } else if d == 1 {
        '1'
    } else if d == 2 {
        '2'
    } else if d == 3 {
        '3'
    } else if d == 4 {
        '4'
    } else if d == 5 {
        '5'
    } else if d == 6 {
        '6'
    } else if d == 7 {
        '7'
    } else if d == 8 {
        '8'
    } else {
        '9'
    }
}

/// Appends the decimal notation of `n`.
pub fn push_decimal(s: &mut String, n: u128)
    ensures
        final(s)@ == old(s)@ + decimal(n as nat),
    decreases n,
{
    if n >= 10 {
        push_decimal(s, n / 10);
    }
    let d = digit(n % 10);
    string_push(s, d);
    proof {
        if n >= 10 {
            assert(decimal(n as nat) == decimal((n / 10) as nat).push(digit_char((n % 10) as nat)));
        }
    }
    assert(final(s)@ =~= old(s)@ + decimal(n as nat));
}

/// The text of a boolean, as Rust prints it.
pub open spec fn bool_text(b: bool) -> Seq<char> {
    if b {
        "true"@
    } else {
        "false"@
    }
}

pub fn push_bool(s: &mut String, b: bool)
    ensures
        final(s)@ == old(s)@ + bool_text(b),
{
    if b {
        s.append("true");
    } else {
        s.append("false");
    }
}

/// The bytes in decimal, separated by ", ".
pub open spec fn joined_bytes(bytes: Seq<u8>) -> Seq<char>
    decreases bytes.len(),
{
    if bytes.len() == 0 {
        Seq::empty()
    } else if bytes.len() == 1 {
        decimal(bytes[0] as nat)
    } else {
        joined_bytes(bytes.drop_last()) + ", "@ + decimal(bytes.last() as nat)
    }
}

/// A byte sequence as Rust's debug rendering of a byte vector prints it,
/// such as `[1, 2, 255]`.
pub open spec fn byte_list_text(bytes: Seq<u8>) -> Seq<char> {
    "["@ + joined_bytes(bytes) + "]"@
}

pub fn push_byte_list(s: &mut String, bytes: &[u8])
    ensures
        final(s)@ == old(s)@ + byte_list_text(bytes@),
{
    let ghost start = s@;
    s.append("[");
    let mut i: usize = 0;
    while i < bytes.len()
        invariant
            i <= bytes@.len(),
            s@ == start + "["@ + joined_bytes(bytes@.take(i as int)),
        decreases bytes@.len() - i,
    {
        let ghost before = s@;
        if i > 0 {
            s.append(", ");
        }
        push_decimal(s, bytes[i] as u128);
        proof {
            let taken = bytes@.take(i as int + 1);
            assert(taken.drop_last() =~= bytes@.take(i as int));
            assert(taken.last() == bytes@[i as int]);
            if i == 0 {
                assert(joined_bytes(bytes@.take(0)) =~= Seq::<char>::empty());
                assert(s@ =~= start + "["@ + joined_bytes(taken));
            } else {
                assert(s@ =~= start + "["@ + joined_bytes(taken));
            }
        }
        i = i + 1;
    }
    assert(bytes@.take(bytes@.len() as int) =~= bytes@);
    s.append("]");
    assert(s@ =~= start + byte_list_text(bytes@));
}

} // verus!
