use vstd::prelude::*;
use vstd::string::*;

verus! {

/// The character that stands for a value below ten.
pub open spec fn digit_char(d: int) -> char {
    if d == 0 {
        '0'
    } else if d == 1 {
        '1'
    } else if d == 2 {
        '2'
    } else if d == 3 {
        '3'
    } else if d == 4 {
        '4'
    } else if d == 5 {
        '5'
    } else if d == 6 {
        '6'
    } else if d == 7 {
        '7'
    } else if d == 8 {
        '8'
    } else {
        '9'
    }
}

/// The lower-case character that stands for a value below sixteen.
pub open spec fn hex_char(d: int) -> char {
    if d < 10 {
        digit_char(d)
    } else if d == 10 {
        'a'
    } else if d == 11 {
        'b'
    } else if d == 12 {
        'c'
    } else if d == 13 {
        'd'
    } else if d == 14 {
        'e'
    } else {
        'f'
    }
}

/// The decimal numeral of `n`: no sign, no leading zero, "0" for zero.
pub open spec fn decimal_text(n: nat) -> Seq<char>
    decreases n,
{
    if n < 10 {
        seq![digit_char(n as int)]
    } else {
        decimal_text(n / 10).push(digit_char((n % 10) as int))
    }
}

/// The lower-case hexadecimal text of `bytes`: two characters for each byte,
/// the high half first.
pub open spec fn hex_text(bytes: Seq<u8>) -> Seq<char> {
    Seq::new(
        2 * bytes.len(),
        |i: int|
            if i % 2 == 0 {
                hex_char(bytes[i / 2] as int / 16)
            } else {
                hex_char(bytes[i / 2] as int % 16)
            },
    )
}

fn digit_str(d: u8) -> (r: &'static str)
    requires
        d < 10,
    ensures
        r@ == seq![digit_char(d as int)],
{
    proof {
        reveal_strlit("0");
        reveal_strlit("1");
        reveal_strlit("2");
        reveal_strlit("3");
        reveal_strlit("4");
        reveal_strlit("5");
        reveal_strlit("6");
        reveal_strlit("7");
        reveal_strlit("8");
        reveal_strlit("9");
    }
    let r = if d == 0 {
        "0"
    } else if d == 1 {
        "1"
    } else if d == 2 {
        "2"
    } else if d == 3 {
        "3"
    } else if d == 4 {
        "4"
    } else if d == 5 {
        "5"
    } else if d == 6 {
        "6"
    } else if d == 7 {
        "7"
    } else if d == 8 {
        "8"
    } else {
        "9"
    };
    assert(r@ =~= seq![digit_char(d as int)]);
    r
}

/// Appends the decimal numeral of `n` to `out`.
pub fn push_decimal(out: &mut String, n: u128)
    ensures
        final(out)@ == old(out)@ + decimal_text(n as nat),
    decreases n,
{
    if n >= 10 {
        push_decimal(out, n / 10);
    }
    let d: u8 = (n % 10) as u8;
    out.append(digit_str(d));
    assert(out@ =~= old(out)@ + decimal_text(n as nat));
}

/// Calls `hex::encode`, which writes each byte as two lower-case hexadecimal
/// characters, the high half first.
#[verifier::external_body]
fn hex_encode(bytes: &[u8; 32]) -> (text: String)
    ensures
        text@ == hex_text(bytes@),
{
    hex::encode(bytes)
}

/// Appends the lower-case hexadecimal text of `bytes` to `out`.
pub fn push_hex(out: &mut String, bytes: &[u8; 32])
    ensures
        final(out)@ == old(out)@ + hex_text(bytes@),
{
    let text = hex_encode(bytes);
    out.append(text.as_str());
}

proof fn lemma_digit_char_is_injective(a: int, b: int)
    requires
        0 <= a < 10,
        0 <= b < 10,
        digit_char(a) == digit_char(b),
    ensures
        a == b,
{
}

proof fn lemma_hex_char_is_injective(a: int, b: int)
    requires
        0 <= a < 16,
        0 <= b < 16,
        hex_char(a) == hex_char(b),
    ensures
        a == b,
{
}

/// A decimal numeral has at least one character, at least two from ten on,
/// and no underscore.
pub proof fn decimal_text_has_digits_only(n: nat)
    ensures
        decimal_text(n).len() >= 1,
        n < 10 ==> decimal_text(n).len() == 1,
        n >= 10 ==> decimal_text(n).len() >= 2,
        forall|i: int| 0 <= i < decimal_text(n).len() ==> decimal_text(n)[i] != '_',
    decreases n,
{
    if n >= 10 {
        decimal_text_has_digits_only(n / 10);
    }
}

/// Two numbers with the same decimal numeral are the same number.
pub proof fn decimal_text_is_injective(a: nat, b: nat)
    requires
        decimal_text(a) == decimal_text(b),
    ensures
        a == b,
    decreases a,
{
    decimal_text_has_digits_only(a);
    decimal_text_has_digits_only(b);
    if a < 10 && b < 10 {
        assert(decimal_text(a)[0] == digit_char(a as int));
        assert(decimal_text(b)[0] == digit_char(b as int));
        lemma_digit_char_is_injective(a as int, b as int);
    } else if a >= 10 && b >= 10 {
        let x = decimal_text(a / 10);
        let y = decimal_text(b / 10);
        let da = digit_char((a % 10) as int);
        let db = digit_char((b % 10) as int);
        assert(decimal_text(a) == x.push(da));
        assert(decimal_text(b) == y.push(db));
        assert(x.push(da).last() == da);
        assert(y.push(db).last() == db);
        assert(x.push(da).drop_last() =~= x);
        assert(y.push(db).drop_last() =~= y);
        lemma_digit_char_is_injective((a % 10) as int, (b % 10) as int);
        decimal_text_is_injective(a / 10, b / 10);
    }
}

/// Two byte strings with the same hexadecimal text are the same string.
pub proof fn hex_text_is_injective(a: Seq<u8>, b: Seq<u8>)
    requires
        hex_text(a) == hex_text(b),
    ensures
        a == b,
{
    assert(hex_text(a).len() == 2 * a.len());
    assert(hex_text(b).len() == 2 * b.len());
    assert forall|i: int| 0 <= i < a.len() implies a[i] == b[i] by {
        let even = 2 * i;
        let odd = 2 * i + 1;
        assert(even % 2 == 0 && even / 2 == i);
        assert(odd % 2 == 1 && odd / 2 == i);
        assert(hex_text(a)[even] == hex_char(a[i] as int / 16));
        assert(hex_text(b)[even] == hex_char(b[i] as int / 16));
        assert(hex_text(a)[odd] == hex_char(a[i] as int % 16));
        assert(hex_text(b)[odd] == hex_char(b[i] as int % 16));
        lemma_hex_char_is_injective(a[i] as int / 16, b[i] as int / 16);
        lemma_hex_char_is_injective(a[i] as int % 16, b[i] as int % 16);
    }
    assert(a =~= b);
}

} // verus!
