//! Text shown beside the timer.
use vstd::prelude::*;
use vstd::string::StringSliceAdditionalSpecFns;
use vstd::utf8::encode_utf8;
use arrayvec::ArrayString;

verus! {

pub open spec fn digit_char(d: int) -> char {
    if d == 0 {
        '0'
    } else if d == 1 {
        '1'
    } else if d == 2 {
        '2'
    } else if d == 3 {
        '3'
    } else if d == 4 {
        '4'
    } else if d == 5 {
        '5'
    } else if d == 6 {
        '6'
    } else if d == 7 {
        '7'
    } else if d == 8 {
        '8'
    } else {
        '9'
    }
}

/// Decimal digits of `n`, without leading zeros.
pub open spec fn decimal(n: nat) -> Seq<char>
    decreases n,
{
    if n < 10 {
        seq![digit_char(n as int)]
    } else {
        decimal(n / 10).push(digit_char((n % 10) as int))
    }
}

/// The quarter-heart sign for a remainder of one, two or three quarters.
pub open spec fn quarter_text(q: int) -> Seq<char> {
    if q == 1 {
        seq!['\u{bc}']
    } else if q == 2 {
        seq!['\u{bd}']
    } else if q == 3 {
        seq!['\u{be}']
    } else {
        Seq::empty()
    }
}

/// Health in quarter hearts as text: whole hearts, then the quarter sign. A
/// lone fraction is shown without a leading zero.
pub open spec fn hearts_spec(quarters: u8) -> Seq<char> {
    (if 1 <= quarters <= 3 {
        Seq::empty()
    } else {
        decimal((quarters / 4) as nat)
    }) + quarter_text((quarters % 4) as int)
}

fn digit_str(d: u8) -> (r: &'static str)
    requires
        d < 10,
    ensures
        r@ == seq![digit_char(d as int)],
{
    proof {
        reveal_strlit("0");
        reveal_strlit("1");
        reveal_strlit("2");
        reveal_strlit("3");
        reveal_strlit("4");
        reveal_strlit("5");
        reveal_strlit("6");
        reveal_strlit("7");
        reveal_strlit("8");
        reveal_strlit("9");
    }
    if d == 0 {
        "0"
    } else if d == 1 {
        "1"
    } else if d == 2 {
        "2"
    } else if d == 3 {
        "3"
    } else if d == 4 {
        "4"
    } else if d == 5 {
        "5"
    } else if d == 6 {
        "6"
    } else if d == 7 {
        "7"
    } else if d == 8 {
        "8"
    } else {
        "9"
    }
}

/// Capacity of the hearts text, in bytes.
pub const HEARTS_TEXT_CAP: usize = 8;

#[verifier::external_type_specification]
#[verifier::external_body]
pub struct ExArrayString<const CAP: usize>(ArrayString<CAP>);

/// The characters held by a hearts-text buffer.
pub uninterp spec fn buffer_text(b: ArrayString<8>) -> Seq<char>;

/// Relies on `arrayvec::ArrayString::new`: an empty string.
#[verifier::external_body]
fn buffer_new() -> (r: ArrayString<8>)
    ensures
        buffer_text(r) == Seq::<char>::empty(),
{
    ArrayString::new()
}

/// Relies on `arrayvec::ArrayString::push_str`: appends `s`, and panics
/// where its bytes would not fit beside the UTF-8 bytes already held.
#[verifier::external_body]
fn buffer_push_str(b: &mut ArrayString<8>, s: &str)
    requires
        encode_utf8(buffer_text(*old(b))).len() + s.spec_bytes().len() <= HEARTS_TEXT_CAP,
    ensures
        buffer_text(*final(b)) == buffer_text(*old(b)) + s@,
{
    b.push_str(s)
}

proof fn encode_concat(a: Seq<char>, b: Seq<char>)
    ensures
        encode_utf8(a + b) == encode_utf8(a) + encode_utf8(b),
    decreases a.len(),
{
    if a.len() == 0 {
        assert(a + b =~= b);
    } else {
        assert((a + b).drop_first() =~= a.drop_first() + b);
        encode_concat(a.drop_first(), b);
        assert(encode_utf8(a + b) =~= encode_utf8(a) + encode_utf8(b));
    }
}

proof fn encode_digit(d: int)
    ensures
        encode_utf8(seq![digit_char(d)]).len() == 1,
{
    reveal_with_fuel(encode_utf8, 2);
    assert(seq![digit_char(d)].drop_first() =~= Seq::<char>::empty());
}

proof fn decimal_bytes(n: nat)
    requires
        n < 100,
    ensures
        encode_utf8(decimal(n)).len() == decimal(n).len(),
        decimal(n).len() == if n < 10 {
            1int
        } else {
            2int
        },
{
    if n < 10 {
        encode_digit(n as int);
    } else {
        encode_digit((n / 10) as int);
        encode_digit((n % 10) as int);
        assert(decimal(n / 10) == seq![digit_char((n / 10) as int)]);
        assert(decimal(n) =~= seq![digit_char((n / 10) as int)] + seq![digit_char((n % 10) as int)]);
        encode_concat(seq![digit_char((n / 10) as int)], seq![digit_char((n % 10) as int)]);
    }
}

/// Appends the decimal digits of `n`.
fn push_decimal(out: &mut ArrayString<8>, n: u8)
    requires
        n < 100,
        encode_utf8(buffer_text(*old(out))).len() + decimal(n as nat).len() <= HEARTS_TEXT_CAP,
    ensures
        buffer_text(*final(out)) == buffer_text(*old(out)) + decimal(n as nat),
    decreases n,
{
    proof {
        decimal_bytes(n as nat);
    }
    if n >= 10 {
        proof {
            decimal_bytes((n / 10) as nat);
        }
        push_decimal(out, n / 10);
        proof {
            encode_concat(buffer_text(*old(out)), decimal((n / 10) as nat));
        }
    }
    let digit = digit_str(n % 10);
    proof {
        encode_digit((n % 10) as int);
    }
    buffer_push_str(out, digit);
    assert(buffer_text(*out) =~= buffer_text(*old(out)) + decimal(n as nat));
}

/// The hearts display for a health of `quarters` quarter hearts.
pub fn hearts_text(quarters: u8) -> (r: ArrayString<8>)
    ensures
        buffer_text(r) == hearts_spec(quarters),
{
    let mut text = buffer_new();
    proof {
        decimal_bytes((quarters / 4) as nat);
        reveal_with_fuel(encode_utf8, 2);
    }
    if !(1 <= quarters && quarters <= 3) {
        push_decimal(&mut text, quarters / 4);
    }
    let ghost digits = buffer_text(text);
    proof {
        reveal_strlit("\u{bc}");
        reveal_strlit("\u{bd}");
        reveal_strlit("\u{be}");
        assert(seq!['\u{bc}'].drop_first() =~= Seq::<char>::empty());
        assert(seq!['\u{bd}'].drop_first() =~= Seq::<char>::empty());
        assert(seq!['\u{be}'].drop_first() =~= Seq::<char>::empty());
        assert(encode_utf8(digits).len() <= 2);
    }
    let q = quarters % 4;
    if q == 1 {
        buffer_push_str(&mut text, "\u{bc}");
    } else if q == 2 {
        buffer_push_str(&mut text, "\u{bd}");
    } else if q == 3 {
        buffer_push_str(&mut text, "\u{be}");
    }
    assert(buffer_text(text) =~= hearts_spec(quarters));
    text
}

} // verus!
