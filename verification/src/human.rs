use vstd::prelude::*;

verus! {

// Rendering byte counts for display, without reaching for the runtime's
// formatting machinery: the decimal renderer below is verified against a
// character-level specification.

/// The decimal digit character for a value below ten.
pub open spec fn digit_char(d: int) -> char {
    if d == 0 {
        '0'
    } else if d == 1 {
        '1'
    } else if d == 2 {
        '2'
    } else if d == 3 {
        '3'
    } else if d == 4 {
        '4'
    } else if d == 5 {
        '5'
    } else if d == 6 {
        '6'
    } else if d == 7 {
        '7'
    } else if d == 8 {
        '8'
    } else {
        '9'
    }
}

/// The decimal rendering of a number, most significant digit first.
pub open spec fn dec_str(n: int) -> Seq<char>
    decreases n,
{
    if n < 10 {
        seq![digit_char(n)]
    } else {
        dec_str(n / 10).push(digit_char(n % 10))
    }
}

/// A value below one hundred rendered as exactly two digits.
pub open spec fn pad2(f: int) -> Seq<char> {
    seq![digit_char(f / 10), digit_char(f % 10)]
}

/// A value scaled by one hundred rendered with two decimal places.
pub open spec fn fixed2(scaled: int) -> Seq<char> {
    dec_str(scaled / 100) + seq!['.'] + pad2(scaled % 100)
}

/// A byte count rendered with a binary unit. Values of at least one KiB show
/// two decimal places; the fractional part is truncated, not rounded.
pub open spec fn spec_human_bytes(b: int) -> Seq<char> {
    if b < 1024 {
        dec_str(b) + " B"@
    } else if b < 1048576 {
        fixed2(b * 100 / 1024) + " KiB"@
    } else if b < 1073741824 {
        fixed2(b * 100 / 1048576) + " MiB"@
    } else {
        fixed2(b * 100 / 1073741824) + " GiB"@
    }
}

/// The character for one decimal digit.
fn digit_str(d: u64) -> (r: &'static str)
    requires
        d < 10,
    ensures
        r@ == seq![digit_char(d as int)],
{
    if d == 0 {
        proof {
            reveal_strlit("0");
        }
        "0"
    } else if d == 1 {
        proof {
            reveal_strlit("1");
        }
        "1"
    } else if d == 2 {
        proof {
            reveal_strlit("2");
        }
        "2"
    } else if d == 3 {
        proof {
            reveal_strlit("3");
        }
        "3"
    } else if d == 4 {
        proof {
            reveal_strlit("4");
        }
        "4"
    } else if d == 5 {
        proof {
            reveal_strlit("5");
        }
        "5"
    } else if d == 6 {
        proof {
            reveal_strlit("6");
        }
        "6"
    } else if d == 7 {
        proof {
            reveal_strlit("7");
        }
        "7"
    } else if d == 8 {
        proof {
            reveal_strlit("8");
        }
        "8"
    } else {
        proof {
            reveal_strlit("9");
        }
        "9"
    }
}

/// A number rendered in decimal.
pub fn u64_to_dec(n: u64) -> (r: String)
    ensures
        r@ == dec_str(n as int),
    decreases n,
{
    if n < 10 {
        let s = digit_str(n);
        s.to_owned()
    } else {
        let prefix = u64_to_dec(n / 10);
        let s = digit_str(n % 10);
        let r = prefix.concat(s);
        proof {
            assert(r@ =~= dec_str(n as int / 10).push(digit_char(n as int % 10)));
        }
        r
    }
}

/// A scaled value rendered with two decimal places.
fn fixed2_exec(scaled: u64) -> (r: String)
    ensures
        r@ == fixed2(scaled as int),
{
    let whole = u64_to_dec(scaled / 100);
    let frac = scaled % 100;
    let dot = whole.concat(".");
    let with_tens = dot.concat(digit_str(frac / 10));
    let r = with_tens.concat(digit_str(frac % 10));
    proof {
        reveal_strlit(".");
        assert("."@ =~= seq!['.']);
        assert(r@ =~= fixed2(scaled as int));
    }
    r
}

/// A byte count rendered with a binary unit, e.g. a quarter-MiB value as
/// "256.00 KiB". The fractional part is truncated to two decimal places.
pub fn human_bytes(bytes: u64) -> (r: String)
    ensures
        r@ == spec_human_bytes(bytes as int),
{
    if bytes < 1024 {
        let r = u64_to_dec(bytes).concat(" B");
        proof {
            reveal_strlit(" B");
            assert(r@ =~= spec_human_bytes(bytes as int));
        }
        r
    } else if bytes < 1048576 {
        let scaled = bytes * 100 / 1024;
        let r = fixed2_exec(scaled).concat(" KiB");
        proof {
            reveal_strlit(" KiB");
            assert(r@ =~= spec_human_bytes(bytes as int));
        }
        r
    } else if bytes < 1073741824 {
        let scaled = bytes * 100 / 1048576;
        let r = fixed2_exec(scaled).concat(" MiB");
        proof {
            reveal_strlit(" MiB");
            assert(r@ =~= spec_human_bytes(bytes as int));
        }
        r
    } else {
        let wide = (bytes as u128) * 100 / 1073741824;
        proof {
            vstd::arithmetic::div_mod::lemma_div_is_ordered(
                (bytes as int) * 100,
                (u64::MAX as int) * 100,
                1073741824,
            );
        }
        let scaled = wide as u64;
        let r = fixed2_exec(scaled).concat(" GiB");
        proof {
            reveal_strlit(" GiB");
            assert(r@ =~= spec_human_bytes(bytes as int));
        }
        r
    }
}

} // verus!
