use vstd::prelude::*;

verus! {

pub open spec fn spec_digit(d: int) -> char {
    if d == 0 {
        '0'
    } else if d == 1 {
        '1'
    } else if d == 2 {
        '2'
    } else if d == 3 {
        '3'
    } else if d == 4 {
        '4'
    } else if d == 5 {
        '5'
    } else if d == 6 {
        '6'
    } else if d == 7 {
        '7'
    } else if d == 8 {
        '8'
    } else {
        '9'
    }
}

/// The usual decimal rendering of a number, most significant digit first.
pub open spec fn spec_decimal(n: nat) -> Seq<char>
    decreases n,
{
    if n < 10 {
        seq![spec_digit(n as int)]
    } else {
        spec_decimal(n / 10) + seq![spec_digit((n % 10) as int)]
    }
}

fn digit_str(d: u8) -> (s: &'static str)
    requires
        d < 10,
    ensures
        s@ == seq![spec_digit(d as int)],
{
    proof {
        reveal_strlit("0");
        reveal_strlit("1");
        reveal_strlit("2");
        reveal_strlit("3");
        reveal_strlit("4");
        reveal_strlit("5");
        reveal_strlit("6");
        reveal_strlit("7");
        reveal_strlit("8");
        reveal_strlit("9");
        assert("0"@ =~= seq!['0']);
        assert("1"@ =~= seq!['1']);
        assert("2"@ =~= seq!['2']);
        assert("3"@ =~= seq!['3']);
        assert("4"@ =~= seq!['4']);
        assert("5"@ =~= seq!['5']);
        assert("6"@ =~= seq!['6']);
        assert("7"@ =~= seq!['7']);
        assert("8"@ =~= seq!['8']);
        assert("9"@ =~= seq!['9']);
    }
    match d {
        0 => "0",
        1 => "1",
        2 => "2",
        3 => "3",
        4 => "4",
        5 => "5",
        6 => "6",
        7 => "7",
        8 => "8",
        _ => "9",
    }
}

/// The decimal characters of the given digits read back to front.
pub open spec fn chars_of_rev(ds: Seq<u8>) -> Seq<char>
    decreases ds.len(),
{
    if ds.len() == 0 {
        Seq::empty()
    } else {
        seq![spec_digit(ds.last() as int)] + chars_of_rev(ds.drop_last())
    }
}

/// Renders a number in decimal.
pub fn u64_to_dec_string(n: u64) -> (s: String)
    ensures
        s@ == spec_decimal(n as nat),
{
    if n == 0 {
        let s = String::from_str(digit_str(0));
        return s;
    }
    let mut digits: Vec<u8> = Vec::new();
    let mut m: u64 = n;
    proof {
        assert(chars_of_rev(digits@) =~= Seq::<char>::empty());
    }
    while m > 0
        invariant
            m > 0 ==> spec_decimal(n as nat) =~= spec_decimal(m as nat) + chars_of_rev(
                digits@,
            ),
            m == 0 ==> spec_decimal(n as nat) =~= chars_of_rev(digits@),
            m == 0 ==> digits@.len() >= 1,
            forall|j: int| 0 <= j < digits@.len() ==> #[trigger] digits@[j] < 10,
        decreases m,
    {
        let d = (m % 10) as u8;
        let ghost prev = digits@;
        digits.push(d);
        proof {
            assert(digits@.last() == d);
            assert(digits@.drop_last() =~= prev);
            assert(chars_of_rev(digits@) =~= seq![spec_digit(d as int)] + chars_of_rev(prev));
            if m >= 10 {
                assert(spec_decimal(m as nat) == spec_decimal((m as nat) / 10) + seq![
                    spec_digit(((m as nat) % 10) as int)
                ]);
                assert(spec_decimal((m / 10) as nat) + (seq![spec_digit(d as int)]
                    + chars_of_rev(prev)) =~= (spec_decimal((m / 10) as nat) + seq![
                    spec_digit(d as int)
                ]) + chars_of_rev(prev));
            } else {
                assert(spec_decimal(m as nat) =~= seq![spec_digit(d as int)]);
            }
        }
        m = m / 10;
    }
    let mut out = String::new();
    let mut i: usize = digits.len();
    proof {
        assert(digits@.take(digits@.len() as int) =~= digits@);
    }
    while i > 0
        invariant
            i <= digits@.len(),
            forall|j: int| 0 <= j < digits@.len() ==> #[trigger] digits@[j] < 10,
            chars_of_rev(digits@) =~= out@ + chars_of_rev(digits@.take(i as int)),
        decreases i,
    {
        i = i - 1;
        out.append(digit_str(digits[i]));
        proof {
            assert(digits@.take(i + 1).last() == digits@[i as int]);
            assert(digits@.take(i + 1).drop_last() =~= digits@.take(i as int));
            assert(chars_of_rev(digits@.take(i + 1)) =~= seq![
                spec_digit(digits@[i as int] as int)
            ] + chars_of_rev(digits@.take(i as int)));
        }
    }
    proof {
        assert(chars_of_rev(digits@.take(0)) =~= Seq::<char>::empty());
        assert(out@ =~= chars_of_rev(digits@));
    }
    out
}

/// A quantity scaled by a unit, rounded to hundredths, rendered as
/// `whole.ff`.
pub open spec fn spec_two_dec(b: nat, unit: nat) -> Seq<char>
    recommends
        unit >= 1,
{
    let whole0 = b / unit;
    let fr0 = ((b % unit) * 100 + unit / 2) / unit;
    let whole = if fr0 == 100 {
        whole0 + 1
    } else {
        whole0
    };
    let fr = if fr0 == 100 {
        0
    } else {
        fr0
    };
    spec_decimal(whole) + seq!['.', spec_digit((fr / 10) as int), spec_digit((fr % 10) as int)]
}

fn two_dec_string(b: u64, unit: u64) -> (s: String)
    requires
        1024 <= unit <= 0x4000_0000,
    ensures
        s@ == spec_two_dec(b as nat, unit as nat),
{
    let whole0 = b / unit;
    let rem = b % unit;
    let fr0 = (rem * 100 + unit / 2) / unit;
    proof {
        assert(fr0 <= 100) by (nonlinear_arith)
            requires
                fr0 == ((rem * 100 + unit / 2) as int) / (unit as int),
                rem == b % unit,
                1 <= unit,
                rem < unit,
        ;
        assert(whole0 <= b / 1024) by (nonlinear_arith)
            requires
                whole0 == (b as int) / (unit as int),
                1024 <= unit,
                b >= 0,
        ;
    }
    let whole = if fr0 == 100 {
        whole0 + 1
    } else {
        whole0
    };
    let fr = if fr0 == 100 {
        0
    } else {
        fr0
    };
    let mut out = u64_to_dec_string(whole);
    proof {
        reveal_strlit(".");
        assert("."@ =~= seq!['.']);
    }
    out.append(".");
    out.append(digit_str((fr / 10) as u8));
    out.append(digit_str((fr % 10) as u8));
    proof {
        assert(out@ =~= spec_two_dec(b as nat, unit as nat));
    }
    out
}

/// A byte count rendered for display: scaled to the largest binary unit it
/// reaches, rounded to hundredths.
pub open spec fn spec_format_bytes(b: nat) -> Seq<char> {
    if b >= 1073741824 {
        spec_two_dec(b, 1073741824) + " GB"@
    } else if b >= 1048576 {
        spec_two_dec(b, 1048576) + " MB"@
    } else if b >= 1024 {
        spec_two_dec(b, 1024) + " KB"@
    } else {
        spec_decimal(b) + " B"@
    }
}

pub fn format_bytes(bytes: u64) -> (s: String)
    ensures
        s@ == spec_format_bytes(bytes as nat),
{
    if bytes >= 1073741824 {
        let mut s = two_dec_string(bytes, 1073741824);
        s.append(" GB");
        s
    } else if bytes >= 1048576 {
        let mut s = two_dec_string(bytes, 1048576);
        s.append(" MB");
        s
    } else if bytes >= 1024 {
        let mut s = two_dec_string(bytes, 1024);
        s.append(" KB");
        s
    } else {
        let mut s = u64_to_dec_string(bytes);
        s.append(" B");
        s
    }
}

} // verus!
