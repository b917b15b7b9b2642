use vstd::prelude::*;
use vstd::string::StrSliceExecFns;
use vstd::string::StringExecFns;

verus! {

/// Saturate a mathematical integer into the `i32` range.
pub open spec fn clip_to_i32(x: int) -> int {
    if x < i32::MIN as int {
        i32::MIN as int
    } else if x > i32::MAX as int {
        i32::MAX as int
    } else {
        x
    }
}

/// Round a quantity given in hundredths to a whole number,
/// half away from zero.
pub open spec fn round_centi(c: int) -> int {
    if c >= 0 {
        (c + 50) / 100
    } else {
        -((-c + 50) / 100)
    }
}

/// Kelvin (in hundredths of a degree) to whole degrees Celsius:
/// subtract 273.15, round half away from zero, saturate into `i32`.
pub open spec fn spec_kelvin_to_celsius(k: int) -> int {
    clip_to_i32(round_centi(k - 27315))
}

/// Celsius in hundredths of a degree to whole degrees, rounded
/// half away from zero and saturated into `i32`.
pub open spec fn spec_centi_to_degrees(c: int) -> int {
    clip_to_i32(round_centi(c))
}

/// Whole degrees from hundredths of a degree, rounding half away from
/// zero and saturating into the `i32` range.
pub fn centi_to_degrees(c: i64) -> (r: i32)
    ensures
        r as int == spec_centi_to_degrees(c as int),
{
    if c >= 0 {
        let u: u64 = c as u64;
        let q: u64 = (u + 50) / 100;
        if q > (i32::MAX as u64) {
            i32::MAX
        } else {
            q as i32
        }
    } else {
        let m: u64 = (-(c as i128)) as u64;
        let q: u64 = (m + 50) / 100;
        if q > 2147483648u64 {
            i32::MIN
        } else {
            (-(q as i64)) as i32
        }
    }
}

/// Kelvin in hundredths of a degree to whole degrees Celsius.
pub fn kelvin_to_celsius(kelvin_centi: i64) -> (r: i32)
    ensures
        r as int == spec_kelvin_to_celsius(kelvin_centi as int),
{
    if kelvin_centi >= i64::MIN + 27315 {
        centi_to_degrees(kelvin_centi - 27315)
    } else {
        proof {
            let c = kelvin_centi as int - 27315;
            vstd::arithmetic::div_mod::lemma_div_is_ordered(214748364900, -c + 50, 100);
            assert(214748364900int / 100 == 2147483649int);
        }
        i32::MIN
    }
}

/// The decimal digit character for a value below ten.
pub open spec fn spec_digit(d: nat) -> char
    recommends
        d < 10,
{
    if d == 0 {
        '0'
    } else if d == 1 {
        '1'
    } else if d == 2 {
        '2'
    } else if d == 3 {
        '3'
    } else if d == 4 {
        '4'
    } else if d == 5 {
        '5'
    } else if d == 6 {
        '6'
    } else if d == 7 {
        '7'
    } else if d == 8 {
        '8'
    } else {
        '9'
    }
}

/// The decimal rendering of a natural number, most significant digit first.
pub open spec fn spec_udec(n: nat) -> Seq<char>
    decreases n,
{
    if n < 10 {
        seq![spec_digit(n)]
    } else {
        spec_udec(n / 10).push(spec_digit(n % 10))
    }
}

/// The decimal rendering of an integer, with a leading minus sign when negative.
pub open spec fn spec_idec(i: int) -> Seq<char> {
    if i >= 0 {
        spec_udec(i as nat)
    } else {
        seq!['-'] + spec_udec((-i) as nat)
    }
}

fn digit_str(d: u64) -> (r: &'static str)
    requires
        d < 10,
    ensures
        r@ == seq![spec_digit(d as nat)],
{
    if d == 0 {
        proof { reveal_strlit("0"); }
        let r = "0";
        proof { assert(r@ =~= seq!['0']); }
        r
    } else if d == 1 {
        proof { reveal_strlit("1"); }
        let r = "1";
        proof { assert(r@ =~= seq!['1']); }
        r
    } else if d == 2 {
        proof { reveal_strlit("2"); }
        let r = "2";
        proof { assert(r@ =~= seq!['2']); }
        r
    } else if d == 3 {
        proof { reveal_strlit("3"); }
        let r = "3";
        proof { assert(r@ =~= seq!['3']); }
        r
    } else if d == 4 {
        proof { reveal_strlit("4"); }
        let r = "4";
        proof { assert(r@ =~= seq!['4']); }
        r
    } else if d == 5 {
        proof { reveal_strlit("5"); }
        let r = "5";
        proof { assert(r@ =~= seq!['5']); }
        r
    } else if d == 6 {
        proof { reveal_strlit("6"); }
        let r = "6";
        proof { assert(r@ =~= seq!['6']); }
        r
    } else if d == 7 {
        proof { reveal_strlit("7"); }
        let r = "7";
        proof { assert(r@ =~= seq!['7']); }
        r
    } else if d == 8 {
        proof { reveal_strlit("8"); }
        let r = "8";
        proof { assert(r@ =~= seq!['8']); }
        r
    } else {
        proof { reveal_strlit("9"); }
        let r = "9";
        proof { assert(r@ =~= seq!['9']); }
        r
    }
}

/// Decimal rendering of an unsigned number.
pub fn u64_to_string(n: u64) -> (r: String)
    ensures
        r@ == spec_udec(n as nat),
    decreases n,
{
    if n < 10 {
        digit_str(n).to_owned()
    } else {
        let mut s = u64_to_string(n / 10);
        s.append(digit_str(n % 10));
        proof {
            assert(spec_udec((n / 10) as nat) + seq![spec_digit((n % 10) as nat)]
                =~= spec_udec((n / 10) as nat).push(spec_digit((n % 10) as nat)));
        }
        s
    }
}

/// Decimal rendering of a signed number.
pub fn i32_to_string(n: i32) -> (r: String)
    ensures
        r@ == spec_idec(n as int),
{
    if n >= 0 {
        u64_to_string(n as u64)
    } else {
        let m: u64 = (-(n as i64)) as u64;
        let mut s = "-".to_owned();
        let rest = u64_to_string(m);
        s.append(rest.as_str());
        proof {
            reveal_strlit("-");
            assert(("-")@ =~= seq!['-']);
        }
        s
    }
}

/// Character-for-character string equality, stated over the views.
pub fn str_eq(a: &str, b: &str) -> (r: bool)
    ensures
        r == (a@ == b@),
{
    let n = a.unicode_len();
    if n != b.unicode_len() {
        return false;
    }
    let mut i: usize = 0;
    while i < n
        invariant
            0 <= i <= n,
            n as nat == a@.len(),
            n as nat == b@.len(),
            forall|k: int| 0 <= k < i ==> a@[k] == b@[k],
        decreases n - i,
    {
        if a.get_char(i) != b.get_char(i) {
            return false;
        }
        i += 1;
    }
    proof {
        assert(a@ =~= b@);
    }
    true
}

} // verus!
