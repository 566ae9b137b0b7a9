//! Reading an interest-inclusive UI amount (`"110"`, `"110.0000001"`) back into the
//! mint's smallest unit, exactly and without floating point.
//!
//! The amount is scaled by `10^decimals` and rounded half up at the last kept place:
//! a reported `"0.0000999999999"` at six decimals is `100`, not `99`, so a balance
//! that accrued nothing reads back as itself.
use vstd::prelude::*;
use vstd::string::StringSliceAdditionalSpecFns;

verus! {

pub open spec fn is_digit(b: u8) -> bool {
    48 <= b && b <= 57
}

pub open spec fn digit_value(b: u8) -> nat {
    (b - 48) as nat
}

/// The number a run of decimal digits spells, most significant first.
pub open spec fn digits_value(s: Seq<u8>) -> nat
    decreases s.len(),
{
    if s.len() == 0 {
        0
    } else {
        digits_value(s.drop_last()) * 10 + digit_value(s.last())
    }
}

/// Index of the first byte at or after `i` that is not a digit.
pub open spec fn digit_run_end(s: Seq<u8>, i: int) -> int
    decreases s.len() - i,
{
    if 0 <= i < s.len() && is_digit(s[i]) {
        digit_run_end(s, i + 1)
    } else {
        i
    }
}

/// The whole and fractional digits of `W` or `W.F`, each a nonempty run of digits;
/// `None` for any other text.
pub open spec fn ui_parts(s: Seq<u8>) -> Option<(Seq<u8>, Seq<u8>)> {
    let k = digit_run_end(s, 0);
    if k == 0 {
        None
    } else if k == s.len() {
        Some((s, Seq::<u8>::empty()))
    } else if s[k] == 46 && k + 1 < s.len() && digit_run_end(s, k + 1) == s.len() {
        Some((s.take(k), s.skip(k + 1)))
    } else {
        None
    }
}

/// The first `d` fractional digits, padded with zeros.
pub open spec fn frac_window(f: Seq<u8>, d: nat) -> Seq<u8> {
    Seq::new(d, |i: int| if i < f.len() { f[i] } else { 48u8 })
}

/// Half up: the first fractional digit past the window is 5 or more.
pub open spec fn rounds_up(f: Seq<u8>, d: nat) -> bool {
    d < f.len() && f[d as int] >= 53
}

/// `W.F` scaled by `10^d` and rounded half up to an integer.
pub open spec fn scaled_value(w: Seq<u8>, f: Seq<u8>, d: nat) -> nat {
    digits_value(w + frac_window(f, d)) + if rounds_up(f, d) {
        1nat
    } else {
        0nat
    }
}

/// The raw amount a UI amount stands for at `decimals`, when the text is well formed
/// and the amount fits in a `u64`.
pub open spec fn raw_from_ui(s: Seq<u8>, decimals: u8) -> Option<u64> {
    match ui_parts(s) {
        None => None,
        Some((w, f)) => {
            let v = scaled_value(w, f, decimals as nat);
            if v <= u64::MAX {
                Some(v as u64)
            } else {
                None
            }
        },
    }
}

proof fn lemma_digits_step(x: Seq<u8>, i: int)
    requires
        0 <= i < x.len(),
    ensures
        digits_value(x.take(i + 1)) == digits_value(x.take(i)) * 10 + digit_value(x[i]),
{
    assert(x.take(i + 1).drop_last() =~= x.take(i));
}

proof fn lemma_prefix_value_le(x: Seq<u8>, i: int)
    requires
        0 <= i <= x.len(),
    ensures
        digits_value(x.take(i)) <= digits_value(x),
    decreases x.len() - i,
{
    if i == x.len() {
        assert(x.take(i) =~= x);
    } else {
        lemma_digits_step(x, i);
        lemma_prefix_value_le(x, i + 1);
    }
}

fn is_digit_byte(b: u8) -> (r: bool)
    ensures
        r == is_digit(b),
{
    48 <= b && b <= 57
}

/// End of the run of digits that starts at `start`.
fn digit_run(s: &[u8], start: usize) -> (r: usize)
    requires
        start <= s@.len(),
    ensures
        r == digit_run_end(s@, start as int),
        start <= r <= s@.len(),
        forall|j: int| start <= j < r ==> is_digit(#[trigger] s@[j]),
{
    let mut k: usize = start;
    while k < s.len() && is_digit_byte(s[k])
        invariant
            start <= k <= s@.len(),
            digit_run_end(s@, k as int) == digit_run_end(s@, start as int),
            forall|j: int| start <= j < k ==> is_digit(#[trigger] s@[j]),
        decreases s@.len() - k,
    {
        k = k + 1;
    }
    k
}

/// Reads a UI amount given as bytes; see `ui_amount_to_raw`.
pub fn raw_amount_from_ui_bytes(s: &[u8], decimals: u8) -> (r: Option<u64>)
    ensures
        r == raw_from_ui(s@, decimals),
{
    let n = s.len();
    let k = digit_run(s, 0);
    if k == 0 {
        return None;
    }
    let frac_start: usize;
    if k == n {
        frac_start = n;
    } else {
        if s[k] != 46 || k + 1 >= n {
            return None;
        }
        let j = digit_run(s, k + 1);
        if j != n {
            return None;
        }
        frac_start = k + 1;
    }
    let ghost w = s@.take(k as int);
    let ghost f = s@.subrange(frac_start as int, n as int);
    let ghost d = decimals as nat;
    let ghost x = w + frac_window(f, d);
    proof {
        if k == n {
            assert(w =~= s@);
            assert(f =~= Seq::<u8>::empty());
        } else {
            assert(f =~= s@.skip(k + 1));
        }
        assert(ui_parts(s@) == Some((w, f)));
    }
    let mut acc: u64 = 0;
    let mut i: usize = 0;
    while i < k
        invariant
            0 <= i <= k,
            k <= n == s@.len(),
            w == s@.take(k as int),
            x == w + frac_window(f, d),
            x.len() == k + d,
            d == decimals,
            acc == digits_value(x.take(i as int)),
            ui_parts(s@) == Some((w, f)),
            forall|j: int| 0 <= j < k ==> is_digit(#[trigger] s@[j]),
        decreases k - i,
    {
        proof {
            lemma_digits_step(x, i as int);
            assert(x[i as int] == s@[i as int]);
        }
        let digit = s[i] - 48;
        assert(digit_value(x[i as int]) == digit);
        match acc.checked_mul(10) {
            Some(t) => match t.checked_add(digit as u64) {
                Some(v) => {
                    acc = v;
                },
                None => {
                    proof { lemma_prefix_value_le(x, i + 1); }
                    return None;
                },
            },
            None => {
                proof { lemma_prefix_value_le(x, i + 1); }
                return None;
            },
        }
        i = i + 1;
    }
    let mut p: u16 = 0;
    while p < decimals as u16
        invariant
            0 <= p <= d,
            d == decimals,
            k <= n == s@.len(),
            frac_start <= n,
            x.len() == k + d,
            f == s@.subrange(frac_start as int, n as int),
            x == w + frac_window(f, d),
            w.len() == k,
            acc == digits_value(x.take(k + p)),
            ui_parts(s@) == Some((w, f)),
            forall|j: int| frac_start <= j < n ==> is_digit(#[trigger] s@[j]),
        decreases d - p,
    {
        let q = p as usize;
        let digit: u8 = if q < n - frac_start {
            s[frac_start + q] - 48
        } else {
            0
        };
        proof {
            lemma_digits_step(x, k + p as int);
            assert(x[k + p as int] == frac_window(f, d)[p as int]);
            assert(digit_value(x[k + p as int]) == digit);
        }
        match acc.checked_mul(10) {
            Some(t) => match t.checked_add(digit as u64) {
                Some(v) => {
                    acc = v;
                },
                None => {
                    proof { lemma_prefix_value_le(x, k + p + 1); }
                    return None;
                },
            },
            None => {
                proof { lemma_prefix_value_le(x, k + p + 1); }
                return None;
            },
        }
        p = p + 1;
    }
    proof {
        assert(x.take(k + d) =~= x);
    }
    let round_up: bool = (decimals as usize) < n - frac_start && s[frac_start + decimals as usize]
        >= 53;
    assert(round_up == rounds_up(f, d));
    if round_up {
        if acc == u64::MAX {
            return None;
        }
        Some(acc + 1)
    } else {
        Some(acc)
    }
}

/// Reads a UI amount into the mint's smallest unit: `W` or `W.F` in decimal digits,
/// scaled by `10^decimals` and rounded half up. `None` for any other text ("NaN",
/// "inf", a sign, an exponent) and for an amount past `u64::MAX`.
pub fn ui_amount_to_raw(ui: &str, decimals: u8) -> (r: Option<u64>)
    ensures
        r == raw_from_ui(ui.spec_bytes(), decimals),
{
    raw_amount_from_ui_bytes(ui.as_bytes(), decimals)
}

} // verus!
