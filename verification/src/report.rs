//! Currency rendering and the verbosity switches of the reporting layer.
//!
//! `format_yen` renders an amount as the currency sign followed by the
//! signed decimal digits, grouped in threes from the right with commas; the
//! contract pins the rendered character sequence down exactly.

use vstd::prelude::*;
use vstd::string::StringExecFns;

verus! {

/// Which intermediate figures a report prints. A pure presentation switch:
/// it never influences any computed amount.
#[derive(Clone, Copy, PartialEq, Eq, Structural, Debug)]
pub struct LogConfig {
    pub show_deductions: bool,
    pub show_tax_breakdown: bool,
    pub show_insurance_breakdown: bool,
    pub show_summary: bool,
}

impl LogConfig {
    /// The silent configuration: nothing is printed.
    pub fn none() -> (r: LogConfig)
        ensures
            !r.show_deductions,
            !r.show_tax_breakdown,
            !r.show_insurance_breakdown,
            !r.show_summary,
    {
        LogConfig {
            show_deductions: false,
            show_tax_breakdown: false,
            show_insurance_breakdown: false,
            show_summary: false,
        }
    }
}

/// The character for one decimal digit.
pub open spec fn digit_char(d: int) -> char {
    if d == 0 {
        '0'
    } else if d == 1 {
        '1'
    } else if d == 2 {
        '2'
    } else if d == 3 {
        '3'
    } else if d == 4 {
        '4'
    } else if d == 5 {
        '5'
    } else if d == 6 {
        '6'
    } else if d == 7 {
        '7'
    } else if d == 8 {
        '8'
    } else {
        '9'
    }
}

/// The decimal digits of a non-negative number, most significant first.
pub open spec fn dec_str(n: nat) -> Seq<char>
    decreases n,
{
    if n < 10 {
        seq![digit_char(n as int)]
    } else {
        dec_str(n / 10).push(digit_char((n % 10) as int))
    }
}

/// A number below ten to the `k` renders in at most `k` digits.
proof fn lemma_dec_str_len_bound(n: nat, k: nat)
    requires
        k >= 1,
        n < vstd::arithmetic::power::pow(10, k),
    ensures
        dec_str(n).len() <= k,
    decreases n,
{
    if n >= 10 {
        reveal_with_fuel(vstd::arithmetic::power::pow, 2);
        assert(vstd::arithmetic::power::pow(10, k) == 10 * vstd::arithmetic::power::pow(
            10,
            (k - 1) as nat,
        ));
        assert(k >= 2) by {
            reveal_with_fuel(vstd::arithmetic::power::pow, 2);
            if k == 1 {
                assert(false);
            }
        }
        vstd::arithmetic::div_mod::lemma_multiply_divide_lt(
            n as int,
            10,
            vstd::arithmetic::power::pow(10, (k - 1) as nat),
        );
        lemma_dec_str_len_bound(n / 10, (k - 1) as nat);
    }
}

/// The decimal rendering of a signed number: a minus sign, then the digits
/// of the magnitude.
pub open spec fn signed_dec_str(v: int) -> Seq<char> {
    if v < 0 {
        seq!['-'] + dec_str((-v) as nat)
    } else {
        dec_str(v as nat)
    }
}

/// Comma grouping: a comma before every complete group of three characters,
/// counted from the right.
pub open spec fn comma_grouped(s: Seq<char>) -> Seq<char>
    decreases s.len(),
{
    if s.len() <= 3 {
        s
    } else {
        comma_grouped(s.take(s.len() - 3)) + seq![','] + s.skip(s.len() - 3)
    }
}

/// What `format_yen` renders: the currency sign, then the signed decimal
/// digits with comma grouping applied over the whole signed rendering.
pub open spec fn spec_format_yen(v: int) -> Seq<char> {
    seq!['\u{a5}'] + comma_grouped(signed_dec_str(v))
}

/// The grouped rendering of the first `i` characters of `s`, built left to
/// right: a comma goes in front of position `p > 0` whenever the distance
/// `s.len() - p` to the right end is a multiple of three.
pub open spec fn grouped_prefix(s: Seq<char>, i: int) -> Seq<char>
    decreases i,
{
    if i <= 0 {
        Seq::empty()
    } else {
        grouped_prefix(s, i - 1) + (if i - 1 > 0 && (s.len() - (i - 1)) % 3 == 0 {
            seq![',']
        } else {
            Seq::<char>::empty()
        }) + seq![s[i - 1]]
    }
}

/// Truncating `s` on the right by a multiple of three does not move any
/// comma inside the kept prefix.
proof fn lemma_grouped_prefix_take(s: Seq<char>, m: int, j: int)
    requires
        0 <= j <= m <= s.len(),
        (s.len() - m) % 3 == 0,
    ensures
        grouped_prefix(s.take(m), j) == grouped_prefix(s, j),
    decreases j,
{
    if j > 0 {
        lemma_grouped_prefix_take(s, m, j - 1);
        assert(s.take(m)[j - 1] == s[j - 1]);
        assert((s.take(m).len() - (j - 1)) % 3 == (s.len() - (j - 1)) % 3) by {
            vstd::arithmetic::div_mod::lemma_mod_adds(m - (j - 1), s.len() - m, 3);
        }
    }
}

/// Short sequences group without commas.
proof fn lemma_grouped_prefix_short(s: Seq<char>, j: int)
    requires
        0 <= j <= s.len() <= 3,
    ensures
        grouped_prefix(s, j) =~= s.take(j),
    decreases j,
{
    if j > 0 {
        lemma_grouped_prefix_short(s, j - 1);
    }
}

/// Building the grouping left to right gives the right-recursive grouping.
proof fn lemma_grouped_prefix_full(s: Seq<char>)
    ensures
        grouped_prefix(s, s.len() as int) == comma_grouped(s),
    decreases s.len(),
{
    let n = s.len() as int;
    if n <= 3 {
        lemma_grouped_prefix_short(s, n);
        assert(s.take(n) =~= s);
    } else {
        let m = n - 3;
        let head = s.take(m);
        lemma_grouped_prefix_full(head);
        lemma_grouped_prefix_take(s, m, m);
        assert((s.len() - (n - 1)) % 3 == 1);
        assert((s.len() - (n - 2)) % 3 == 2);
        assert((s.len() - m) % 3 == 0);
        assert(grouped_prefix(s, n) =~= grouped_prefix(s, n - 1) + seq![s[n - 1]]);
        assert(grouped_prefix(s, n - 1) =~= grouped_prefix(s, n - 2) + seq![s[n - 2]]);
        assert(grouped_prefix(s, n - 2) =~= grouped_prefix(s, m) + seq![','] + seq![s[m]]);
        assert(s.skip(m) =~= seq![s[m], s[m + 1], s[m + 2]]);
        assert(grouped_prefix(s, n) =~= comma_grouped(head) + seq![','] + s.skip(m));
    }
}

/// The digit characters of a digit stack, read top (most recently pushed)
/// first — the reverse of push order.
pub open spec fn rev_digit_chars(ds: Seq<u8>) -> Seq<char>
    decreases ds.len(),
{
    if ds.len() == 0 {
        Seq::empty()
    } else {
        seq![digit_char(ds.last() as int)] + rev_digit_chars(ds.drop_last())
    }
}

/// The reversed digit characters keep the length.
proof fn lemma_rev_digit_chars_len(ds: Seq<u8>)
    ensures
        rev_digit_chars(ds).len() == ds.len(),
    decreases ds.len(),
{
    if ds.len() > 0 {
        lemma_rev_digit_chars_len(ds.drop_last());
    }
}

/// Indexing the reversed digit characters.
proof fn lemma_rev_digit_chars_index(ds: Seq<u8>, j: int)
    requires
        0 <= j < ds.len(),
    ensures
        rev_digit_chars(ds).len() == ds.len(),
        rev_digit_chars(ds)[j] == digit_char(ds[ds.len() - 1 - j] as int),
    decreases ds.len(),
{
    lemma_rev_digit_chars_len(ds);
    lemma_rev_digit_chars_len(ds.drop_last());
    if j > 0 {
        lemma_rev_digit_chars_index(ds.drop_last(), j - 1);
    }
}

/// One decimal digit as a string slice.
fn digit_str(d: u8) -> (r: &'static str)
    requires
        d < 10,
    ensures
        r@ =~= seq![digit_char(d as int)],
{
    proof {
        reveal_strlit("0");
        reveal_strlit("1");
        reveal_strlit("2");
        reveal_strlit("3");
        reveal_strlit("4");
        reveal_strlit("5");
        reveal_strlit("6");
        reveal_strlit("7");
        reveal_strlit("8");
        reveal_strlit("9");
    }
    match d {
        0 => "0",
        1 => "1",
        2 => "2",
        3 => "3",
        4 => "4",
        5 => "5",
        6 => "6",
        7 => "7",
        8 => "8",
        _ => "9",
    }
}

/// Renders an amount of yen: currency sign, sign, digits, commas every
/// three characters from the right of the signed rendering.
#[verifier::rlimit(60)]
pub fn format_yen(amount: i64) -> (r: String)
    requires
        amount > i64::MIN,
    ensures
        r@ == spec_format_yen(amount as int),
{
    let negative = amount < 0;
    let mut mag: u64 = if negative {
        (-amount) as u64
    } else {
        amount as u64
    };
    let ghost orig: nat = mag as nat;
    let mut digits: Vec<u8> = Vec::new();
    loop
        invariant_except_break
            digits@.len() > 0 ==> mag > 0,
        invariant
            forall|j: int| 0 <= j < digits@.len() ==> #[trigger] digits@[j] < 10,
            digits@.len() == 0 ==> mag as nat == orig,
            digits@.len() > 0 ==> dec_str(orig) == (if mag > 0 {
                dec_str(mag as nat) + rev_digit_chars(digits@)
            } else {
                rev_digit_chars(digits@)
            }),
        ensures
            digits@.len() > 0,
            mag == 0,
            dec_str(orig) == rev_digit_chars(digits@),
            forall|j: int| 0 <= j < digits@.len() ==> #[trigger] digits@[j] < 10,
        decreases mag,
    {
        let ghost pre = digits@;
        let ghost magpre: nat = mag as nat;
        let d: u8 = (mag % 10) as u8;
        digits.push(d);
        mag = mag / 10;
        proof {
            assert(digits@.drop_last() =~= pre);
            assert(digits@.last() == d);
            assert(rev_digit_chars(digits@) == seq![digit_char(d as int)] + rev_digit_chars(pre));
            if magpre < 10 {
                assert(dec_str(magpre) =~= seq![digit_char(d as int)]);
            } else {
                assert(dec_str(magpre) == dec_str(magpre / 10).push(
                    digit_char((magpre % 10) as int),
                ));
                assert(dec_str(magpre / 10).push(digit_char(d as int)) =~= dec_str(magpre / 10)
                    + seq![digit_char(d as int)]);
                assert((dec_str(magpre / 10) + seq![digit_char(d as int)]) + rev_digit_chars(
                    pre,
                ) =~= dec_str(magpre / 10) + (seq![digit_char(d as int)] + rev_digit_chars(pre)));
            }
            if pre.len() == 0 {
                assert(seq![digit_char(d as int)] + rev_digit_chars(pre) =~= seq![
                    digit_char(d as int)
                ]);
            }
        }
        if mag == 0 {
            break;
        }
    }
    let ghost full: Seq<char> = signed_dec_str(amount as int);
    proof {
        lemma_rev_digit_chars_len(digits@);
        if negative {
            assert(orig == -(amount as int));
            assert(full == seq!['-'] + rev_digit_chars(digits@));
        } else {
            assert(full == rev_digit_chars(digits@));
        }
        assert(orig < vstd::arithmetic::power::pow(10, 20)) by {
            reveal_with_fuel(vstd::arithmetic::power::pow, 21);
        }
        lemma_dec_str_len_bound(orig, 20);
        assert(digits@.len() == dec_str(orig).len());
    }
    let sign_len: usize = if negative {
        1
    } else {
        0
    };
    let num_len: usize = digits.len() + sign_len;
    proof {
        assert(full.len() == num_len);
    }
    let mut out = String::new();
    out.append("\u{a5}");
    proof {
        reveal_strlit("\u{a5}");
        assert(out@ =~= seq!['\u{a5}'] + grouped_prefix(full, 0));
    }
    let mut i: usize = 0;
    while i < num_len
        invariant
            i <= num_len,
            out@ == seq!['\u{a5}'] + grouped_prefix(full, i as int),
            num_len as int == full.len(),
            digits@.len() >= 1,
            num_len == digits@.len() + sign_len,
            sign_len == (if negative {
                1usize
            } else {
                0usize
            }),
            full == signed_dec_str(amount as int),
            negative ==> full == seq!['-'] + rev_digit_chars(digits@),
            !negative ==> full == rev_digit_chars(digits@),
            forall|j: int| 0 <= j < digits@.len() ==> #[trigger] digits@[j] < 10,
            rev_digit_chars(digits@).len() == digits@.len(),
        decreases num_len - i,
    {
        if i > 0 && (num_len - i) % 3 == 0 {
            out.append(",");
            proof {
                reveal_strlit(",");
            }
        }
        if negative && i == 0 {
            out.append("-");
            proof {
                reveal_strlit("-");
                assert(full[0] == '-');
                assert(out@ =~= seq!['\u{a5}'] + grouped_prefix(full, i as int + 1));
            }
        } else {
            let di: usize = digits.len() - 1 - (i - sign_len);
            let d = digits[di];
            out.append(digit_str(d));
            proof {
                lemma_rev_digit_chars_index(digits@, i - sign_len);
                if negative {
                    assert(full[i as int] == rev_digit_chars(digits@)[i - sign_len]);
                } else {
                    assert(full[i as int] == rev_digit_chars(digits@)[i as int]);
                }
                assert(full[i as int] == digit_char(d as int));
                assert(out@ =~= seq!['\u{a5}'] + grouped_prefix(full, i as int + 1));
            }
        }
        i = i + 1;
    }
    proof {
        lemma_grouped_prefix_full(full);
    }
    out
}

} // verus!
