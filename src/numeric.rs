use vstd::prelude::*;

verus! {

pub open spec fn is_digit(c: char) -> bool {
    '0' <= c && c <= '9'
}

pub open spec fn digit_value(c: char) -> nat {
    (c as nat - '0' as nat) as nat
}

pub open spec fn digit_char(d: nat) -> char {
    ('0' as nat + d) as char
}

pub open spec fn all_digits(s: Seq<char>) -> bool {
    forall|i: int| 0 <= i < s.len() ==> is_digit(#[trigger] s[i])
}

/// The number that a run of decimal digits denotes.
pub open spec fn digits_value(s: Seq<char>) -> nat
    decreases s.len(),
{
    if s.len() == 0 {
        0
    } else {
        digits_value(s.drop_last()) * 10 + digit_value(s.last())
    }
}

/// The digits of `s` once an optional leading `+` is taken off.
pub open spec fn unsigned_digits(s: Seq<char>) -> Seq<char> {
    if s.len() > 0 && s[0] == '+' {
        s.drop_first()
    } else {
        s
    }
}

/// The number that `s` denotes in the syntax of std's unsigned integer parsing: an
/// optional `+` followed by one or more decimal digits. `None` for any other text.
pub open spec fn decimal_value(s: Seq<char>) -> Option<nat> {
    let d = unsigned_digits(s);
    if d.len() > 0 && all_digits(d) {
        Some(digits_value(d))
    } else {
        None
    }
}

/// `s` read as an unsigned number no larger than `max`.
pub open spec fn bounded_value(s: Seq<char>, max: nat) -> Option<nat> {
    match decimal_value(s) {
        Some(v) => if v <= max {
            Some(v)
        } else {
            None
        },
        None => None,
    }
}

/// The shortest decimal text of `n`.
pub open spec fn decimal_digits(n: nat) -> Seq<char>
    decreases n,
{
    if n < 10 {
        seq![digit_char(n)]
    } else {
        decimal_digits(n / 10).push(digit_char(n % 10))
    }
}

proof fn lemma_digits_value_grows(s: Seq<char>, c: char)
    ensures
        digits_value(s.push(c)) >= digits_value(s),
        digits_value(s.push(c)) == digits_value(s) * 10 + digit_value(c),
{
    assert(s.push(c).drop_last() =~= s);
}

/// Reads `s` as an unsigned decimal number no larger than `max`.
pub fn parse_bounded(s: &str, max: u64) -> (r: Option<u64>)
    ensures
        match bounded_value(s@, max as nat) {
            Some(v) => r == Some(v as u64),
            None => r is None,
        },
{
    let n: usize = s.unicode_len();
    if n == 0 {
        return None;
    }
    let plus = s.get_char(0) == '+';
    if plus && n == 1 {
        return None;
    }
    let digits: &str = if plus {
        s.substring_char(1, n)
    } else {
        s
    };
    let ghost d = unsigned_digits(s@);
    proof {
        if plus {
            assert(d =~= s@.subrange(1, s@.len() as int));
        }
    }
    let mut value: u64 = 0;
    let mut too_big = false;
    let mut i: usize = 0;
    proof {
        assert(d.subrange(0, 0) =~= Seq::<char>::empty());
    }
    for c in it: digits.chars()
        invariant
            it.seq() == d,
            d == unsigned_digits(s@),
            i == it.index(),
            i <= n,
            d.len() <= n,
            all_digits(d.subrange(0, i as int)),
            !too_big ==> value as nat == digits_value(d.subrange(0, i as int)),
            !too_big ==> value <= max,
            too_big ==> digits_value(d.subrange(0, i as int)) > max,
    {
        if !('0' <= c && c <= '9') {
            proof {
                assert(d[i as int] == c);
                assert(!is_digit(d[i as int]));
                assert(i < d.len());
                assert(!all_digits(d));
            }
            return None;
        }
        let dv: u64 = (c as u32 - '0' as u32) as u64;
        proof {
            let pre = d.subrange(0, i as int);
            let next = d.subrange(0, i + 1);
            assert(next =~= pre.push(c));
            lemma_digits_value_grows(pre, c);
            assert(all_digits(next));
        }
        if !too_big {
            if max < dv || value > (max - dv) / 10 {
                too_big = true;
                proof {
                    if max >= dv {
                        assert(value * 10 + dv > max) by (nonlinear_arith)
                            requires
                                value > (max - dv) / 10,
                                max >= dv,
                        ;
                    }
                }
            } else {
                proof {
                    assert(value * 10 + dv <= max) by (nonlinear_arith)
                        requires
                            value <= (max - dv) / 10,
                            max >= dv,
                    ;
                }
                value = value * 10 + dv;
            }
        }
        i = i + 1;
    }
    proof {
        assert(d.subrange(0, i as int) =~= d);
    }
    if too_big {
        None
    } else {
        Some(value)
    }
}

fn digit_text(d: u64) -> (r: &'static str)
    requires
        d < 10,
    ensures
        r@ == seq![digit_char(d as nat)],
{
    proof {
        reveal_strlit("0");
        reveal_strlit("1");
        reveal_strlit("2");
        reveal_strlit("3");
        reveal_strlit("4");
        reveal_strlit("5");
        reveal_strlit("6");
        reveal_strlit("7");
        reveal_strlit("8");
        reveal_strlit("9");
    }
    let r = match d {
        0 => "0",
        1 => "1",
        2 => "2",
        3 => "3",
        4 => "4",
        5 => "5",
        6 => "6",
        7 => "7",
        8 => "8",
        _ => "9",
    };
    assert(r@ =~= seq![digit_char(d as nat)]);
    r
}

/// The shortest decimal text of `n`.
pub fn decimal_string(n: u64) -> (r: String)
    ensures
        r@ == decimal_digits(n as nat),
    decreases n,
{
    if n < 10 {
        String::from_str(digit_text(n))
    } else {
        let mut r = decimal_string(n / 10);
        r.append(digit_text(n % 10));
        r
    }
}

/// Decimal digits never hold a character that is not a digit.
pub proof fn lemma_digits_without(s: Seq<char>, sep: char)
    requires
        all_digits(s),
        !is_digit(sep),
    ensures
        !s.contains(sep),
{
    if s.contains(sep) {
        let k = choose|k: int| 0 <= k < s.len() && s[k] == sep;
        assert(is_digit(s[k]));
    }
}

/// Decimal text reads back as the number it was made from.
pub proof fn lemma_decimal_round_trip(n: nat)
    ensures
        decimal_value(decimal_digits(n)) == Some(n),
        all_digits(decimal_digits(n)),
        decimal_digits(n).len() > 0,
        decimal_digits(n)[0] != '+',
    decreases n,
{
    let s = decimal_digits(n);
    if n < 10 {
        assert(s.drop_last() =~= Seq::<char>::empty());
        assert(digits_value(Seq::<char>::empty()) == 0);
        assert(s.last() == digit_char(n));
        assert(digit_value(digit_char(n)) == n);
        assert(digits_value(s) == n);
    } else {
        lemma_decimal_round_trip(n / 10);
        assert(s.drop_last() =~= decimal_digits(n / 10));
        assert(digit_value(digit_char(n % 10)) == n % 10);
        assert(digits_value(s) == n);
        assert(s[0] == decimal_digits(n / 10)[0]);
    }
    assert(unsigned_digits(s) == s);
}

} // verus!
