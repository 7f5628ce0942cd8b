use vstd::prelude::*;

verus! {

/// The decimal digit character for `d` (0 to 9).
pub open spec fn digit_char(d: int) -> char {
    if d == 0 { '0' }
    else if d == 1 { '1' }
    else if d == 2 { '2' }
    else if d == 3 { '3' }
    else if d == 4 { '4' }
    else if d == 5 { '5' }
    else if d == 6 { '6' }
    else if d == 7 { '7' }
    else if d == 8 { '8' }
    else { '9' }
}

/// The decimal text of a natural number, as `Display` writes it.
pub open spec fn dec(n: nat) -> Seq<char>
    decreases n,
{
    if n < 10 {
        seq![digit_char(n as int)]
    } else {
        dec(n / 10).push(digit_char((n % 10) as int))
    }
}

/// The decimal text of an integer, with a leading `-` when negative.
pub open spec fn dec_int(n: int) -> Seq<char> {
    if n < 0 {
        seq!['-'] + dec((-n) as nat)
    } else {
        dec(n as nat)
    }
}

/// A number written with at least two digits, zero-padded (`{:02}`).
pub open spec fn pad2(n: nat) -> Seq<char> {
    if n < 10 {
        seq!['0'] + dec(n)
    } else {
        dec(n)
    }
}

fn digit_of(d: u64) -> (c: char)
    requires
        d < 10,
    ensures
        c == digit_char(d as int),
{
    if d == 0 { '0' }
    else if d == 1 { '1' }
    else if d == 2 { '2' }
    else if d == 3 { '3' }
    else if d == 4 { '4' }
    else if d == 5 { '5' }
    else if d == 6 { '6' }
    else if d == 7 { '7' }
    else if d == 8 { '8' }
    else { '9' }
}

/// Appends the decimal text of `n`.
pub fn push_dec(s: &mut String, n: u64)
    ensures
        final(s)@ == old(s)@ + dec(n as nat),
    decreases n,
{
    if n >= 10 {
        push_dec(s, n / 10);
    }
    let c = digit_of(n % 10);
    s.push(c);
    proof {
        if n >= 10 {
            assert(dec(n as nat) == dec((n / 10) as nat).push(digit_char((n % 10) as int)));
        }
    }
    assert(s@ =~= old(s)@ + dec(n as nat));
}

/// Appends the decimal text of a signed number.
pub fn push_dec_signed(s: &mut String, n: i64)
    ensures
        final(s)@ == old(s)@ + dec_int(n as int),
{
    if n < 0 {
        s.push('-');
        let m: u64 = (-(n as i128)) as u64;
        push_dec(s, m);
        assert(s@ =~= old(s)@ + dec_int(n as int));
    } else {
        push_dec(s, n as u64);
    }
}

/// Appends `n` zero-padded to at least two digits.
pub fn push_pad2(s: &mut String, n: u64)
    ensures
        final(s)@ == old(s)@ + pad2(n as nat),
{
    if n < 10 {
        s.push('0');
    }
    push_dec(s, n);
    assert(s@ =~= old(s)@ + pad2(n as nat));
}

/// The decimal text of an unsigned number (`u64::to_string`).
pub fn u64_to_string(n: u64) -> (r: String)
    ensures
        r@ == dec(n as nat),
{
    let mut s = String::new();
    push_dec(&mut s, n);
    assert(s@ =~= dec(n as nat));
    s
}

/// The value of a character as a digit in the given radix (`char::to_digit`).
pub open spec fn digit_value(c: char, radix: nat) -> Option<nat> {
    let u = c as u32;
    let v: int = if 0x30 <= u && u <= 0x39 {
        u - 0x30
    } else if 0x61 <= u && u <= 0x7a {
        u - 0x61 + 10
    } else if 0x41 <= u && u <= 0x5a {
        u - 0x41 + 10
    } else {
        99
    };
    if v < radix { Some(v as nat) } else { None }
}

/// Every character is a digit in the radix.
pub open spec fn all_digits(s: Seq<char>, radix: nat) -> bool {
    forall|i: int| 0 <= i < s.len() ==> digit_value(#[trigger] s[i], radix) is Some
}

/// The number that a run of digits denotes.
pub open spec fn digits_value(s: Seq<char>, radix: nat) -> nat
    decreases s.len(),
{
    if s.len() == 0 {
        0
    } else {
        digits_value(s.drop_last(), radix) * radix + digit_value(s.last(), radix).unwrap()
    }
}

/// What `from_str_radix` gives for an unsigned type whose largest value is `max`:
/// an optional `+`, then at least one digit, and a value no larger than `max`.
pub open spec fn parse_unsigned(s: Seq<char>, radix: nat, max: nat) -> Option<nat> {
    let body = if s.len() > 0 && s[0] == '+' { s.drop_first() } else { s };
    if body.len() > 0 && all_digits(body, radix) && digits_value(body, radix) <= max {
        Some(digits_value(body, radix))
    } else {
        None
    }
}

/// What `str::parse::<i32>` gives: an optional sign, then at least one decimal
/// digit, and a value within the range of `i32`.
pub open spec fn parse_i32(s: Seq<char>) -> Option<int> {
    if s.len() > 0 && s[0] == '-' {
        let body = s.drop_first();
        if body.len() > 0 && all_digits(body, 10) && digits_value(body, 10) <= 0x8000_0000 {
            Some(-(digits_value(body, 10) as int))
        } else {
            None
        }
    } else {
        match parse_unsigned(s, 10, 0x7fff_ffff) {
            Some(v) => Some(v as int),
            None => None,
        }
    }
}

proof fn lemma_digits_value_mono(s: Seq<char>, k: int, radix: nat)
    requires
        0 <= k <= s.len(),
        radix >= 1,
        all_digits(s, radix),
    ensures
        digits_value(s.take(k), radix) <= digits_value(s, radix),
    decreases s.len() - k,
{
    if k < s.len() {
        lemma_digits_value_mono(s, k + 1, radix);
        let t = s.take(k + 1);
        assert(t.drop_last() =~= s.take(k));
        assert(t.last() == s[k]);
        assert(digit_value(s[k], radix) is Some);
        let a = digits_value(s.take(k), radix);
        assert(a * radix >= a) by (nonlinear_arith)
            requires
                radix >= 1,
        ;
    } else {
        assert(s.take(k) =~= s);
    }
}

fn exec_digit_value(c: char, radix: u32) -> (r: Option<u32>)
    requires
        2 <= radix <= 36,
    ensures
        r is Some <==> digit_value(c, radix as nat) is Some,
        r is Some ==> r->0 as nat == digit_value(c, radix as nat)->0,
        r is Some ==> r->0 < radix,
{
    let u = c as u32;
    let v: u32 = if 0x30 <= u && u <= 0x39 {
        u - 0x30
    } else if 0x61 <= u && u <= 0x7a {
        u - 0x61 + 10
    } else if 0x41 <= u && u <= 0x5a {
        u - 0x41 + 10
    } else {
        99
    };
    if v < radix { Some(v) } else { None }
}

/// Reads a run of digits (at least one) as a number no larger than `max`.
fn parse_digits(s: &str, start: usize, radix: u32, max: u64) -> (r: Option<u64>)
    requires
        2 <= radix <= 36,
        start <= s@.len(),
    ensures
        ({
            let body = s@.skip(start as int);
            r == if body.len() > 0 && all_digits(body, radix as nat) && digits_value(body, radix as nat) <= max {
                Some(digits_value(body, radix as nat) as u64)
            } else {
                None::<u64>
            }
        }),
{
    let n = s.unicode_len();
    let ghost body = s@.skip(start as int);
    if start == n {
        return None;
    }
    let mut i: usize = start;
    let mut value: u64 = 0;
    proof {
        assert(body.take(0) =~= Seq::<char>::empty());
    }
    while i < n
        invariant
            n == s@.len(),
            start < n,
            start <= i <= n,
            2 <= radix <= 36,
            body == s@.skip(start as int),
            all_digits(body.take(i - start), radix as nat),
            value as nat == digits_value(body.take(i - start), radix as nat),
            value <= max,
        decreases n - i,
    {
        let c = s.get_char(i);
        let d = exec_digit_value(c, radix);
        let ghost k: int = i - start;
        assert(body[k] == c);
        match d {
            None => {
                proof {
                    assert(digit_value(body[k], radix as nat) is None);
                }
                return None;
            },
            Some(dv) => {
                assert((value as u128) * (radix as u128) <= 0xffff_ffff_ffff_ffffu128 * 36) by (nonlinear_arith)
                    requires
                        value <= 0xffff_ffff_ffff_ffffu64,
                        radix <= 36,
                ;
                let next: u128 = (value as u128) * (radix as u128) + (dv as u128);
                proof {
                    let t = body.take(k + 1);
                    assert(t.drop_last() =~= body.take(k));
                    assert(t.last() == c);
                    assert(all_digits(t, radix as nat));
                    assert(next as nat == digits_value(t, radix as nat));
                }
                if next > max as u128 {
                    proof {
                        let t = body.take(k + 1);
                        if all_digits(body, radix as nat) {
                            lemma_digits_value_mono(body, k + 1, radix as nat);
                        }
                    }
                    return None;
                }
                value = next as u64;
                i = i + 1;
            },
        }
    }
    proof {
        assert(body.take(n - start) =~= body);
    }
    Some(value)
}

/// `u64::from_str_radix` restricted to values no larger than `max`; this is how
/// the unsigned integer types (`u32`, `usize`, `u64`) parse text.
pub fn parse_unsigned_exec(s: &str, radix: u32, max: u64) -> (r: Option<u64>)
    requires
        2 <= radix <= 36,
    ensures
        r is Some <==> parse_unsigned(s@, radix as nat, max as nat) is Some,
        r is Some ==> r->0 as nat == parse_unsigned(s@, radix as nat, max as nat)->0,
{
    let n = s.unicode_len();
    if n > 0 && s.get_char(0) == '+' {
        proof {
            assert(s@.skip(1) =~= s@.drop_first());
        }
        parse_digits(s, 1, radix, max)
    } else {
        proof {
            assert(s@.skip(0) =~= s@);
        }
        parse_digits(s, 0, radix, max)
    }
}

/// `str::parse::<i32>`.
pub fn parse_i32_exec(s: &str) -> (r: Option<i32>)
    ensures
        r is Some <==> parse_i32(s@) is Some,
        r is Some ==> r->0 as int == parse_i32(s@)->0,
{
    let n = s.unicode_len();
    if n > 0 && s.get_char(0) == '-' {
        proof {
            assert(s@.skip(1) =~= s@.drop_first());
        }
        match parse_digits(s, 1, 10, 0x8000_0000) {
            Some(v) => Some((-(v as i64)) as i32),
            None => None,
        }
    } else {
        match parse_unsigned_exec(s, 10, 0x7fff_ffff) {
            Some(v) => Some(v as i32),
            None => None,
        }
    }
}


/// Decimal text is ASCII.
pub proof fn lemma_dec_ascii(n: nat)
    ensures
        vstd::utf8::is_ascii_chars(dec(n)),
    decreases n,
{
    if n >= 10 {
        lemma_dec_ascii(n / 10);
        let d = dec(n / 10);
        let c = digit_char((n % 10) as int);
        assert forall|i: int| 0 <= i < d.push(c).len() implies '\0' <= #[trigger] d.push(c)[i] <= '\u{7f}' by {
            if i < d.len() {
                assert(d.push(c)[i] == d[i]);
            }
        }
    } else {
        let s = dec(n);
        assert(s[0] == digit_char(n as int));
    }
}

/// Signed decimal text is ASCII.
pub proof fn lemma_dec_int_ascii(n: int)
    ensures
        vstd::utf8::is_ascii_chars(dec_int(n)),
{
    if n < 0 {
        lemma_dec_ascii((-n) as nat);
        let d = dec((-n) as nat);
        let s = seq!['-'] + d;
        assert forall|i: int| 0 <= i < s.len() implies '\0' <= #[trigger] s[i] <= '\u{7f}' by {
            if i > 0 {
                assert(s[i] == d[i - 1]);
            }
        }
    } else {
        lemma_dec_ascii(n as nat);
    }
}


proof fn lemma_digit_char_value(d: int)
    requires
        0 <= d < 10,
    ensures
        digit_value(digit_char(d), 10) == Some(d as nat),
{
}

/// Decimal text consists of digits and denotes the number.
pub proof fn lemma_dec_digits(n: nat)
    ensures
        dec(n).len() > 0,
        all_digits(dec(n), 10),
        digits_value(dec(n), 10) == n,
        digit_value(dec(n)[0], 10) is Some,
    decreases n,
{
    if n < 10 {
        lemma_digit_char_value(n as int);
        assert(dec(n).drop_last() =~= Seq::<char>::empty());
        assert(dec(n).last() == digit_char(n as int));
        assert(digits_value(Seq::<char>::empty(), 10) == 0);
        assert(digits_value(dec(n), 10) == digits_value(dec(n).drop_last(), 10) * 10 + n);
    } else {
        lemma_dec_digits(n / 10);
        lemma_digit_char_value((n % 10) as int);
        let d = dec(n / 10);
        let s = dec(n);
        assert(s.drop_last() =~= d);
        assert(s.last() == digit_char((n % 10) as int));
        assert(s[0] == d[0]);
        assert((n / 10) * 10 + n % 10 == n);
        assert(digits_value(s, 10) == digits_value(d, 10) * 10 + (n % 10));
        assert forall|i: int| 0 <= i < s.len() implies digit_value(#[trigger] s[i], 10) is Some by {
            if i < d.len() {
                assert(s[i] == d[i]);
            }
        }
    }
}

/// Numbers written in decimal read back as themselves: `parse` undoes `to_string`.
pub proof fn law_decimal_round_trip(n: nat, max: nat)
    requires
        n <= max,
    ensures
        parse_unsigned(dec(n), 10, max) == Some(n),
{
    lemma_dec_digits(n);
    assert(dec(n)[0] != '+');
}

} // verus!
