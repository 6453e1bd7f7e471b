//! Small text utilities: decimal parsing of numeric reply fields and
//! query-pair URL assembly.

use vstd::prelude::*;

verus! {

/// Relies on String::push: it appends exactly the given character.
#[verifier::external_body]
pub fn push_char(s: &mut String, c: char)
    ensures
        final(s)@ == old(s)@.push(c),
{
    s.push(c);
}

/// True when the character is a decimal digit.
pub open spec fn spec_is_digit(c: char) -> bool {
    48 <= c as int <= 57
}

/// True when every character of the sequence is a decimal digit.
pub open spec fn spec_all_digits(s: Seq<char>) -> bool {
    forall|j: int| 0 <= j < s.len() ==> spec_is_digit(#[trigger] s[j])
}

/// The numeric value of a digit character.
pub open spec fn spec_digit_val(c: char) -> int {
    c as int - 48
}

/// The value of a digit sequence read as a decimal numeral.
pub open spec fn spec_dec_value(s: Seq<char>) -> int
    decreases s.len(),
{
    if s.len() == 0 {
        0
    } else {
        spec_dec_value(s.drop_last()) * 10 + spec_digit_val(s.last())
    }
}

proof fn lemma_dec_value_nonneg(s: Seq<char>)
    requires
        spec_all_digits(s),
    ensures
        spec_dec_value(s) >= 0,
    decreases s.len(),
{
    if s.len() > 0 {
        lemma_dec_value_nonneg(s.drop_last());
        assert(spec_dec_value(s.drop_last()) * 10 >= 0) by (nonlinear_arith)
            requires
                spec_dec_value(s.drop_last()) >= 0,
        ;
    }
}

proof fn lemma_dec_value_extend(s: Seq<char>, i: int)
    requires
        spec_all_digits(s),
        0 <= i <= s.len(),
    ensures
        spec_dec_value(s) >= spec_dec_value(s.subrange(0, i)),
    decreases s.len() - i,
{
    if i == s.len() {
        assert(s.subrange(0, i) =~= s);
    } else {
        lemma_dec_value_extend(s, i + 1);
        let t = s.subrange(0, i + 1);
        assert(spec_all_digits(t));
        assert(t.drop_last() =~= s.subrange(0, i));
        lemma_dec_value_nonneg(s.subrange(0, i));
        assert(spec_dec_value(t) >= spec_dec_value(s.subrange(0, i))) by (nonlinear_arith)
            requires
                spec_dec_value(t) == spec_dec_value(s.subrange(0, i)) * 10 + spec_digit_val(
                    t.last(),
                ),
                spec_dec_value(s.subrange(0, i)) >= 0,
                spec_digit_val(t.last()) >= 0,
        ;
    }
}

/// Read a decimal numeral. Returns its value exactly when the text is a
/// nonempty run of digits whose value fits; anything else is rejected.
pub fn parse_u64(s: &str) -> (r: Option<u64>)
    ensures
        ({
            let v = spec_dec_value(s@);
            if s@.len() > 0 && spec_all_digits(s@) && v <= u64::MAX {
                r matches Some(x) && x == v
            } else {
                r is None
            }
        }),
{
    let n: usize = s.unicode_len();
    if n == 0 {
        return None;
    }
    let mut acc: u64 = 0;
    let mut i: usize = 0;
    while i < n
        invariant
            i <= n,
            n == s@.len(),
            spec_all_digits(s@.subrange(0, i as int)),
            acc == spec_dec_value(s@.subrange(0, i as int)),
        decreases n - i,
    {
        let c = s.get_char(i);
        let code: u32 = c as u32;
        if code < 48 || code > 57 {
            proof {
                assert(!spec_is_digit(s@[i as int]));
            }
            return None;
        }
        let d: u64 = (code - 48) as u64;
        let ghost pre = s@.subrange(0, i as int);
        let ghost cur = s@.subrange(0, i + 1);
        proof {
            assert(cur.drop_last() =~= pre);
            assert(spec_dec_value(cur) == spec_dec_value(pre) * 10 + spec_digit_val(cur.last()));
        }
        match acc.checked_mul(10) {
            Some(m) => {
                match m.checked_add(d) {
                    Some(next) => {
                        acc = next;
                    },
                    None => {
                        proof {
                            if spec_all_digits(s@) {
                                lemma_dec_value_extend(s@, i + 1);
                                assert(s@.subrange(0, s@.len() as int) =~= s@);
                            }
                        }
                        return None;
                    },
                }
            },
            None => {
                proof {
                    if spec_all_digits(s@) {
                        lemma_dec_value_extend(s@, i + 1);
                        assert(spec_dec_value(cur) >= spec_dec_value(pre) * 10) by (nonlinear_arith)
                            requires
                                spec_dec_value(cur) == spec_dec_value(pre) * 10 + spec_digit_val(
                                    cur.last(),
                                ),
                                spec_digit_val(cur.last()) >= 0,
                        ;
                        assert(s@.subrange(0, s@.len() as int) =~= s@);
                    }
                }
                return None;
            },
        }
        i = i + 1;
    }
    proof {
        assert(s@.subrange(0, n as int) =~= s@);
    }
    Some(acc)
}

/// The value of a signed decimal numeral: an optional leading minus
/// sign followed by digits.
pub open spec fn spec_signed_value(s: Seq<char>) -> int {
    if s.len() > 0 && s[0] == '-' {
        -spec_dec_value(s.drop_first())
    } else {
        spec_dec_value(s)
    }
}

/// True when the text is a well-formed signed decimal numeral.
pub open spec fn spec_is_signed_numeral(s: Seq<char>) -> bool {
    if s.len() > 0 && s[0] == '-' {
        s.len() > 1 && spec_all_digits(s.drop_first())
    } else {
        s.len() > 0 && spec_all_digits(s)
    }
}

/// Read a signed decimal numeral whose magnitude fits in the
/// nonnegative half of the type; anything else is rejected.
pub fn parse_i64(s: &str) -> (r: Option<i64>)
    ensures
        ({
            let v = spec_signed_value(s@);
            if spec_is_signed_numeral(s@) && -i64::MAX <= v <= i64::MAX {
                r matches Some(x) && x == v
            } else {
                r is None
            }
        }),
{
    let n: usize = s.unicode_len();
    if n == 0 {
        return None;
    }
    if s.get_char(0) == '-' {
        let digits = s.substring_char(1, n);
        proof {
            assert(digits@ =~= s@.drop_first());
        }
        match parse_u64(digits) {
            Some(mag) => {
                if mag <= i64::MAX as u64 {
                    Some(-(mag as i64))
                } else {
                    proof {
                        if spec_dec_value(s@.drop_first()) <= u64::MAX {
                            assert(spec_dec_value(s@.drop_first()) == mag);
                        } else {
                            assert(spec_dec_value(s@.drop_first()) > u64::MAX);
                        }
                    }
                    None
                }
            },
            None => None,
        }
    } else {
        match parse_u64(s) {
            Some(mag) => {
                if mag <= i64::MAX as u64 {
                    Some(mag as i64)
                } else {
                    None
                }
            },
            None => {
                proof {
                    if spec_all_digits(s@) && spec_dec_value(s@) > u64::MAX {
                        lemma_dec_value_nonneg(s@);
                    }
                }
                None
            },
        }
    }
}

/// The value of a digit sequence read least-significant first.
pub open spec fn spec_lsb_value(s: Seq<char>) -> int
    decreases s.len(),
{
    if s.len() == 0 {
        0
    } else {
        spec_digit_val(s[0]) + 10 * spec_lsb_value(s.drop_first())
    }
}

/// Ten to the given power.
pub open spec fn spec_pow10(n: nat) -> int
    decreases n,
{
    if n == 0 {
        1
    } else {
        10 * spec_pow10((n - 1) as nat)
    }
}

proof fn lemma_lsb_push(s: Seq<char>, c: char)
    ensures
        spec_lsb_value(s.push(c)) == spec_lsb_value(s) + spec_digit_val(c) * spec_pow10(s.len()),
    decreases s.len(),
{
    if s.len() == 0 {
        assert(s.push(c)[0] == c);
        assert(s.push(c).drop_first() =~= Seq::<char>::empty());
        assert(spec_lsb_value(Seq::<char>::empty()) == 0);
        assert(spec_pow10(0) == 1);
        assert(spec_digit_val(c) * 1 == spec_digit_val(c)) by (nonlinear_arith);
    } else {
        lemma_lsb_push(s.drop_first(), c);
        assert(s.push(c).drop_first() =~= s.drop_first().push(c));
        assert(spec_lsb_value(s.push(c)) == spec_digit_val(s[0]) + 10 * spec_lsb_value(
            s.drop_first().push(c),
        ));
        assert(spec_pow10(s.len()) == 10 * spec_pow10((s.len() - 1) as nat));
        assert(10 * (spec_lsb_value(s.drop_first()) + spec_digit_val(c) * spec_pow10(
            s.drop_first().len(),
        )) == 10 * spec_lsb_value(s.drop_first()) + spec_digit_val(c) * spec_pow10(s.len()))
            by (nonlinear_arith)
            requires
                spec_pow10(s.len()) == 10 * spec_pow10(s.drop_first().len()),
        ;
    }
}

/// The digit character of a value below ten.
fn digit_char(d: u64) -> (c: char)
    requires
        d < 10,
    ensures
        spec_is_digit(c),
        spec_digit_val(c) == d,
{
    match d {
        0 => '0',
        1 => '1',
        2 => '2',
        3 => '3',
        4 => '4',
        5 => '5',
        6 => '6',
        7 => '7',
        8 => '8',
        _ => '9',
    }
}

/// Render a value as its decimal numeral: digits only, no leading zero,
/// reading back to exactly the value.
pub fn format_u64(v: u64) -> (r: String)
    ensures
        r@.len() > 0,
        spec_all_digits(r@),
        spec_dec_value(r@) == v,
        r@.len() > 1 ==> r@[0] != '0',
{
    if v == 0 {
        let r = "0".to_owned();
        proof {
            reveal_strlit("0");
            assert(r@.drop_last() =~= Seq::<char>::empty());
            assert('0' as int == 48);
            assert(spec_digit_val('0') == 0);
            assert(spec_dec_value(Seq::<char>::empty()) == 0);
        }
        return r;
    }
    let mut digits: Vec<char> = Vec::new();
    let mut x: u64 = v;
    while x > 0
        invariant
            spec_all_digits(digits@),
            spec_lsb_value(digits@) + x * spec_pow10(digits@.len()) == v,
            x == 0 ==> digits@.len() > 0 && spec_digit_val(digits@.last()) != 0,
        decreases x,
    {
        let d: u64 = x % 10;
        let x2: u64 = x / 10;
        let c = digit_char(d);
        proof {
            lemma_lsb_push(digits@, c);
            assert(spec_pow10(digits@.len() + 1) == 10 * spec_pow10(digits@.len()));
            assert(x * spec_pow10(digits@.len()) == d * spec_pow10(digits@.len()) + x2 * (10
                * spec_pow10(digits@.len()))) by (nonlinear_arith)
                requires
                    x == 10 * x2 + d,
            ;
        }
        digits.push(c);
        x = x2;
    }
    let mut r = String::new();
    let mut i: usize = digits.len();
    proof {
        assert(digits@.take(digits@.len() as int) =~= digits@);
    }
    while i > 0
        invariant
            i <= digits@.len(),
            spec_all_digits(digits@),
            spec_all_digits(r@),
            r@.len() == digits@.len() - i,
            spec_dec_value(r@) * spec_pow10(i as nat) + spec_lsb_value(digits@.take(i as int))
                == v,
            digits@.len() > 0 && spec_digit_val(digits@.last()) != 0,
            r@.len() > 0 ==> r@[0] == digits@.last(),
        decreases i,
    {
        let c = digits[i - 1];
        let ghost old_r = r@;
        push_char(&mut r, c);
        proof {
            assert(r@.drop_last() =~= old_r);
            assert(digits@.take(i as int).drop_last() =~= digits@.take(i - 1));
            lemma_lsb_push(digits@.take(i - 1), c);
            assert(digits@.take(i as int) =~= digits@.take(i - 1).push(c));
            assert((spec_dec_value(old_r) * 10 + spec_digit_val(c)) * spec_pow10((i - 1) as nat)
                == spec_dec_value(old_r) * spec_pow10(i as nat) + spec_digit_val(c) * spec_pow10(
                (i - 1) as nat,
            )) by (nonlinear_arith)
                requires
                    spec_pow10(i as nat) == 10 * spec_pow10((i - 1) as nat),
            ;
        }
        i = i - 1;
    }
    proof {
        assert(digits@.take(0) =~= Seq::<char>::empty());
        assert(spec_pow10(0) == 1);
        assert(spec_dec_value(r@) * 1 == spec_dec_value(r@)) by (nonlinear_arith);
        if r@.len() > 1 {
            assert(spec_digit_val(r@[0]) != 0);
        }
    }
    r
}


/// True when the text renders the signed value: its decimal digits,
/// behind a minus sign for a negative value.
pub open spec fn spec_renders_i64(s: Seq<char>, v: int) -> bool {
    if v >= 0 {
        s.len() > 0 && spec_all_digits(s) && spec_dec_value(s) == v
    } else {
        s.len() >= 2 && s[0] == '-' && spec_all_digits(s.subrange(1, s.len() as int))
            && spec_dec_value(s.subrange(1, s.len() as int)) == 0 - v
    }
}

/// Render a signed value as its decimal numeral: a minus sign before
/// the magnitude for negative values.
pub fn format_i64(v: i64) -> (r: String)
    ensures
        spec_renders_i64(r@, v as int),
{
    if v >= 0 {
        format_u64(v as u64)
    } else {
        let wide: i128 = v as i128;
        let magnitude: u64 = (0 - wide) as u64;
        let digits = format_u64(magnitude);
        let mut r = "-".to_owned();
        proof {
            reveal_strlit("-");
        }
        r.append(digits.as_str());
        proof {
            assert(r@.subrange(1, r@.len() as int) =~= digits@);
        }
        r
    }
}

/// True when a character is seven-bit.
pub open spec fn spec_seven_bit(c: char) -> bool {
    (c as int) < 128
}

/// True when every character of the sequence is seven-bit.
pub open spec fn spec_all_seven_bit(s: Seq<char>) -> bool {
    forall|j: int| 0 <= j < s.len() ==> spec_seven_bit(#[trigger] s[j])
}

/// True when a path character rides unencoded: letters, digits,
/// `- _ . ~` and the path separator.
pub open spec fn spec_is_unreserved(c: char) -> bool {
    ||| 65 <= c as int <= 90
    ||| 97 <= c as int <= 122
    ||| 48 <= c as int <= 57
    ||| c == '-'
    ||| c == '_'
    ||| c == '.'
    ||| c == '~'
    ||| c == '/'
}

/// The uppercase hexadecimal digit of a value below sixteen.
pub open spec fn spec_hex_digit(n: int) -> char {
    if n == 0 {
        '0'
    } else if n == 1 {
        '1'
    } else if n == 2 {
        '2'
    } else if n == 3 {
        '3'
    } else if n == 4 {
        '4'
    } else if n == 5 {
        '5'
    } else if n == 6 {
        '6'
    } else if n == 7 {
        '7'
    } else if n == 8 {
        '8'
    } else if n == 9 {
        '9'
    } else if n == 10 {
        'A'
    } else if n == 11 {
        'B'
    } else if n == 12 {
        'C'
    } else if n == 13 {
        'D'
    } else if n == 14 {
        'E'
    } else {
        'F'
    }
}

/// What one path character encodes to: itself when unreserved, else a
/// percent escape of its code.
pub open spec fn spec_encode_char(c: char) -> Seq<char> {
    if spec_is_unreserved(c) {
        seq![c]
    } else {
        seq!['%', spec_hex_digit(c as int / 16), spec_hex_digit(c as int % 16)]
    }
}

/// The percent-encoded form of a seven-bit path.
pub open spec fn spec_percent_encode(s: Seq<char>) -> Seq<char>
    decreases s.len(),
{
    if s.len() == 0 {
        Seq::<char>::empty()
    } else {
        spec_encode_char(s[0]) + spec_percent_encode(s.drop_first())
    }
}

proof fn lemma_percent_encode_snoc(s: Seq<char>, c: char)
    ensures
        spec_percent_encode(s.push(c)) == spec_percent_encode(s) + spec_encode_char(c),
    decreases s.len(),
{
    if s.len() == 0 {
        assert(s.push(c)[0] == c);
        assert(s.push(c).drop_first() =~= Seq::<char>::empty());
        assert(spec_percent_encode(Seq::<char>::empty()) == Seq::<char>::empty());
        assert(spec_percent_encode(s.push(c)) == spec_encode_char(c) + spec_percent_encode(
            Seq::<char>::empty(),
        ));
        assert(spec_percent_encode(s.push(c)) =~= spec_percent_encode(s) + spec_encode_char(c));
    } else {
        lemma_percent_encode_snoc(s.drop_first(), c);
        assert(s.push(c).drop_first() =~= s.drop_first().push(c));
        assert(s.push(c)[0] == s[0]);
        assert(spec_percent_encode(s.push(c)) == spec_encode_char(s[0]) + spec_percent_encode(
            s.drop_first().push(c),
        ));
        assert(spec_percent_encode(s) == spec_encode_char(s[0]) + spec_percent_encode(
            s.drop_first(),
        ));
        assert(spec_percent_encode(s.push(c)) =~= spec_percent_encode(s) + spec_encode_char(c));
    }
}

/// The uppercase hexadecimal digit character of a value below sixteen.
fn hex_digit_char(n: u32) -> (c: char)
    requires
        n < 16,
    ensures
        c == spec_hex_digit(n as int),
{
    match n {
        0 => '0',
        1 => '1',
        2 => '2',
        3 => '3',
        4 => '4',
        5 => '5',
        6 => '6',
        7 => '7',
        8 => '8',
        9 => '9',
        10 => 'A',
        11 => 'B',
        12 => 'C',
        13 => 'D',
        14 => 'E',
        _ => 'F',
    }
}

/// Percent-encode a seven-bit path: unreserved characters and slashes
/// ride as they are, everything else as an uppercase percent escape.
/// Text with characters beyond seven bits is refused.
pub fn percent_encode_path(s: &str) -> (r: Option<String>)
    ensures
        spec_all_seven_bit(s@) ==> (r matches Some(enc) && enc@ == spec_percent_encode(s@)),
        !spec_all_seven_bit(s@) ==> r is None,
{
    let n: usize = s.unicode_len();
    let mut r = String::new();
    let mut i: usize = 0;
    while i < n
        invariant
            i <= n,
            n == s@.len(),
            forall|j: int| 0 <= j < i ==> spec_seven_bit(#[trigger] s@[j]),
            r@ == spec_percent_encode(s@.subrange(0, i as int)),
        decreases n - i,
    {
        let c = s.get_char(i);
        let code: u32 = c as u32;
        if code >= 128 {
            return None;
        }
        let ghost pre = s@.subrange(0, i as int);
        proof {
            assert(s@.subrange(0, i + 1) =~= pre.push(c));
            lemma_percent_encode_snoc(pre, c);
        }
        let unreserved = (code >= 65 && code <= 90) || (code >= 97 && code <= 122) || (code >= 48
            && code <= 57) || c == '-' || c == '_' || c == '.' || c == '~' || c == '/';
        if unreserved {
            push_char(&mut r, c);
        } else {
            push_char(&mut r, '%');
            push_char(&mut r, hex_digit_char(code / 16));
            push_char(&mut r, hex_digit_char(code % 16));
        }
        i = i + 1;
    }
    proof {
        assert(s@.subrange(0, n as int) =~= s@);
    }
    Some(r)
}

/// True when some character of the sequence equals `c`.
pub open spec fn spec_contains_char(s: Seq<char>, c: char) -> bool {
    exists|j: int| 0 <= j < s.len() && s[j] == c
}

/// Whether the text contains the character.
pub fn str_contains_char(s: &str, c: char) -> (r: bool)
    ensures
        r == spec_contains_char(s@, c),
{
    let n: usize = s.unicode_len();
    let mut i: usize = 0;
    while i < n
        invariant
            i <= n,
            n == s@.len(),
            forall|j: int| 0 <= j < i ==> s@[j] != c,
        decreases n - i,
    {
        if s.get_char(i) == c {
            return true;
        }
        i = i + 1;
    }
    false
}

/// What appending one query pair yields: the key/value pair joined to
/// the URL with `?` for the first pair and `&` afterwards.
pub open spec fn spec_push_query_pair(url: Seq<char>, key: Seq<char>, value: Seq<char>) -> Seq<
    char,
> {
    let sep: char = if spec_contains_char(url, '?') {
        '&'
    } else {
        '?'
    };
    url + seq![sep] + key + seq!['='] + value
}

/// Append one `key=value` query pair to a URL, choosing `?` or `&` by
/// whether the URL already carries a query.
pub fn push_query_pair(url: &str, key: &str, value: &str) -> (r: String)
    ensures
        r@ == spec_push_query_pair(url@, key@, value@),
{
    let mut r = url.to_owned();
    if str_contains_char(url, '?') {
        push_char(&mut r, '&');
    } else {
        push_char(&mut r, '?');
    }
    r.append(key);
    push_char(&mut r, '=');
    r.append(value);
    proof {
        assert(r@ =~= spec_push_query_pair(url@, key@, value@));
    }
    r
}

} // verus!
