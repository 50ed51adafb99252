//! Primitives of the JSON wire format.
//!
//! The remote API speaks compact JSON. This module gives the format's
//! building blocks twice: once as specification functions over
//! character sequences (the escape map, quoted strings, fixed
//! literals, optionals, booleans, integers — each with a renderer and
//! a parser at a position), and once as executable functions proved
//! equal to them. The parsers consume a prefix starting at a position
//! and return the denoted value with the next position.

use vstd::prelude::*;

verus! {

// ---------------------------------------------------------------------
// String escaping
// ---------------------------------------------------------------------
/// How one character appears inside a quoted JSON string: the quote,
/// the backslash and the three common control characters are escaped,
/// every other character stands for itself.
pub open spec fn esc_char(c: char) -> Seq<char> {
    if c == '"' {
        seq!['\\', '"']
    } else if c == '\\' {
        seq!['\\', '\\']
    } else if c == '\n' {
        seq!['\\', 'n']
    } else if c == '\r' {
        seq!['\\', 'r']
    } else if c == '\t' {
        seq!['\\', 't']
    } else {
        seq![c]
    }
}

/// The escaped form of a whole string body.
pub open spec fn spec_esc(s: Seq<char>) -> Seq<char>
    decreases s.len(),
{
    if s.len() == 0 {
        Seq::<char>::empty()
    } else {
        esc_char(s[0]) + spec_esc(s.drop_first())
    }
}

/// A string as it appears on the wire: escaped and surrounded by
/// quotes.
pub open spec fn spec_quoted(s: Seq<char>) -> Seq<char> {
    seq!['"'] + spec_esc(s) + seq!['"']
}

/// Escaping distributes over appending one character at the end.
pub proof fn lemma_esc_snoc(s: Seq<char>, c: char)
    ensures
        spec_esc(s.push(c)) == spec_esc(s) + esc_char(c),
    decreases s.len(),
{
    if s.len() == 0 {
        assert(s.push(c)[0] == c);
        assert(s.push(c).drop_first() =~= Seq::<char>::empty());
        assert(spec_esc(s.push(c)) == esc_char(c) + spec_esc(s.push(c).drop_first()));
        assert(spec_esc(s.push(c).drop_first()) == Seq::<char>::empty());
        assert(spec_esc(s) == Seq::<char>::empty());
        assert(esc_char(c) + Seq::<char>::empty() =~= Seq::<char>::empty() + esc_char(c));
    } else {
        assert(s.push(c).drop_first() =~= s.drop_first().push(c));
        assert(s.push(c)[0] == s[0]);
        lemma_esc_snoc(s.drop_first(), c);
        assert(spec_esc(s.push(c)) == esc_char(s[0]) + (spec_esc(s.drop_first()) + esc_char(c)));
        assert(spec_esc(s) == esc_char(s[0]) + spec_esc(s.drop_first()));
        assert(esc_char(s[0]) + (spec_esc(s.drop_first()) + esc_char(c)) =~= (esc_char(s[0])
            + spec_esc(s.drop_first())) + esc_char(c));
    }
}

/// Relies on String::push: appends one character at the end.
#[verifier::external_body]
pub fn push_char(out: &mut String, c: char)
    ensures
        final(out)@ == old(out)@.push(c),
{
    out.push(c);
}

/// Appends the escaped form of `s` to `out`.
pub fn append_escaped(out: &mut String, s: &str)
    ensures
        final(out)@ == old(out)@ + spec_esc(s@),
{
    let ghost orig = out@;
    let n = s.unicode_len();
    let mut i: usize = 0;
    while i < n
        invariant
            i <= n,
            n == s@.len(),
            out@ == orig + spec_esc(s@.subrange(0, i as int)),
        decreases n - i,
    {
        let c = s.get_char(i);
        proof {
            assert(s@.subrange(0, i + 1) =~= s@.subrange(0, i as int).push(s@[i as int]));
            lemma_esc_snoc(s@.subrange(0, i as int), s@[i as int]);
        }
        if c == '"' {
            out.append("\\\"");
            proof {
                reveal_strlit("\\\"");
                assert(("\\\"")@ =~= esc_char('"'));
            }
        } else if c == '\\' {
            out.append("\\\\");
            proof {
                reveal_strlit("\\\\");
                assert(("\\\\")@ =~= esc_char('\\'));
            }
        } else if c == '\n' {
            out.append("\\n");
            proof {
                reveal_strlit("\\n");
                assert(("\\n")@ =~= esc_char('\n'));
            }
        } else if c == '\r' {
            out.append("\\r");
            proof {
                reveal_strlit("\\r");
                assert(("\\r")@ =~= esc_char('\r'));
            }
        } else if c == '\t' {
            out.append("\\t");
            proof {
                reveal_strlit("\\t");
                assert(("\\t")@ =~= esc_char('\t'));
            }
        } else {
            push_char(out, c);
            proof {
                assert(seq![s@[i as int]] =~= esc_char(s@[i as int]));
            }
        }
        proof {
            assert(out@ =~= orig + spec_esc(s@.subrange(0, i + 1)));
        }
        i += 1;
    }
    proof {
        assert(s@.subrange(0, n as int) =~= s@);
    }
}

/// Appends the wire form of the string `s` — quoted and escaped — to
/// `out`.
pub fn append_quoted(out: &mut String, s: &str)
    ensures
        final(out)@ == old(out)@ + spec_quoted(s@),
{
    let ghost orig = out@;
    proof {
        reveal_strlit("\"");
    }
    out.append("\"");
    proof {
        assert(("\"")@ =~= seq!['"']);
    }
    append_escaped(out, s);
    out.append("\"");
    proof {
        assert(out@ =~= orig + spec_quoted(s@));
    }
}

// ---------------------------------------------------------------------
// Fixed literals
// ---------------------------------------------------------------------
/// Whether the fixed text `lit` stands in `s` at position `i`.
pub open spec fn spec_at_lit(s: Seq<char>, i: int, lit: Seq<char>) -> bool {
    0 <= i && i + lit.len() <= s.len() && s.subrange(i, i + lit.len()) == lit
}

/// Consumes the fixed text `lit` at position `i`, or fails.
pub open spec fn spec_parse_lit(s: Seq<char>, i: int, lit: Seq<char>) -> Option<int> {
    if spec_at_lit(s, i, lit) {
        Option::Some(i + lit.len())
    } else {
        Option::None
    }
}

/// Executable counterpart of [`spec_parse_lit`].
pub fn eat_lit(s: &str, n: usize, i: usize, lit: &str) -> (r: Option<usize>)
    requires
        n == s@.len(),
    ensures
        r is Some <==> spec_parse_lit(s@, i as int, lit@) is Some,
        r matches Some(j) ==> spec_parse_lit(s@, i as int, lit@) == Some(j as int),
{
    let m = lit.unicode_len();
    if i > n || m > n - i {
        return None;
    }
    let mut k: usize = 0;
    while k < m
        invariant
            k <= m,
            i + m <= n,
            n == s@.len(),
            m == lit@.len(),
            forall|t: int| 0 <= t < k ==> s@[i + t] == lit@[t],
        decreases m - k,
    {
        if s.get_char(i + k) != lit.get_char(k) {
            proof {
                assert(s@.subrange(i as int, i + m) != lit@) by {
                    assert(s@.subrange(i as int, i + m)[k as int] == s@[i + k]);
                }
            }
            return None;
        }
        k += 1;
    }
    proof {
        assert(s@.subrange(i as int, i + m) =~= lit@);
    }
    Some(i + m)
}

// ---------------------------------------------------------------------
// Quoted strings
// ---------------------------------------------------------------------
/// Parses the body of a quoted string starting just after the opening
/// quote: unescapes until the closing quote, which it consumes.
pub open spec fn spec_parse_strbody(s: Seq<char>, i: int) -> Option<(Seq<char>, int)>
    decreases s.len() - i,
{
    if i < 0 || i >= s.len() {
        Option::None
    } else if s[i] == '"' {
        Option::Some((Seq::<char>::empty(), i + 1))
    } else if s[i] == '\\' {
        if i + 1 < s.len() {
            let e = s[i + 1];
            let d: Option<char> = if e == '"' {
                Option::Some('"')
            } else if e == '\\' {
                Option::Some('\\')
            } else if e == 'n' {
                Option::Some('\n')
            } else if e == 'r' {
                Option::Some('\r')
            } else if e == 't' {
                Option::Some('\t')
            } else {
                Option::None
            };
            match d {
                Option::Some(dc) => match spec_parse_strbody(s, i + 2) {
                    Option::Some((t, j)) => Option::Some((seq![dc] + t, j)),
                    Option::None => Option::None,
                },
                Option::None => Option::None,
            }
        } else {
            Option::None
        }
    } else {
        match spec_parse_strbody(s, i + 1) {
            Option::Some((t, j)) => Option::Some((seq![s[i]] + t, j)),
            Option::None => Option::None,
        }
    }
}

/// Parses a whole quoted string at position `i`: the opening quote,
/// the escaped body, the closing quote.
pub open spec fn spec_parse_qstr(s: Seq<char>, i: int) -> Option<(Seq<char>, int)> {
    if 0 <= i < s.len() && s[i] == '"' {
        spec_parse_strbody(s, i + 1)
    } else {
        Option::None
    }
}

/// Executable counterpart of [`spec_parse_strbody`].
pub fn take_string_body(s: &str, n: usize, i: usize) -> (r: Option<(String, usize)>)
    requires
        n == s@.len(),
    ensures
        r is Some <==> spec_parse_strbody(s@, i as int) is Some,
        r matches Some(p) ==> spec_parse_strbody(s@, i as int) == Some((p.0@, p.1 as int)),
    decreases n - i,
{
    if i >= n {
        return None;
    }
    let c = s.get_char(i);
    if c == '"' {
        Some((String::new(), i + 1))
    } else if c == '\\' {
        if i + 1 < n {
            let e = s.get_char(i + 1);
            let d: Option<char> = if e == '"' {
                Some('"')
            } else if e == '\\' {
                Some('\\')
            } else if e == 'n' {
                Some('\n')
            } else if e == 'r' {
                Some('\r')
            } else if e == 't' {
                Some('\t')
            } else {
                None
            };
            match d {
                Some(dc) => match take_string_body(s, n, i + 2) {
                    Some(p) => {
                        let mut out = String::new();
                        push_char(&mut out, dc);
                        out.append(p.0.as_str());
                        proof {
                            assert(out@ =~= seq![dc] + p.0@);
                        }
                        Some((out, p.1))
                    },
                    None => None,
                },
                None => None,
            }
        } else {
            None
        }
    } else {
        match take_string_body(s, n, i + 1) {
            Some(p) => {
                let mut out = String::new();
                push_char(&mut out, c);
                out.append(p.0.as_str());
                proof {
                    assert(out@ =~= seq![s@[i as int]] + p.0@);
                }
                Some((out, p.1))
            },
            None => None,
        }
    }
}

/// Executable counterpart of [`spec_parse_qstr`].
pub fn take_qstr(s: &str, n: usize, i: usize) -> (r: Option<(String, usize)>)
    requires
        n == s@.len(),
    ensures
        r is Some <==> spec_parse_qstr(s@, i as int) is Some,
        r matches Some(p) ==> spec_parse_qstr(s@, i as int) == Some((p.0@, p.1 as int)),
{
    if i < n {
        let c = s.get_char(i);
        if c == '"' {
            take_string_body(s, n, i + 1)
        } else {
            None
        }
    } else {
        None
    }
}

// ---------------------------------------------------------------------
// Optional strings: null or a quoted string
// ---------------------------------------------------------------------
/// Renders an optional string field: `null` when absent, the quoted
/// string when present.
pub open spec fn spec_render_opt(o: Option<Seq<char>>) -> Seq<char> {
    match o {
        Option::Some(s) => spec_quoted(s),
        Option::None => "null"@,
    }
}

/// Parses an optional string field at position `i`.
pub open spec fn spec_parse_opt(s: Seq<char>, i: int) -> Option<(Option<Seq<char>>, int)> {
    match spec_parse_lit(s, i, "null"@) {
        Option::Some(j) => Option::Some((Option::<Seq<char>>::None, j)),
        Option::None => match spec_parse_qstr(s, i) {
            Option::Some((v, j)) => Option::Some((Option::Some(v), j)),
            Option::None => Option::None,
        },
    }
}

/// Appends the wire form of an optional string field to `out`.
pub fn append_opt(out: &mut String, o: &Option<String>)
    ensures
        final(out)@ == old(out)@ + spec_render_opt(crate::dto::view_opt_string(*o)),
{
    match o {
        Some(s) => append_quoted(out, s.as_str()),
        None => out.append("null"),
    }
}

/// Executable counterpart of [`spec_parse_opt`].
pub fn take_opt(s: &str, n: usize, i: usize) -> (r: Option<(Option<String>, usize)>)
    requires
        n == s@.len(),
    ensures
        r is Some <==> spec_parse_opt(s@, i as int) is Some,
        r matches Some(p) ==> spec_parse_opt(s@, i as int) == Some((
            crate::dto::view_opt_string(p.0),
            p.1 as int,
        )),
{
    match eat_lit(s, n, i, "null") {
        Some(j) => Some((None, j)),
        None => match take_qstr(s, n, i) {
            Some(p) => Some((Some(p.0), p.1)),
            None => None,
        },
    }
}

// ---------------------------------------------------------------------
// Booleans
// ---------------------------------------------------------------------
/// Renders a boolean.
pub open spec fn spec_render_bool(b: bool) -> Seq<char> {
    if b {
        "true"@
    } else {
        "false"@
    }
}

/// Parses a boolean at position `i`.
pub open spec fn spec_parse_bool(s: Seq<char>, i: int) -> Option<(bool, int)> {
    match spec_parse_lit(s, i, "true"@) {
        Option::Some(j) => Option::Some((true, j)),
        Option::None => match spec_parse_lit(s, i, "false"@) {
            Option::Some(j) => Option::Some((false, j)),
            Option::None => Option::None,
        },
    }
}

/// Appends the wire form of a boolean to `out`.
pub fn append_bool(out: &mut String, b: bool)
    ensures
        final(out)@ == old(out)@ + spec_render_bool(b),
{
    if b {
        out.append("true");
    } else {
        out.append("false");
    }
}

/// Executable counterpart of [`spec_parse_bool`].
pub fn take_bool(s: &str, n: usize, i: usize) -> (r: Option<(bool, usize)>)
    requires
        n == s@.len(),
    ensures
        r is Some <==> spec_parse_bool(s@, i as int) is Some,
        r matches Some(p) ==> spec_parse_bool(s@, i as int) == Some((p.0, p.1 as int)),
{
    match eat_lit(s, n, i, "true") {
        Some(j) => Some((true, j)),
        None => match eat_lit(s, n, i, "false") {
            Some(j) => Some((false, j)),
            None => None,
        },
    }
}

// ---------------------------------------------------------------------
// Integers
// ---------------------------------------------------------------------
/// The digit character of one decimal digit value.
pub open spec fn digit_char(d: int) -> char {
    if d == 0 {
        '0'
    } else if d == 1 {
        '1'
    } else if d == 2 {
        '2'
    } else if d == 3 {
        '3'
    } else if d == 4 {
        '4'
    } else if d == 5 {
        '5'
    } else if d == 6 {
        '6'
    } else if d == 7 {
        '7'
    } else if d == 8 {
        '8'
    } else {
        '9'
    }
}

/// The decimal digit value of a character, if it is one.
pub open spec fn digit_val(c: char) -> Option<int> {
    if c == '0' {
        Option::Some(0int)
    } else if c == '1' {
        Option::Some(1int)
    } else if c == '2' {
        Option::Some(2int)
    } else if c == '3' {
        Option::Some(3int)
    } else if c == '4' {
        Option::Some(4int)
    } else if c == '5' {
        Option::Some(5int)
    } else if c == '6' {
        Option::Some(6int)
    } else if c == '7' {
        Option::Some(7int)
    } else if c == '8' {
        Option::Some(8int)
    } else if c == '9' {
        Option::Some(9int)
    } else {
        Option::None
    }
}

/// The decimal digits of a nonnegative number, most significant first.
pub open spec fn spec_digits(n: nat) -> Seq<char>
    decreases n,
{
    if n < 10 {
        seq![digit_char(n as int)]
    } else {
        spec_digits(n / 10).push(digit_char((n % 10) as int))
    }
}

/// Renders a signed integer in decimal, with a leading minus sign when
/// negative.
pub open spec fn spec_render_int(n: int) -> Seq<char> {
    if n < 0 {
        seq!['-'] + spec_digits((-n) as nat)
    } else {
        spec_digits(n as nat)
    }
}

/// Consumes decimal digits at position `i`, folding them onto `acc`,
/// until the first non-digit; fails if the folded value would not fit
/// a 64-bit magnitude.
pub open spec fn spec_parse_mag(s: Seq<char>, i: int, acc: int) -> Option<(int, int)>
    decreases s.len() - i,
{
    if 0 <= i < s.len() && digit_val(s[i]) is Some {
        let v = acc * 10 + digit_val(s[i])->0;
        if v > u64::MAX as int {
            Option::None
        } else {
            spec_parse_mag(s, i + 1, v)
        }
    } else {
        Option::Some((acc, i))
    }
}

/// Parses a signed decimal integer at position `i`: an optional minus
/// sign, then at least one digit; fails when the value does not fit a
/// signed 64-bit integer.
pub open spec fn spec_parse_int(s: Seq<char>, i: int) -> Option<(int, int)> {
    let neg = 0 <= i < s.len() && s[i] == '-';
    let start = if neg {
        i + 1
    } else {
        i
    };
    if 0 <= start < s.len() && digit_val(s[start]) is Some {
        match spec_parse_mag(s, start, 0) {
            Option::Some((mag, j)) => {
                let value = if neg {
                    -mag
                } else {
                    mag
                };
                if i64::MIN <= value <= i64::MAX {
                    Option::Some((value, j))
                } else {
                    Option::None
                }
            },
            Option::None => Option::None,
        }
    } else {
        Option::None
    }
}

/// Ten to the `k`.
pub open spec fn pow10(k: nat) -> int
    decreases k,
{
    if k == 0 {
        1
    } else {
        10 * pow10((k - 1) as nat)
    }
}

/// The value a digit sequence folds to, left to right, on top of an
/// accumulator.
pub open spec fn seq_digit_val(t: Seq<char>, acc: int) -> int
    decreases t.len(),
{
    if t.len() == 0 {
        acc
    } else {
        seq_digit_val(t.drop_first(), acc * 10 + digit_val(t[0])->0)
    }
}

/// The digit character of a digit value denotes that value.
pub proof fn lemma_digit_char_val(d: int)
    requires
        0 <= d <= 9,
    ensures
        digit_val(digit_char(d)) == Some(d),
{
}

/// The decimal digits of a number are nonempty and all digits.
pub proof fn lemma_digits_wf(n: nat)
    ensures
        spec_digits(n).len() >= 1,
        forall|k: int| 0 <= k < spec_digits(n).len() ==> digit_val(spec_digits(n)[k]) is Some,
    decreases n,
{
    if n < 10 {
        lemma_digit_char_val(n as int);
    } else {
        lemma_digits_wf(n / 10);
        lemma_digit_char_val((n % 10) as int);
        assert forall|k: int| 0 <= k < spec_digits(n).len() implies digit_val(
            spec_digits(n)[k],
        ) is Some by {
            if k < spec_digits(n / 10).len() {
                assert(spec_digits(n)[k] == spec_digits(n / 10)[k]);
            } else {
                assert(spec_digits(n)[k] == digit_char((n % 10) as int));
            }
        }
    }
}

/// Folding one more digit at the end multiplies the folded value by
/// ten and adds that digit.
pub proof fn lemma_seq_digit_val_snoc(t: Seq<char>, c: char, acc: int)
    ensures
        seq_digit_val(t.push(c), acc) == seq_digit_val(t, acc) * 10 + digit_val(c)->0,
    decreases t.len(),
{
    if t.len() == 0 {
        assert(t.push(c)[0] == c);
        assert(t.push(c).drop_first() =~= Seq::<char>::empty());
        assert(seq_digit_val(t.push(c), acc) == seq_digit_val(
            Seq::<char>::empty(),
            acc * 10 + digit_val(c)->0,
        ));
        assert(seq_digit_val(Seq::<char>::empty(), acc * 10 + digit_val(c)->0) == acc * 10
            + digit_val(c)->0);
        assert(seq_digit_val(t, acc) == acc);
    } else {
        assert(t.push(c)[0] == t[0]);
        assert(t.push(c).drop_first() =~= t.drop_first().push(c));
        let acc2 = acc * 10 + digit_val(t[0])->0;
        lemma_seq_digit_val_snoc(t.drop_first(), c, acc2);
        assert(seq_digit_val(t.push(c), acc) == seq_digit_val(t.drop_first().push(c), acc2));
        assert(seq_digit_val(t, acc) == seq_digit_val(t.drop_first(), acc2));
    }
}

/// The digits of a number fold back to that number, scaled onto the
/// accumulator.
pub proof fn lemma_digits_fold(n: nat, acc: int)
    ensures
        seq_digit_val(spec_digits(n), acc) == acc * pow10(spec_digits(n).len() as nat) + n,
    decreases n,
{
    if n < 10 {
        lemma_digit_char_val(n as int);
        let c = digit_char(n as int);
        assert(spec_digits(n) =~= Seq::<char>::empty().push(c));
        lemma_seq_digit_val_snoc(Seq::<char>::empty(), c, acc);
        assert(seq_digit_val(Seq::<char>::empty(), acc) == acc);
        assert(pow10(1) == 10 * pow10(0));
        assert(pow10(0) == 1);
        assert(seq_digit_val(spec_digits(n), acc) == acc * 10 + n);
    } else {
        let c = digit_char((n % 10) as int);
        lemma_digit_char_val((n % 10) as int);
        lemma_digits_fold(n / 10, acc);
        lemma_seq_digit_val_snoc(spec_digits(n / 10), c, acc);
        let lp = spec_digits(n / 10).len() as nat;
        assert(spec_digits(n) == spec_digits(n / 10).push(c));
        assert(spec_digits(n).len() == lp + 1);
        assert(pow10((lp + 1) as nat) == 10 * pow10(lp));
        assert(seq_digit_val(spec_digits(n), acc) == (acc * pow10(lp) + n / 10) * 10 + n % 10);
        assert((acc * pow10(lp) + n / 10) * 10 + n % 10 == acc * (10 * pow10(lp)) + ((n / 10) * 10
            + n % 10)) by (nonlinear_arith);
        assert((n / 10) * 10 + n % 10 == n) by {
            vstd::arithmetic::div_mod::lemma_fundamental_div_mod(n as int, 10);
        }
    }
}

/// A folded digit value never falls below its accumulator.
pub proof fn lemma_seq_digit_val_lb(t: Seq<char>, acc: int)
    requires
        0 <= acc,
        forall|k: int| 0 <= k < t.len() ==> digit_val(t[k]) is Some,
    ensures
        seq_digit_val(t, acc) >= acc,
    decreases t.len(),
{
    if t.len() > 0 {
        assert(digit_val(t[0]) is Some);
        assert(0 <= digit_val(t[0])->0 <= 9);
        assert forall|k: int| 0 <= k < t.drop_first().len() implies digit_val(
            t.drop_first()[k],
        ) is Some by {
            assert(t.drop_first()[k] == t[k + 1]);
        }
        lemma_seq_digit_val_lb(t.drop_first(), acc * 10 + digit_val(t[0])->0);
    }
}

/// Consuming a stretch of digits, bounded by a non-digit or the end,
/// folds them onto the accumulator.
pub proof fn lemma_parse_mag_seq(s: Seq<char>, i: int, j: int, acc: int)
    requires
        0 <= i <= j <= s.len(),
        forall|k: int| i <= k < j ==> digit_val(s[k]) is Some,
        j == s.len() || digit_val(s[j]) is None,
        0 <= acc,
        seq_digit_val(s.subrange(i, j), acc) <= u64::MAX as int,
    ensures
        spec_parse_mag(s, i, acc) == Some((seq_digit_val(s.subrange(i, j), acc), j)),
    decreases j - i,
{
    if i == j {
        assert(s.subrange(i, j) =~= Seq::<char>::empty());
    } else {
        let t = s.subrange(i, j);
        assert(t[0] == s[i]);
        assert(digit_val(s[i]) is Some);
        let d = digit_val(s[i])->0;
        assert(0 <= d <= 9);
        let acc2 = acc * 10 + d;
        assert(t.drop_first() =~= s.subrange(i + 1, j));
        assert(seq_digit_val(t, acc) == seq_digit_val(s.subrange(i + 1, j), acc2));
        assert forall|k: int| 0 <= k < s.subrange(i + 1, j).len() implies #[trigger] digit_val(
            s.subrange(i + 1, j)[k],
        ) is Some by {
            assert(s.subrange(i + 1, j)[k] == s[i + 1 + k]);
        }
        lemma_seq_digit_val_lb(s.subrange(i + 1, j), acc2);
        assert(acc2 <= u64::MAX as int);
        lemma_parse_mag_seq(s, i + 1, j, acc2);
    }
}

/// A rendered integer standing at its position, bounded by a non-digit
/// or the end, parses back to the original value.
pub proof fn lemma_parse_int_at(s: Seq<char>, i: int, v: int)
    requires
        0 <= i,
        i64::MIN <= v <= i64::MAX,
        i + spec_render_int(v).len() <= s.len(),
        s.subrange(i, i + spec_render_int(v).len()) == spec_render_int(v),
        i + spec_render_int(v).len() == s.len() || digit_val(
            s[i + spec_render_int(v).len()],
        ) is None,
    ensures
        spec_parse_int(s, i) == Some((v, i + spec_render_int(v).len())),
{
    let j = i + spec_render_int(v).len();
    if v >= 0 {
        let n = v as nat;
        lemma_digits_wf(n);
        assert forall|k: int| i <= k < j implies digit_val(s[k]) is Some by {
            assert(s.subrange(i, j)[k - i] == s[k]);
        }
        assert(s[i] == spec_digits(n)[0]) by {
            assert(s.subrange(i, j)[0] == s[i]);
        }
        assert(s[i] != '-');
        assert(s.subrange(i, j) == spec_digits(n));
        lemma_digits_fold(n, 0);
        lemma_parse_mag_seq(s, i, j, 0);
    } else {
        let n = (-v) as nat;
        lemma_digits_wf(n);
        assert(spec_render_int(v) =~= seq!['-'] + spec_digits(n));
        assert(s[i] == '-') by {
            assert(s.subrange(i, j)[0] == s[i]);
        }
        assert(s.subrange(i + 1, j) =~= spec_digits(n)) by {
            assert forall|k: int| 0 <= k < spec_digits(n).len() implies s.subrange(i + 1, j)[k]
                == spec_digits(n)[k] by {
                assert(s.subrange(i + 1, j)[k] == s[i + 1 + k]);
                assert(s.subrange(i, j)[k + 1] == s[i + 1 + k]);
                assert((seq!['-'] + spec_digits(n))[k + 1] == spec_digits(n)[k]);
            }
        }
        assert forall|k: int| i + 1 <= k < j implies digit_val(s[k]) is Some by {
            assert(s.subrange(i + 1, j)[k - i - 1] == s[k]);
        }
        assert(digit_val(s[i + 1]) is Some) by {
            assert(s.subrange(i + 1, j)[0] == s[i + 1]);
        }
        lemma_digits_fold(n, 0);
        lemma_parse_mag_seq(s, i + 1, j, 0);
    }
}

/// Executable counterpart of [`digit_val`].
pub fn digit_of(c: char) -> (r: Option<u64>)
    ensures
        r is Some <==> digit_val(c) is Some,
        r matches Some(d) ==> digit_val(c) == Some(d as int) && d <= 9,
{
    if c == '0' {
        Some(0)
    } else if c == '1' {
        Some(1)
    } else if c == '2' {
        Some(2)
    } else if c == '3' {
        Some(3)
    } else if c == '4' {
        Some(4)
    } else if c == '5' {
        Some(5)
    } else if c == '6' {
        Some(6)
    } else if c == '7' {
        Some(7)
    } else if c == '8' {
        Some(8)
    } else if c == '9' {
        Some(9)
    } else {
        None
    }
}

/// Executable counterpart of [`digit_char`].
pub fn char_of_digit(d: u64) -> (r: char)
    requires
        d <= 9,
    ensures
        r == digit_char(d as int),
{
    if d == 0 {
        '0'
    } else if d == 1 {
        '1'
    } else if d == 2 {
        '2'
    } else if d == 3 {
        '3'
    } else if d == 4 {
        '4'
    } else if d == 5 {
        '5'
    } else if d == 6 {
        '6'
    } else if d == 7 {
        '7'
    } else if d == 8 {
        '8'
    } else {
        '9'
    }
}

/// Appends the decimal digits of a 64-bit magnitude to `out`.
pub fn append_mag(out: &mut String, n: u64)
    ensures
        final(out)@ == old(out)@ + spec_digits(n as nat),
    decreases n,
{
    if n < 10 {
        push_char(out, char_of_digit(n));
        proof {
            assert(old(out)@.push(digit_char(n as int)) =~= old(out)@ + spec_digits(n as nat));
        }
    } else {
        append_mag(out, n / 10);
        push_char(out, char_of_digit(n % 10));
        proof {
            assert(old(out)@ + spec_digits((n / 10) as nat).push(digit_char((n % 10) as int)) =~= (
            old(out)@ + spec_digits((n / 10) as nat)).push(digit_char((n % 10) as int)));
        }
    }
}

/// Appends the wire form of a signed 64-bit integer to `out`.
pub fn append_int(out: &mut String, n: i64)
    ensures
        final(out)@ == old(out)@ + spec_render_int(n as int),
{
    let ghost orig = out@;
    if n < 0 {
        push_char(out, '-');
        let mag: u64 = if n == i64::MIN {
            9223372036854775808u64
        } else {
            (-n) as u64
        };
        proof {
            assert(mag as int == -(n as int));
        }
        append_mag(out, mag);
        proof {
            assert(orig.push('-') + spec_digits(mag as nat) =~= orig + (seq!['-'] + spec_digits(
            mag as nat)));
        }
    } else {
        append_mag(out, n as u64);
    }
}

/// Executable counterpart of [`spec_parse_mag`].
pub fn take_mag(s: &str, n: usize, i: usize, acc: u64) -> (r: Option<(u64, usize)>)
    requires
        n == s@.len(),
        i <= n,
    ensures
        r is Some <==> spec_parse_mag(s@, i as int, acc as int) is Some,
        r matches Some(p) ==> spec_parse_mag(s@, i as int, acc as int) == Some((
            p.0 as int,
            p.1 as int,
        )) && p.1 <= n,
    decreases n - i,
{
    if i < n {
        let c = s.get_char(i);
        match digit_of(c) {
            Some(d) => {
                if acc <= (u64::MAX - d) / 10 {
                    proof {
                        assert(acc as int * 10 + d <= u64::MAX as int) by (nonlinear_arith)
                            requires
                                acc as int <= (u64::MAX as int - d) / 10,
                                0 <= d <= 9,
                                0 <= acc,
                        ;
                    }
                    take_mag(s, n, i + 1, acc * 10 + d)
                } else {
                    proof {
                        assert(acc as int * 10 + d > u64::MAX as int) by (nonlinear_arith)
                            requires
                                acc as int > (u64::MAX as int - d) / 10,
                                0 <= d <= 9,
                                0 <= acc,
                        ;
                    }
                    None
                }
            },
            None => Some((acc, i)),
        }
    } else {
        Some((acc, i))
    }
}

/// Executable counterpart of [`spec_parse_int`].
pub fn take_int(s: &str, n: usize, i: usize) -> (r: Option<(i64, usize)>)
    requires
        n == s@.len(),
        i <= n,
    ensures
        r is Some <==> spec_parse_int(s@, i as int) is Some,
        r matches Some(p) ==> spec_parse_int(s@, i as int) == Some((p.0 as int, p.1 as int))
            && p.1 <= n,
{
    let neg = i < n && s.get_char(i) == '-';
    let start = if neg {
        i + 1
    } else {
        i
    };
    if start < n {
        let c = s.get_char(start);
        if digit_of(c).is_some() {
            match take_mag(s, n, start, 0) {
                Some(p) => {
                    let mag = p.0;
                    if neg {
                        if mag <= 9223372036854775808u64 {
                            let value = (-(mag as i128)) as i64;
                            Some((value, p.1))
                        } else {
                            None
                        }
                    } else {
                        if mag <= i64::MAX as u64 {
                            Some((mag as i64, p.1))
                        } else {
                            None
                        }
                    }
                },
                None => None,
            }
        } else {
            None
        }
    } else {
        None
    }
}

} // verus!
