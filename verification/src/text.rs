//! Text helpers shared by every validation rule: Unicode whitespace,
//! trimming, and length checks counted in Unicode scalar values.

use vstd::prelude::*;

verus! {

broadcast use vstd::string::group_string_axioms;

/// The characters with the Unicode `White_Space` property — exactly the
/// characters `char::is_whitespace` accepts.
pub open spec fn is_white_space(c: char) -> bool {
    let u = c as u32;
    ||| 0x09 <= u <= 0x0D
    ||| u == 0x20
    ||| u == 0x85
    ||| u == 0xA0
    ||| u == 0x1680
    ||| 0x2000 <= u <= 0x200A
    ||| u == 0x2028
    ||| u == 0x2029
    ||| u == 0x202F
    ||| u == 0x205F
    ||| u == 0x3000
}

/// Number of leading whitespace characters of `s`.
pub open spec fn leading_ws(s: Seq<char>) -> nat
    decreases s.len(),
{
    if s.len() > 0 && is_white_space(s[0]) {
        1 + leading_ws(s.drop_first())
    } else {
        0
    }
}

/// Number of trailing whitespace characters of `s`.
pub open spec fn trailing_ws(s: Seq<char>) -> nat
    decreases s.len(),
{
    if s.len() > 0 && is_white_space(s.last()) {
        1 + trailing_ws(s.drop_last())
    } else {
        0
    }
}

/// `s` with leading and trailing whitespace removed (what `str::trim` returns).
pub open spec fn trim(s: Seq<char>) -> Seq<char> {
    let rest = s.subrange(leading_ws(s) as int, s.len() as int);
    rest.subrange(0, rest.len() - trailing_ws(rest))
}

pub proof fn lemma_leading_ws_bound(s: Seq<char>)
    ensures
        leading_ws(s) <= s.len(),
        forall|i: int| 0 <= i < leading_ws(s) ==> is_white_space(#[trigger] s[i]),
        leading_ws(s) < s.len() ==> !is_white_space(s[leading_ws(s) as int]),
    decreases s.len(),
{
    if s.len() > 0 && is_white_space(s[0]) {
        lemma_leading_ws_bound(s.drop_first());
        assert forall|i: int| 0 <= i < leading_ws(s) implies is_white_space(#[trigger] s[i]) by {
            if i > 0 {
                assert(s[i] == s.drop_first()[i - 1]);
            }
        }
    }
}

pub proof fn lemma_trailing_ws_bound(s: Seq<char>)
    ensures
        trailing_ws(s) <= s.len(),
        forall|i: int| s.len() - trailing_ws(s) <= i < s.len() ==> is_white_space(#[trigger] s[i]),
        trailing_ws(s) < s.len() ==> !is_white_space(s[s.len() - trailing_ws(s) - 1]),
    decreases s.len(),
{
    if s.len() > 0 && is_white_space(s.last()) {
        lemma_trailing_ws_bound(s.drop_last());
        assert forall|i: int| s.len() - trailing_ws(s) <= i < s.len() implies is_white_space(
            #[trigger] s[i],
        ) by {
            if i < s.len() - 1 {
                assert(s[i] == s.drop_last()[i]);
            }
        }
    }
}

/// A text that neither starts nor ends with whitespace is its own trim.
pub proof fn lemma_trim_of_trimmed(s: Seq<char>)
    requires
        s.len() == 0 || (!is_white_space(s[0]) && !is_white_space(s.last())),
    ensures
        trim(s) == s,
{
    assert(leading_ws(s) == 0);
    assert(s.subrange(0, s.len() as int) =~= s);
    assert(trailing_ws(s) == 0);
}

/// Exactly `char::is_whitespace`.
pub fn is_whitespace_char(c: char) -> (r: bool)
    ensures
        r == is_white_space(c),
{
    let u = c as u32;
    (0x09 <= u && u <= 0x0D) || u == 0x20 || u == 0x85 || u == 0xA0 || u == 0x1680 || (0x2000
        <= u && u <= 0x200A) || u == 0x2028 || u == 0x2029 || u == 0x202F || u == 0x205F || u
        == 0x3000
}

/// The characters of `s`, in order.
pub fn chars_of(s: &str) -> (v: Vec<char>)
    ensures
        v@ == s@,
{
    let n = s.unicode_len();
    let mut v: Vec<char> = Vec::new();
    let mut i: usize = 0;
    while i < n
        invariant
            n == s@.len(),
            i <= n,
            v@ == s@.subrange(0, i as int),
        decreases n - i,
    {
        v.push(s.get_char(i));
        i = i + 1;
        assert(v@ =~= s@.subrange(0, i as int));
    }
    assert(v@ =~= s@);
    v
}

/// A `String` holding `chars[from..to]`.
pub fn string_from_chars(chars: &Vec<char>, from: usize, to: usize) -> (r: String)
    requires
        from <= to <= chars.len(),
    ensures
        r@ == chars@.subrange(from as int, to as int),
{
    let mut r = String::new();
    let mut i = from;
    while i < to
        invariant
            from <= i <= to <= chars.len(),
            r@ == chars@.subrange(from as int, i as int),
        decreases to - i,
    {
        push_char(&mut r, chars[i]);
        i = i + 1;
        assert(r@ =~= chars@.subrange(from as int, i as int));
    }
    r
}

/// Appends one character (`String::push`).
#[verifier::external_body]
pub(crate) fn push_char(s: &mut String, c: char)
    ensures
        final(s)@ == old(s)@.push(c),
{
    s.push(c)
}

/// `raw` without its leading and trailing whitespace (`str::trim`).
pub fn trim_str(raw: &str) -> (r: String)
    ensures
        r@ == trim(raw@),
{
    let v = chars_of(raw);
    let n = v.len();
    let mut a: usize = 0;
    proof {
        lemma_leading_ws_bound(raw@);
    }
    while a < n && is_whitespace_char(v[a])
        invariant
            v@ == raw@,
            n == v.len(),
            a <= leading_ws(raw@),
            leading_ws(raw@) <= n,
            forall|i: int| 0 <= i < leading_ws(raw@) ==> is_white_space(#[trigger] raw@[i]),
            leading_ws(raw@) < n ==> !is_white_space(raw@[leading_ws(raw@) as int]),
        decreases n - a,
    {
        a = a + 1;
    }
    assert(a == leading_ws(raw@));
    let ghost rest = raw@.subrange(a as int, n as int);
    proof {
        lemma_trailing_ws_bound(rest);
    }
    let mut b: usize = n;
    while b > a && is_whitespace_char(v[b - 1])
        invariant
            v@ == raw@,
            n == v.len(),
            a <= b <= n,
            rest == raw@.subrange(a as int, n as int),
            n - b <= trailing_ws(rest),
            trailing_ws(rest) <= rest.len(),
            forall|i: int|
                rest.len() - trailing_ws(rest) <= i < rest.len() ==> is_white_space(
                    #[trigger] rest[i],
                ),
            trailing_ws(rest) < rest.len() ==> !is_white_space(
                rest[rest.len() - trailing_ws(rest) - 1],
            ),
        decreases b - a,
    {
        assert(rest[b - 1 - a] == v@[b - 1]);
        b = b - 1;
    }
    if b > a {
        assert(rest[b - 1 - a] == v@[b - 1]);
    }
    assert(n - b == trailing_ws(rest));
    let r = string_from_chars(&v, a, b);
    assert(r@ =~= trim(raw@));
    r
}

/// Outcome of checking a trimmed text field against its rules.
pub enum TextCheck {
    /// The trimmed text, which passed.
    Valid(String),
    /// Nothing left after trimming, and the field is required.
    Empty,
    /// More characters than allowed after trimming.
    TooLong,
}

/// Trims `raw` and checks it: non-empty when `required`, and at most
/// `max_chars` characters (counted as Unicode scalar values).
pub fn check_text(raw: &str, required: bool, max_chars: usize) -> (r: TextCheck)
    ensures
        match r {
            TextCheck::Valid(t) => t@ == trim(raw@) && !(required && t@.len() == 0) && t@.len()
                <= max_chars,
            TextCheck::Empty => required && trim(raw@).len() == 0,
            TextCheck::TooLong => !(required && trim(raw@).len() == 0) && trim(raw@).len()
                > max_chars,
        },
{
    let t = trim_str(raw);
    let count = t.as_str().unicode_len();
    if required && count == 0 {
        TextCheck::Empty
    } else if count > max_chars {
        TextCheck::TooLong
    } else {
        TextCheck::Valid(t)
    }
}

} // verus!

verus! {

/// The outcome a text field's rules give for `raw`: the trimmed text, or
/// the message of the rule it breaks (required first, then length).
pub open spec fn text_rule(
    raw: Seq<char>,
    required: bool,
    max_chars: nat,
    empty_message: Seq<char>,
    long_message: Seq<char>,
) -> Result<Seq<char>, Seq<char>> {
    let t = trim(raw);
    if required && t.len() == 0 {
        Err(empty_message)
    } else if t.len() > max_chars {
        Err(long_message)
    } else {
        Ok(t)
    }
}

/// `r` is what `rule` prescribes: the text on success, a `Validation`
/// error with the rule's message otherwise.
pub open spec fn follows_rule(
    r: Result<String, crate::errors::AppError>,
    rule: Result<Seq<char>, Seq<char>>,
) -> bool {
    match rule {
        Ok(t) => r matches Ok(s) && s@ == t,
        Err(m) => r matches Err(e) && crate::errors::is_validation(e, m),
    }
}

/// An optional text, `""` when absent.
pub open spec fn text_or_empty(o: Option<&str>) -> Seq<char> {
    match o {
        Some(s) => s@,
        None => Seq::empty(),
    }
}

/// An optional text, `""` when absent (`Option::unwrap_or("")`).
pub fn str_or_empty<'a>(o: Option<&'a str>) -> (r: &'a str)
    ensures
        r@ == text_or_empty(o),
{
    match o {
        Some(s) => s,
        None => {
            proof {
                reveal_strlit("");
            }
            ""
        },
    }
}

/// Checks `raw` against a field's rules, giving the trimmed text or a
/// `Validation` error with the broken rule's message.
pub fn apply_text_rule(
    raw: &str,
    required: bool,
    max_chars: usize,
    empty_message: &str,
    long_message: &str,
) -> (r: Result<String, crate::errors::AppError>)
    ensures
        follows_rule(r, text_rule(raw@, required, max_chars as nat, empty_message@, long_message@)),
{
    match check_text(raw, required, max_chars) {
        TextCheck::Valid(t) => Ok(t),
        TextCheck::Empty => Err(crate::errors::AppError::validation(empty_message)),
        TextCheck::TooLong => Err(crate::errors::AppError::validation(long_message)),
    }
}

/// The decimal digits of `n`, most significant first, without leading
/// zeros (`"0"` for zero).
pub open spec fn decimal(n: nat) -> Seq<char>
    decreases n,
{
    if n < 10 {
        seq![digit_char(n)]
    } else {
        decimal(n / 10).push(digit_char(n % 10))
    }
}

/// The ASCII digit of `d` (below 10).
pub open spec fn digit_char(d: nat) -> char {
    ((d + 48) as u32) as char
}

/// `n` written in decimal (`format!("{n}")`).
pub fn decimal_string(n: u64) -> (r: String)
    ensures
        r@ == decimal(n as nat),
    decreases n,
{
    let d: u8 = (n % 10) as u8;
    let c: char = (d + 48) as char;
    if n < 10 {
        let mut r = String::new();
        push_char(&mut r, c);
        assert(r@ =~= decimal(n as nat));
        r
    } else {
        let mut r = decimal_string(n / 10);
        push_char(&mut r, c);
        r
    }
}

/// The lines of `s`: the texts between its newlines (one empty line for
/// an empty text, `str::split('\n')`).
pub open spec fn lines(s: Seq<char>) -> Seq<Seq<char>>
    decreases s.len(),
{
    if s.len() == 0 {
        seq![Seq::empty()]
    } else {
        let before = lines(s.drop_last());
        if s.last() == '\n' {
            before.push(Seq::empty())
        } else {
            before.update(before.len() - 1, before.last().push(s.last()))
        }
    }
}

/// Every text has at least one line.
pub proof fn lemma_lines_nonempty(s: Seq<char>)
    ensures
        lines(s).len() >= 1,
    decreases s.len(),
{
    if s.len() > 0 {
        lemma_lines_nonempty(s.drop_last());
    }
}

} // verus!
