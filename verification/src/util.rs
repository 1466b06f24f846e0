//! String utilities: the quoting policy, whitespace handling, and the small
//! textual rewrites the renderers rely on.
use vstd::prelude::*;
use vstd::string::StrSliceExecFns;

verus! {

/// A character with the Unicode `White_Space` property, the class that
/// `char::is_whitespace` recognizes.
pub open spec fn is_space_char(c: char) -> bool {
    let u = c as u32;
    u == 0x20 || u == 0x09 || u == 0x0a || u == 0x0b || u == 0x0c || u == 0x0d || u == 0x85
        || u == 0xa0 || u == 0x1680 || (0x2000 <= u && u <= 0x200a) || u == 0x2028 || u == 0x2029
        || u == 0x202f || u == 0x205f || u == 0x3000
}

/// Whether `s` contains any whitespace character.
pub open spec fn has_whitespace(s: Seq<char>) -> bool {
    exists|i: int| 0 <= i < s.len() && is_space_char(s[i])
}

/// The hexadecimal digit for `d`, in lower case.
pub open spec fn hex_digit(d: nat) -> char
    recommends
        d < 16,
{
    if d == 0 {
        '0'
    } else if d == 1 {
        '1'
    } else if d == 2 {
        '2'
    } else if d == 3 {
        '3'
    } else if d == 4 {
        '4'
    } else if d == 5 {
        '5'
    } else if d == 6 {
        '6'
    } else if d == 7 {
        '7'
    } else if d == 8 {
        '8'
    } else if d == 9 {
        '9'
    } else if d == 10 {
        'a'
    } else if d == 11 {
        'b'
    } else if d == 12 {
        'c'
    } else if d == 13 {
        'd'
    } else if d == 14 {
        'e'
    } else {
        'f'
    }
}

/// The lower-case hexadecimal digits of `n`, most significant first,
/// without leading zeros.
pub open spec fn hex_digits(n: nat) -> Seq<char>
    decreases n,
{
    if n < 16 {
        seq![hex_digit(n)]
    } else {
        hex_digits(n / 16) + seq![hex_digit(n % 16)]
    }
}

/// Whether a character inside a quoted value is written as a `\u{…}`
/// escape: the control characters (C0, DEL and C1 — those with a
/// two-character escape of their own are caught before this test), and
/// the whitespace characters beyond the Latin-1 range, all of which the
/// language's debug formatting escapes this way.
pub open spec fn needs_unicode_escape(c: char) -> bool {
    let u = c as u32;
    u < 0x20 || (0x7f <= u && u <= 0x9f) || (u > 0x9f && is_space_char(c))
}

/// Debug-style escape of one character inside a quoted value, written as
/// the language's quoted debug representation writes it: the quote
/// character and the backslash get a backslash; newline, carriage
/// return, tab and NUL their two-character escapes; every other control
/// character and every whitespace character beyond Latin-1 its `\u{…}`
/// escape in lower-case hex. All remaining characters stand for
/// themselves — non-printable characters outside these classes (format
/// controls, unassigned and private-use code points) are deliberately
/// left verbatim.
pub open spec fn escape_char(c: char) -> Seq<char> {
    if c == '"' {
        seq!['\\', '"']
    } else if c == '\\' {
        seq!['\\', '\\']
    } else if c == '\n' {
        seq!['\\', 'n']
    } else if c == '\r' {
        seq!['\\', 'r']
    } else if c == '\t' {
        seq!['\\', 't']
    } else if c == '\0' {
        seq!['\\', '0']
    } else if needs_unicode_escape(c) {
        seq!['\\', 'u', '{'] + hex_digits((c as u32) as nat) + seq!['}']
    } else {
        seq![c]
    }
}

/// Debug-style escape of a whole value, character by character.
pub open spec fn escaped(s: Seq<char>) -> Seq<char>
    decreases s.len(),
{
    if s.len() == 0 {
        Seq::empty()
    } else {
        escape_char(s[0]) + escaped(s.skip(1))
    }
}

/// A value wrapped in quote characters with its contents escaped
/// character by character as [`escape_char`] lays down.
pub open spec fn quoted(s: Seq<char>) -> Seq<char> {
    seq!['"'] + escaped(s) + seq!['"']
}

/// The quoting policy. `Some(false)` leaves the value untouched,
/// `Some(true)` forces the quoted form, and `None` defers to
/// whitespace-detection: a value containing whitespace is quoted, any other
/// is left untouched.
pub open spec fn spec_quote_if(s: Seq<char>, quote: Option<bool>) -> Seq<char> {
    match quote {
        Some(false) => s,
        Some(true) => quoted(s),
        None => if has_whitespace(s) {
            quoted(s)
        } else {
            s
        },
    }
}

/// The sequence with every two-character occurrence of `$(` rewritten to
/// `(`, scanning left to right without overlap.
pub open spec fn dparen_replaced(s: Seq<char>) -> Seq<char>
    decreases s.len(),
{
    if s.len() == 0 {
        Seq::empty()
    } else if s.len() >= 2 && s[0] == '$' && s[1] == '(' {
        seq!['('] + dparen_replaced(s.skip(2))
    } else {
        seq![s[0]] + dparen_replaced(s.skip(1))
    }
}

/// The sequence with its trailing whitespace characters removed.
pub open spec fn trimmed_end(s: Seq<char>) -> Seq<char>
    decreases s.len(),
{
    if s.len() > 0 && is_space_char(s.last()) {
        trimmed_end(s.drop_last())
    } else {
        s
    }
}

/// The views of a sequence of strings.
pub open spec fn strs_of(ss: Seq<String>) -> Seq<Seq<char>> {
    ss.map_values(|s: String| s@)
}

/// Relies on `String`'s `FromIterator<char>`: collecting an iterator of
/// characters yields the string holding exactly those characters in order.
#[verifier::external_body]
pub(crate) fn chars_to_string(v: Vec<char>) -> (r: String)
    ensures
        r@ == v@,
{
    v.into_iter().collect()
}

/// Runtime test for [`is_space_char`].
pub fn is_whitespace_char(c: char) -> (r: bool)
    ensures
        r == is_space_char(c),
{
    let u = c as u32;
    u == 0x20 || u == 0x09 || u == 0x0a || u == 0x0b || u == 0x0c || u == 0x0d || u == 0x85
        || u == 0xa0 || u == 0x1680 || (0x2000 <= u && u <= 0x200a) || u == 0x2028 || u == 0x2029
        || u == 0x202f || u == 0x205f || u == 0x3000
}

/// Whether the string contains a whitespace character.
pub fn contains_whitespace(s: &str) -> (r: bool)
    ensures
        r == has_whitespace(s@),
{
    let n = s.unicode_len();
    let mut i: usize = 0;
    while i < n
        invariant
            n == s@.len(),
            i <= n,
            forall|k: int| 0 <= k < i ==> !is_space_char(s@[k]),
        decreases n - i,
    {
        if is_whitespace_char(s.get_char(i)) {
            return true;
        }
        i += 1;
    }
    false
}

/// The hexadecimal digit for `d`, in lower case.
fn hex_digit_char(d: u32) -> (c: char)
    requires
        d < 16,
    ensures
        c == hex_digit(d as nat),
{
    if d == 0 {
        '0'
    } else if d == 1 {
        '1'
    } else if d == 2 {
        '2'
    } else if d == 3 {
        '3'
    } else if d == 4 {
        '4'
    } else if d == 5 {
        '5'
    } else if d == 6 {
        '6'
    } else if d == 7 {
        '7'
    } else if d == 8 {
        '8'
    } else if d == 9 {
        '9'
    } else if d == 10 {
        'a'
    } else if d == 11 {
        'b'
    } else if d == 12 {
        'c'
    } else if d == 13 {
        'd'
    } else if d == 14 {
        'e'
    } else {
        'f'
    }
}

/// Push the lower-case hexadecimal digits of `u`, most significant
/// first, without leading zeros.
fn push_hex(out: &mut Vec<char>, u: u32)
    ensures
        final(out)@ == old(out)@ + hex_digits(u as nat),
    decreases u,
{
    if u < 16 {
        out.push(hex_digit_char(u));
        assert(final(out)@ =~= old(out)@ + hex_digits(u as nat));
    } else {
        push_hex(out, u / 16);
        out.push(hex_digit_char(u % 16));
        assert(final(out)@ =~= old(out)@ + hex_digits(u as nat));
    }
}

fn push_escaped(out: &mut Vec<char>, c: char)
    ensures
        final(out)@ == old(out)@ + escape_char(c),
{
    if c == '"' {
        out.push('\\');
        out.push('"');
    } else if c == '\\' {
        out.push('\\');
        out.push('\\');
    } else if c == '\n' {
        out.push('\\');
        out.push('n');
    } else if c == '\r' {
        out.push('\\');
        out.push('r');
    } else if c == '\t' {
        out.push('\\');
        out.push('t');
    } else if c == '\0' {
        out.push('\\');
        out.push('0');
    } else {
        let u = c as u32;
        if u < 0x20 || (0x7f <= u && u <= 0x9f) || (u > 0x9f && is_whitespace_char(c)) {
            out.push('\\');
            out.push('u');
            out.push('{');
            push_hex(out, u);
            out.push('}');
        } else {
            out.push(c);
        }
    }
    assert(final(out)@ =~= old(out)@ + escape_char(c));
}

/// The quoted, escaped form of a value.
pub(crate) fn quote_string(s: &str) -> (r: String)
    ensures
        r@ == quoted(s@),
{
    let mut out: Vec<char> = Vec::new();
    out.push('"');
    let n = s.unicode_len();
    let mut i: usize = 0;
    proof {
        assert(s@.skip(0) =~= s@);
    }
    while i < n
        invariant
            n == s@.len(),
            i <= n,
            out@ + escaped(s@.skip(i as int)) == seq!['"'] + escaped(s@),
        decreases n - i,
    {
        let c = s.get_char(i);
        proof {
            assert(s@.skip(i as int)[0] == c);
            assert(s@.skip(i as int).skip(1) =~= s@.skip(i as int + 1));
            assert(escaped(s@.skip(i as int)) == escape_char(c) + escaped(s@.skip(i as int + 1)));
        }
        push_escaped(&mut out, c);
        proof {
            assert(out@ + escaped(s@.skip(i as int + 1)) =~= seq!['"'] + escaped(s@));
        }
        i += 1;
    }
    proof {
        assert(s@.skip(n as int) =~= Seq::<char>::empty());
        assert(out@ =~= seq!['"'] + escaped(s@));
    }
    out.push('"');
    proof {
        assert(out@ =~= quoted(s@));
    }
    chars_to_string(out)
}

/// Quote `s` if `quote` is `Some(true)`, or if `quote` is `None` and there
/// is whitespace in `s`; otherwise hand `s` back unchanged.
pub fn quote_if(s: &str, quote: Option<bool>) -> (r: String)
    ensures
        r@ == spec_quote_if(s@, quote),
{
    match quote {
        Some(false) => s.to_owned(),
        Some(true) => quote_string(s),
        None => {
            if contains_whitespace(s) {
                quote_string(s)
            } else {
                s.to_owned()
            }
        },
    }
}

/// The string with every occurrence of `$(` replaced by `(`.
pub fn replace_dollar_paren(s: &str) -> (r: String)
    ensures
        r@ == dparen_replaced(s@),
{
    let n = s.unicode_len();
    let mut out: Vec<char> = Vec::new();
    let mut i: usize = 0;
    proof {
        assert(s@.skip(0) =~= s@);
    }
    while i < n
        invariant
            n == s@.len(),
            i <= n,
            out@ + dparen_replaced(s@.skip(i as int)) == dparen_replaced(s@),
        decreases n - i,
    {
        let c = s.get_char(i);
        proof {
            assert(s@.skip(i as int)[0] == c);
        }
        if c == '$' && i + 1 < n && s.get_char(i + 1) == '(' {
            proof {
                assert(s@.skip(i as int)[1] == s@[i as int + 1]);
                assert(s@.skip(i as int).skip(2) =~= s@.skip(i as int + 2));
            }
            out.push('(');
            proof {
                assert(out@ + dparen_replaced(s@.skip(i as int + 2)) =~= dparen_replaced(s@));
            }
            i += 2;
        } else {
            proof {
                if s@.skip(i as int).len() >= 2 {
                    assert(s@.skip(i as int)[1] == s@[i as int + 1]);
                }
                assert(s@.skip(i as int).skip(1) =~= s@.skip(i as int + 1));
            }
            out.push(c);
            proof {
                assert(out@ + dparen_replaced(s@.skip(i as int + 1)) =~= dparen_replaced(s@));
            }
            i += 1;
        }
    }
    proof {
        assert(s@.skip(n as int) =~= Seq::<char>::empty());
        assert(out@ =~= dparen_replaced(s@));
    }
    chars_to_string(out)
}

/// The string with its trailing whitespace removed, as a subprocess's
/// captured output is trimmed before it is used as a value.
pub fn trim_end(s: &str) -> (r: String)
    ensures
        r@ == trimmed_end(s@),
{
    let mut end = s.unicode_len();
    proof {
        assert(s@.take(end as int) =~= s@);
    }
    while end > 0 && is_whitespace_char(s.get_char(end - 1))
        invariant
            end <= s@.len(),
            trimmed_end(s@.take(end as int)) == trimmed_end(s@),
        decreases end,
    {
        proof {
            let t = s@.take(end as int);
            assert(t.last() == s@[end - 1]);
            assert(t.drop_last() =~= s@.take(end as int - 1));
        }
        end -= 1;
    }
    let r = s.substring_char(0, end).to_owned();
    proof {
        let t = s@.take(end as int);
        assert(trimmed_end(t) == t);
        assert(r@ =~= t);
    }
    r
}

/// Whether two strings hold the same characters.
pub fn str_eq(a: &str, b: &str) -> (r: bool)
    ensures
        r == (a@ == b@),
{
    let na = a.unicode_len();
    let nb = b.unicode_len();
    if na != nb {
        return false;
    }
    let mut i: usize = 0;
    while i < na
        invariant
            na == a@.len(),
            nb == b@.len(),
            na == nb,
            i <= na,
            forall|k: int| 0 <= k < i ==> a@[k] == b@[k],
        decreases na - i,
    {
        if a.get_char(i) != b.get_char(i) {
            return false;
        }
        i += 1;
    }
    proof {
        assert(a@ =~= b@);
    }
    true
}

} // verus!
