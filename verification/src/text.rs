//! Text helpers: decimal integers, `Debug` and JSON string escaping, quote
//! trimming.
use vstd::prelude::*;
use vstd::string::*;

verus! {

/// The character of a decimal digit.
pub open spec fn digit_char(d: int) -> char {
    if d == 0 { '0' }
    else if d == 1 { '1' }
    else if d == 2 { '2' }
    else if d == 3 { '3' }
    else if d == 4 { '4' }
    else if d == 5 { '5' }
    else if d == 6 { '6' }
    else if d == 7 { '7' }
    else if d == 8 { '8' }
    else { '9' }
}

/// The decimal digits of `n`, most significant first, without leading zeros.
pub open spec fn nat_digits(n: nat) -> Seq<char>
    decreases n,
{
    if n < 10 {
        seq![digit_char(n as int)]
    } else {
        nat_digits(n / 10).push(digit_char((n % 10) as int))
    }
}

/// The decimal text of `n`: a minus sign for negative numbers, then its digits.
pub open spec fn int_decimal(n: int) -> Seq<char> {
    if n < 0 {
        seq!['-'] + nat_digits((-n) as nat)
    } else {
        nat_digits(n as nat)
    }
}

fn digit_str(d: u64) -> (r: &'static str)
    requires
        d < 10,
    ensures
        r@ == seq![digit_char(d as int)],
{
    proof {
        reveal_strlit("0");
        reveal_strlit("1");
        reveal_strlit("2");
        reveal_strlit("3");
        reveal_strlit("4");
        reveal_strlit("5");
        reveal_strlit("6");
        reveal_strlit("7");
        reveal_strlit("8");
        reveal_strlit("9");
    }
    if d == 0 { "0" }
    else if d == 1 { "1" }
    else if d == 2 { "2" }
    else if d == 3 { "3" }
    else if d == 4 { "4" }
    else if d == 5 { "5" }
    else if d == 6 { "6" }
    else if d == 7 { "7" }
    else if d == 8 { "8" }
    else { "9" }
}

fn append_digits(out: &mut String, n: u64)
    ensures
        final(out)@ == old(out)@ + nat_digits(n as nat),
    decreases n,
{
    if n >= 10 {
        append_digits(out, n / 10);
    }
    out.append(digit_str(n % 10));
    proof {
        if n >= 10 {
            assert(old(out)@ + nat_digits((n / 10) as nat) + seq![digit_char((n % 10) as int)]
                =~= old(out)@ + nat_digits(n as nat));
        } else {
            assert(nat_digits(n as nat) == seq![digit_char(n as int)]);
        }
    }
}

/// The decimal text of an `i64`.
pub fn i64_to_decimal(n: i64) -> (r: String)
    ensures
        r@ == int_decimal(n as int),
{
    let mut out = String::new();
    if n < 0 {
        proof { reveal_strlit("-"); }
        out.append("-");
        let mag: u64 = (-(n as i128)) as u64;
        append_digits(&mut out, mag);
    } else {
        append_digits(&mut out, n as u64);
    }
    out
}

/// Whether `c` is an ASCII decimal digit.
pub open spec fn is_digit(c: char) -> bool {
    '0' <= c && c <= '9'
}

/// The value of a string of decimal digits.
pub open spec fn digits_value(s: Seq<char>) -> int
    decreases s.len(),
{
    if s.len() == 0 {
        0
    } else {
        digits_value(s.drop_last()) * 10 + (s.last() as int - '0' as int)
    }
}

/// Whether every character of `s` is a decimal digit.
pub open spec fn all_digits(s: Seq<char>) -> bool {
    forall|i: int| 0 <= i < s.len() ==> is_digit(#[trigger] s[i])
}

/// Whether `s` starts with a `+` or `-` sign.
pub open spec fn has_sign(s: Seq<char>) -> bool {
    s.len() > 0 && (s[0] == '-' || s[0] == '+')
}

/// `s` without its sign, if it has one.
pub open spec fn unsigned_part(s: Seq<char>) -> Seq<char> {
    if has_sign(s) { s.drop_first() } else { s }
}

/// How `i64::from_str` reads a string: an optional `+` or `-` sign, then one
/// or more ASCII digits, whose value must fit in `i64`.
pub open spec fn spec_parse_i64(s: Seq<char>) -> Option<i64> {
    let body = unsigned_part(s);
    if body.len() == 0 || !all_digits(body) {
        None
    } else {
        let v = if s[0] == '-' { -digits_value(body) } else { digits_value(body) };
        if i64::MIN <= v && v <= i64::MAX {
            Some(v as i64)
        } else {
            None
        }
    }
}

proof fn lemma_digits_value_nonneg(s: Seq<char>)
    requires
        forall|i: int| 0 <= i < s.len() ==> is_digit(#[trigger] s[i]),
    ensures
        digits_value(s) >= 0,
    decreases s.len(),
{
    if s.len() > 0 {
        assert(is_digit(s[s.len() - 1]));
        lemma_digits_value_nonneg(s.drop_last());
    }
}

/// Reads an `i64` the way `str::parse::<i64>` does (see `spec_parse_i64`).
pub fn parse_i64(s: &str) -> (r: Option<i64>)
    ensures
        r == spec_parse_i64(s@),
{
    let len = s.unicode_len();
    let ghost sv = s@;
    if len == 0 {
        return None;
    }
    let first = s.get_char(0);
    let neg = first == '-';
    let start: usize = if first == '-' || first == '+' { 1 } else { 0 };
    let ghost body = unsigned_part(sv);
    assert(body =~= sv.subrange(start as int, sv.len() as int));
    if start >= len {
        return None;
    }
    // Values above this bound cannot fit, whatever the sign.
    let bound: i128 = 9_223_372_036_854_775_808;
    let mut v: i128 = 0;
    let mut over = false;
    let mut i: usize = start;
    while i < len
        invariant
            start <= i <= len,
            len == sv.len(),
            sv == s@,
            len > 0,
            bound == 9_223_372_036_854_775_808i128,
            neg == (sv[0] == '-'),
            (start == 1) == (sv[0] == '-' || sv[0] == '+'),
            start == 0 || start == 1,
            body == unsigned_part(sv),
            body =~= sv.subrange(start as int, len as int),
            forall|k: int| 0 <= k < i - start ==> is_digit(#[trigger] body[k]),
            !over ==> v == digits_value(body.take(i - start)) && 0 <= v <= bound,
            over ==> digits_value(body.take(i - start)) > bound,
        decreases len - i,
    {
        let c = s.get_char(i);
        if !('0' <= c && c <= '9') {
            assert(body[i - start] == c);
            assert(!is_digit(body[i - start]));
            assert(!all_digits(body));
            return None;
        }
        let d: i128 = (c as u32 - '0' as u32) as i128;
        proof {
            let t = body.take(i - start + 1);
            assert(t.drop_last() =~= body.take(i - start));
            assert(t.last() == c);
            assert(body[i - start] == c);
            assert(digits_value(t) == digits_value(body.take(i - start)) * 10 + d);
            lemma_digits_value_nonneg(body.take(i - start));
        }
        if !over {
            assert(0 <= v <= bound);
            assert(0 <= d <= 9);
            v = v * 10 + d;
            if v > bound {
                over = true;
            }
        }
        i = i + 1;
    }
    assert(body.take(len - start) =~= body);
    if over {
        return None;
    }
    if neg {
        Some((-v) as i64)
    } else if v <= i64::MAX as i128 {
        Some(v as i64)
    } else {
        None
    }
}

/// The character of a hexadecimal digit, in lower case.
pub open spec fn hex_char(d: int) -> char {
    if d < 10 { digit_char(d) }
    else if d == 10 { 'a' }
    else if d == 11 { 'b' }
    else if d == 12 { 'c' }
    else if d == 13 { 'd' }
    else if d == 14 { 'e' }
    else { 'f' }
}

fn hex_digit_str(d: u32) -> (r: &'static str)
    requires
        d < 16,
    ensures
        r@ == seq![hex_char(d as int)],
{
    if d < 10 {
        return digit_str(d as u64);
    }
    proof {
        reveal_strlit("a");
        reveal_strlit("b");
        reveal_strlit("c");
        reveal_strlit("d");
        reveal_strlit("e");
        reveal_strlit("f");
    }
    if d == 10 { "a" }
    else if d == 11 { "b" }
    else if d == 12 { "c" }
    else if d == 13 { "d" }
    else if d == 14 { "e" }
    else { "f" }
}

/// The value of a hexadecimal digit in either case, if `c` is one.
pub open spec fn hex_value(c: char) -> Option<int> {
    if '0' <= c && c <= '9' {
        Some(c as int - '0' as int)
    } else if 'a' <= c && c <= 'f' {
        Some(c as int - 'a' as int + 10)
    } else if 'A' <= c && c <= 'F' {
        Some(c as int - 'A' as int + 10)
    } else {
        None
    }
}

/// `v` in lower-case hexadecimal without leading zeros, for `v < 256`.
pub open spec fn short_hex(v: int) -> Seq<char> {
    if v < 16 {
        seq![hex_char(v)]
    } else {
        seq![hex_char(v / 16), hex_char(v % 16)]
    }
}

/// What `char::escape_debug` yields for `c`. For a character outside ASCII it
/// depends on the Unicode tables of std (printable characters stand as they
/// are, the others as `\u{..}`).
pub uninterp spec fn char_debug_escape(c: char) -> Seq<char>;

/// How `Debug` writes `c` inside a string literal: `\0`, `\t`, `\r`, `\n`,
/// `\\` and `\"` for those characters, `\u{..}` in hexadecimal for the other
/// ASCII control characters, other ASCII characters as they are, and a
/// character outside ASCII as `char::escape_debug` writes it.
pub open spec fn debug_escape_char(c: char) -> Seq<char> {
    if c == '\0' {
        seq!['\\', '0']
    } else if c == '\t' {
        seq!['\\', 't']
    } else if c == '\r' {
        seq!['\\', 'r']
    } else if c == '\n' {
        seq!['\\', 'n']
    } else if c == '\\' {
        seq!['\\', '\\']
    } else if c == '"' {
        seq!['\\', '"']
    } else if (c as int) < 0x20 || (c as int) == 0x7f {
        seq!['\\', 'u', '{'] + short_hex(c as int) + seq!['}']
    } else if (c as int) < 0x80 {
        seq![c]
    } else {
        char_debug_escape(c)
    }
}

/// `s` with each character escaped as `Debug` escapes it in a string.
pub open spec fn debug_escape(s: Seq<char>) -> Seq<char>
    decreases s.len(),
{
    if s.len() == 0 {
        Seq::empty()
    } else {
        debug_escape(s.drop_last()) + debug_escape_char(s.last())
    }
}

/// The `Debug` text of a string: the escaped string in double quotes.
pub open spec fn str_debug(s: Seq<char>) -> Seq<char> {
    seq!['"'] + debug_escape(s) + seq!['"']
}

/// `char::escape_debug`, its characters collected into a `String`. What is
/// claimed: the text is `char_debug_escape(c)`, the same for the same
/// character; what that text is for a character outside ASCII is left to
/// std's Unicode tables and not stated here.
#[verifier::external_body]
fn char_escape_debug(c: char) -> (r: String)
    ensures
        r@ == char_debug_escape(c),
{
    c.escape_debug().to_string()
}

/// Appends the escape sequence `\u{..}` of an ASCII control character.
fn append_brace_hex(out: &mut String, v: u32)
    requires
        v < 256,
    ensures
        final(out)@ == old(out)@ + seq!['\\', 'u', '{'] + short_hex(v as int) + seq!['}'],
{
    proof {
        reveal_strlit("\\u{");
        reveal_strlit("}");
    }
    out.append("\\u{");
    if v < 16 {
        out.append(hex_digit_str(v));
    } else {
        out.append(hex_digit_str(v / 16));
        out.append(hex_digit_str(v % 16));
    }
    out.append("}");
    assert(out@ =~= old(out)@ + seq!['\\', 'u', '{'] + short_hex(v as int) + seq!['}']);
}

/// Appends `c`, the character at `i` in `s`, as `Debug` writes it in a string.
fn append_debug_char(out: &mut String, s: &str, i: usize)
    requires
        i < s@.len() <= usize::MAX,
    ensures
        final(out)@ == old(out)@ + debug_escape_char(s@[i as int]),
{
    let c = s.get_char(i);
    let v = c as u32;
    proof {
        reveal_strlit("\\0");
        reveal_strlit("\\t");
        reveal_strlit("\\r");
        reveal_strlit("\\n");
        reveal_strlit("\\\\");
        reveal_strlit("\\\"");
    }
    if c == '\0' {
        out.append("\\0");
    } else if c == '\t' {
        out.append("\\t");
    } else if c == '\r' {
        out.append("\\r");
    } else if c == '\n' {
        out.append("\\n");
    } else if c == '\\' {
        out.append("\\\\");
    } else if c == '"' {
        out.append("\\\"");
    } else if v < 0x20 || v == 0x7f {
        append_brace_hex(out, v);
    } else if v < 0x80 {
        let piece = s.substring_char(i, i + 1);
        assert(piece@ =~= seq![c]);
        out.append(piece);
    } else {
        let e = char_escape_debug(c);
        out.append(e.as_str());
    }
    assert(out@ =~= old(out)@ + debug_escape_char(s@[i as int]));
}

/// Appends the `Debug` text of `s`: `s` escaped, in double quotes.
pub fn append_str_debug(out: &mut String, s: &str)
    ensures
        final(out)@ == old(out)@ + str_debug(s@),
{
    proof { reveal_strlit("\""); }
    out.append("\"");
    let ghost start = out@;
    let len = s.unicode_len();
    let ghost sv = s@;
    let mut i: usize = 0;
    assert(sv.take(0) =~= Seq::<char>::empty());
    while i < len
        invariant
            i <= len,
            len == sv.len(),
            sv == s@,
            out@ == start + debug_escape(sv.take(i as int)),
        decreases len - i,
    {
        let ghost t = sv.take(i as int + 1);
        assert(t.drop_last() =~= sv.take(i as int));
        assert(t.last() == sv[i as int]);
        append_debug_char(out, s, i);
        assert(out@ =~= start + debug_escape(t));
        i = i + 1;
    }
    assert(sv.take(len as int) =~= sv);
    out.append("\"");
    assert(out@ =~= old(out)@ + str_debug(s@));
}

/// How a JSON string writes `c`: `\"`, `\\`, `\b`, `\f`, `\n`, `\r` and `\t`
/// for those characters, `\u00..` in lower-case hexadecimal for the other
/// control characters below U+0020, any other character as it is.
pub open spec fn json_escape_char(c: char) -> Seq<char> {
    if c == '"' {
        seq!['\\', '"']
    } else if c == '\\' {
        seq!['\\', '\\']
    } else if c == '\u{8}' {
        seq!['\\', 'b']
    } else if c == '\u{c}' {
        seq!['\\', 'f']
    } else if c == '\n' {
        seq!['\\', 'n']
    } else if c == '\r' {
        seq!['\\', 'r']
    } else if c == '\t' {
        seq!['\\', 't']
    } else if (c as int) < 0x20 {
        seq!['\\', 'u', '0', '0', hex_char(c as int / 16), hex_char(c as int % 16)]
    } else {
        seq![c]
    }
}

/// `s` escaped for the inside of a JSON string.
pub open spec fn json_escape(s: Seq<char>) -> Seq<char>
    decreases s.len(),
{
    if s.len() == 0 {
        Seq::empty()
    } else {
        json_escape_char(s[0]) + json_escape(s.drop_first())
    }
}

/// The character that a JSON escape `\` followed by `e` stands for, for the
/// escapes of one character.
pub open spec fn json_short_escape(e: char) -> Option<char> {
    if e == '"' {
        Some('"')
    } else if e == '\\' {
        Some('\\')
    } else if e == '/' {
        Some('/')
    } else if e == 'b' {
        Some('\u{8}')
    } else if e == 'f' {
        Some('\u{c}')
    } else if e == 'n' {
        Some('\n')
    } else if e == 'r' {
        Some('\r')
    } else if e == 't' {
        Some('\t')
    } else {
        None
    }
}

/// The value of four hexadecimal digits.
pub open spec fn hex4(q: Seq<char>) -> Option<int> {
    if q.len() == 4 && hex_value(q[0]) is Some && hex_value(q[1]) is Some
        && hex_value(q[2]) is Some && hex_value(q[3]) is Some {
        Some(hex_value(q[0]).unwrap() * 4096 + hex_value(q[1]).unwrap() * 256
            + hex_value(q[2]).unwrap() * 16 + hex_value(q[3]).unwrap())
    } else {
        None
    }
}

/// `c` followed by `rest`, where `rest` was read.
pub open spec fn prepend_read(c: char, rest: Option<Seq<char>>) -> Option<Seq<char>> {
    match rest {
        Some(r) => Some(seq![c] + r),
        None => None,
    }
}

/// The characters that `t`, the inside of a JSON string literal, stands for;
/// `None` where `t` is not valid there (a bare double quote or control
/// character, an unknown escape, a `\u` escape that is not four hexadecimal
/// digits or is a lone surrogate).
pub open spec fn json_unescape(t: Seq<char>) -> Option<Seq<char>>
    decreases t.len(),
{
    if t.len() == 0 {
        Some(Seq::empty())
    } else if t[0] == '\\' {
        if t.len() < 2 {
            None
        } else if json_short_escape(t[1]) is Some {
            prepend_read(json_short_escape(t[1]).unwrap(), json_unescape(t.subrange(2, t.len() as int)))
        } else if t[1] == 'u' && t.len() >= 6 && hex4(t.subrange(2, 6)) is Some {
            let v = hex4(t.subrange(2, 6)).unwrap();
            if 0xD800 <= v && v < 0xDC00 {
                if t.len() >= 12 && t[6] == '\\' && t[7] == 'u' && hex4(t.subrange(8, 12)) is Some
                    && 0xDC00 <= hex4(t.subrange(8, 12)).unwrap()
                    && hex4(t.subrange(8, 12)).unwrap() < 0xE000 {
                    let w = hex4(t.subrange(8, 12)).unwrap();
                    prepend_read(
                        ((v - 0xD800) * 0x400 + (w - 0xDC00) + 0x10000) as char,
                        json_unescape(t.subrange(12, t.len() as int)),
                    )
                } else {
                    None
                }
            } else if 0xDC00 <= v && v < 0xE000 {
                None
            } else {
                prepend_read(v as char, json_unescape(t.subrange(6, t.len() as int)))
            }
        } else {
            None
        }
    } else if t[0] == '"' || (t[0] as int) < 0x20 {
        None
    } else {
        prepend_read(t[0], json_unescape(t.drop_first()))
    }
}

/// The string that JSON text `t` stands for, if `t` is a JSON string literal.
pub open spec fn json_string_value(t: Seq<char>) -> Option<Seq<char>> {
    if t.len() >= 2 && t[0] == '"' && t.last() == '"' {
        json_unescape(t.subrange(1, t.len() - 1))
    } else {
        None
    }
}

proof fn lemma_json_escape_push(s: Seq<char>, c: char)
    ensures
        json_escape(s.push(c)) == json_escape(s) + json_escape_char(c),
    decreases s.len(),
{
    if s.len() == 0 {
        assert(s.push(c).drop_first() =~= Seq::<char>::empty());
        assert(json_escape(s.push(c).drop_first()) == Seq::<char>::empty());
        assert(json_escape(s.push(c)) =~= json_escape_char(c));
    } else {
        lemma_json_escape_push(s.drop_first(), c);
        assert(s.push(c).drop_first() =~= s.drop_first().push(c));
        assert(json_escape(s.push(c)) =~= json_escape(s) + json_escape_char(c));
    }
}

proof fn lemma_char_code_nonneg(c: char)
    ensures
        0 <= c as int,
{
}

proof fn lemma_hex_char_value(d: int)
    requires
        0 <= d < 16,
    ensures
        hex_value(hex_char(d)) == Some(d),
{
}

/// Whether `c` has a JSON escape of one character.
spec fn has_short_json_escape(c: char) -> bool {
    c == '"' || c == '\\' || c == '\u{8}' || c == '\u{c}' || c == '\n' || c == '\r' || c == '\t'
}

proof fn lemma_unescape_short_piece(c: char, r: Seq<char>)
    requires
        has_short_json_escape(c),
    ensures
        json_unescape(json_escape_char(c) + r) == prepend_read(c, json_unescape(r)),
{
    let t = json_escape_char(c) + r;
    assert(t[0] == '\\');
    assert(json_short_escape(t[1]) == Some(c));
    assert(t.subrange(2, t.len() as int) =~= r);
}

proof fn lemma_unescape_hex_piece(c: char, r: Seq<char>)
    requires
        !has_short_json_escape(c),
        (c as int) < 0x20,
    ensures
        json_unescape(json_escape_char(c) + r) == prepend_read(c, json_unescape(r)),
{
    lemma_char_code_nonneg(c);
    let v = c as int;
    lemma_hex_char_value(v / 16);
    lemma_hex_char_value(v % 16);
    let t = json_escape_char(c) + r;
    assert(t[0] == '\\');
    assert(t[1] == 'u');
    assert(json_short_escape(t[1]) is None);
    assert(t.subrange(2, 6) =~= seq!['0', '0', hex_char(v / 16), hex_char(v % 16)]);
    assert(hex4(t.subrange(2, 6)) == Some(v));
    assert(t.subrange(6, t.len() as int) =~= r);
    assert((v as char) == c);
}

proof fn lemma_unescape_plain_piece(c: char, r: Seq<char>)
    requires
        !has_short_json_escape(c),
        (c as int) >= 0x20,
    ensures
        json_unescape(json_escape_char(c) + r) == prepend_read(c, json_unescape(r)),
{
    let t = json_escape_char(c) + r;
    assert(json_escape_char(c) == seq![c]);
    assert(t[0] == c);
    assert(t.drop_first() =~= r);
}

proof fn lemma_json_unescape_escape(s: Seq<char>)
    ensures
        json_unescape(json_escape(s)) == Some(s),
    decreases s.len(),
{
    if s.len() == 0 {
        return;
    }
    let c = s[0];
    let rest = s.drop_first();
    lemma_json_unescape_escape(rest);
    let r = json_escape(rest);
    assert(json_escape(s) == json_escape_char(c) + r);
    if has_short_json_escape(c) {
        lemma_unescape_short_piece(c, r);
    } else if (c as int) < 0x20 {
        lemma_unescape_hex_piece(c, r);
    } else {
        lemma_unescape_plain_piece(c, r);
    }
    assert(seq![c] + rest =~= s);
}

/// A string escaped for JSON and put in double quotes reads back, as a JSON
/// string literal, as the same string.
pub proof fn lemma_json_string_round_trip(s: Seq<char>)
    ensures
        json_string_value(seq!['"'] + json_escape(s) + seq!['"']) == Some(s),
{
    let t = seq!['"'] + json_escape(s) + seq!['"'];
    assert(t.subrange(1, t.len() - 1) =~= json_escape(s));
    lemma_json_unescape_escape(s);
}

/// Appends `s` escaped for the inside of a JSON string.
pub fn append_json_escaped(out: &mut String, s: &str)
    ensures
        final(out)@ == old(out)@ + json_escape(s@),
{
    let len = s.unicode_len();
    let ghost sv = s@;
    let mut i: usize = 0;
    assert(sv.take(0) =~= Seq::<char>::empty());
    while i < len
        invariant
            i <= len,
            len == sv.len(),
            sv == s@,
            out@ == old(out)@ + json_escape(sv.take(i as int)),
        decreases len - i,
    {
        let c = s.get_char(i);
        let v = c as u32;
        assert(v as int == c as int);
        let ghost before = out@;
        proof {
            reveal_strlit("\\\"");
            reveal_strlit("\\\\");
            reveal_strlit("\\b");
            reveal_strlit("\\f");
            reveal_strlit("\\n");
            reveal_strlit("\\r");
            reveal_strlit("\\t");
            reveal_strlit("\\u00");
            assert(sv.take(i as int + 1) =~= sv.take(i as int).push(c));
            lemma_json_escape_push(sv.take(i as int), c);
        }
        if c == '"' {
            out.append("\\\"");
        } else if c == '\\' {
            out.append("\\\\");
        } else if c == '\u{8}' {
            out.append("\\b");
        } else if c == '\u{c}' {
            out.append("\\f");
        } else if c == '\n' {
            out.append("\\n");
        } else if c == '\r' {
            out.append("\\r");
        } else if c == '\t' {
            out.append("\\t");
        } else if v < 0x20 {
            out.append("\\u00");
            out.append(hex_digit_str(v / 16));
            out.append(hex_digit_str(v % 16));
            assert(json_escape_char(c) == seq!['\\', 'u', '0', '0', hex_char(c as int / 16), hex_char(c as int % 16)]);
            assert(out@ =~= before + json_escape_char(c));
        } else {
            let piece = s.substring_char(i, i + 1);
            assert(piece@ =~= seq![c]);
            out.append(piece);
            assert(json_escape_char(c) == seq![c]);
            assert(out@ =~= before + json_escape_char(c));
        }
        assert(out@ =~= before + json_escape_char(c));
        i = i + 1;
    }
    assert(sv.take(len as int) =~= sv);
}

/// `s` without its leading double quotes.
pub open spec fn trim_start_quotes(s: Seq<char>) -> Seq<char>
    decreases s.len(),
{
    if s.len() > 0 && s[0] == '"' {
        trim_start_quotes(s.drop_first())
    } else {
        s
    }
}

/// `s` without its trailing double quotes.
pub open spec fn trim_end_quotes(s: Seq<char>) -> Seq<char>
    decreases s.len(),
{
    if s.len() > 0 && s.last() == '"' {
        trim_end_quotes(s.drop_last())
    } else {
        s
    }
}

/// `s` without its leading and trailing double quotes.
pub open spec fn trim_quotes(s: Seq<char>) -> Seq<char> {
    trim_end_quotes(trim_start_quotes(s))
}

/// `s` without its leading and trailing double quotes, as
/// `str::trim_matches('"')` gives it.
pub fn trim_quotes_str(s: &str) -> (r: String)
    ensures
        r@ == trim_quotes(s@),
{
    let len = s.unicode_len();
    let ghost sv = s@;
    let mut start: usize = 0;
    assert(sv.subrange(0, len as int) =~= sv);
    while start < len && s.get_char(start) == '"'
        invariant
            start <= len,
            len == sv.len(),
            sv == s@,
            trim_start_quotes(sv) == trim_start_quotes(sv.subrange(start as int, len as int)),
        decreases len - start,
    {
        assert(sv.subrange(start as int, len as int).drop_first() =~= sv.subrange(start as int + 1, len as int));
        start = start + 1;
    }
    assert(trim_start_quotes(sv) == sv.subrange(start as int, len as int));
    let mut end: usize = len;
    while end > start && s.get_char(end - 1) == '"'
        invariant
            start <= end <= len,
            len == sv.len(),
            sv == s@,
            trim_quotes(sv) == trim_end_quotes(sv.subrange(start as int, end as int)),
        decreases end,
    {
        assert(sv.subrange(start as int, end as int).drop_last() =~= sv.subrange(start as int, end as int - 1));
        end = end - 1;
    }
    let piece = s.substring_char(start, end);
    String::from_str(piece)
}

proof fn lemma_digit_char_value(d: int)
    requires
        0 <= d < 10,
    ensures
        is_digit(digit_char(d)),
        digit_char(d) as int - '0' as int == d,
{
}

proof fn lemma_nat_digits_value(n: nat)
    ensures
        nat_digits(n).len() > 0,
        forall|i: int| 0 <= i < nat_digits(n).len() ==> is_digit(#[trigger] nat_digits(n)[i]),
        digits_value(nat_digits(n)) == n,
        nat_digits(n)[0] != '-' && nat_digits(n)[0] != '+',
    decreases n,
{
    if n < 10 {
        lemma_digit_char_value(n as int);
        let s = nat_digits(n);
        assert(s.drop_last() =~= Seq::<char>::empty());
        assert(digits_value(s.drop_last()) == 0);
        assert(s.last() == digit_char(n as int));
        assert(digits_value(s) == n);
    } else {
        lemma_nat_digits_value(n / 10);
        lemma_digit_char_value((n % 10) as int);
        let s = nat_digits(n);
        let p = nat_digits(n / 10);
        assert(s.drop_last() =~= p);
        assert(s.last() == digit_char((n % 10) as int));
        assert(digits_value(s) == digits_value(p) * 10 + (n % 10));
        assert(n == (n / 10) * 10 + n % 10);
        assert(s[0] == p[0]);
        assert forall|i: int| 0 <= i < s.len() implies is_digit(#[trigger] s[i]) by {
            if i < p.len() {
                assert(s[i] == p[i]);
            }
        }
    }
}

/// Reading back the decimal text of an `i64` gives the same number.
pub proof fn lemma_decimal_round_trip(n: i64)
    ensures
        spec_parse_i64(int_decimal(n as int)) == Some(n),
{
    if n < 0 {
        let m = (-n) as nat;
        lemma_nat_digits_value(m);
        let t = int_decimal(n as int);
        assert(t[0] == '-');
        assert(t.drop_first() =~= nat_digits(m));
        assert(has_sign(t));
        assert(unsigned_part(t) =~= nat_digits(m));
    } else {
        lemma_nat_digits_value(n as nat);
        let t = int_decimal(n as int);
        assert(!has_sign(t));
    }
}

} // verus!
