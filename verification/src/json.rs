//! A small JSON tree, with a verified renderer and a verified parser.
//!
//! [`Json`] is the executable tree; [`Jv`] is its mathematical view, with
//! sequences in place of strings and vectors.  The wire text of a tree is
//! defined by the spec function [`render`]; the parser is defined by the spec
//! functions around [`spec_parse_value`], and the executable parser returns
//! exactly what they describe.

use vstd::prelude::*;

verus! {

/// Mathematical view of a JSON value.
pub enum Jv {
    Null,
    Bool(bool),
    /// A number, kept as its wire text: the client never computes with the
    /// vendor's decimal values.
    Num(Seq<char>),
    Str(Seq<char>),
    Arr(Seq<Jv>),
    Obj(Seq<(Seq<char>, Jv)>),
}

/// A JSON value.
#[derive(Debug)]
pub enum Json {
    Null,
    Bool(bool),
    /// A number, kept as its wire text.
    Num(String),
    Str(String),
    Arr(Vec<Json>),
    Obj(Vec<(String, Json)>),
}

/// The view of a JSON tree.
pub open spec fn jv_of(v: Json) -> Jv
    decreases v,
{
    match v {
        Json::Null => Jv::Null,
        Json::Bool(b) => Jv::Bool(b),
        Json::Num(s) => Jv::Num(s@),
        Json::Str(s) => Jv::Str(s@),
        Json::Arr(items) => Jv::Arr(jv_of_seq(items@)),
        Json::Obj(members) => Jv::Obj(jv_of_members(members@)),
    }
}

/// The views of a sequence of JSON trees, in order.
pub open spec fn jv_of_seq(s: Seq<Json>) -> Seq<Jv>
    decreases s,
{
    if s.len() == 0 {
        Seq::empty()
    } else {
        seq![jv_of(s[0])] + jv_of_seq(s.drop_first())
    }
}

/// The views of a sequence of object members, in order.
pub open spec fn jv_of_members(s: Seq<(String, Json)>) -> Seq<(Seq<char>, Jv)>
    decreases s,
{
    if s.len() == 0 {
        Seq::empty()
    } else {
        seq![(s[0].0@, jv_of(s[0].1))] + jv_of_members(s.drop_first())
    }
}

impl View for Json {
    type V = Jv;

    open spec fn view(&self) -> Jv {
        jv_of(*self)
    }
}

/// The view of a sequence of trees is the sequence of their views.
pub proof fn lemma_jv_of_seq_props(s: Seq<Json>)
    ensures
        jv_of_seq(s).len() == s.len(),
        forall|i: int| 0 <= i < s.len() ==> jv_of_seq(s)[i] == jv_of(s[i]),
    decreases s.len(),
{
    if s.len() > 0 {
        lemma_jv_of_seq_props(s.drop_first());
    }
}

/// The view of a member sequence pairs each key's view with its value's view.
pub proof fn lemma_jv_of_members_props(s: Seq<(String, Json)>)
    ensures
        jv_of_members(s).len() == s.len(),
        forall|i: int|
            0 <= i < s.len() ==> jv_of_members(s)[i] == (s[i].0@, jv_of(s[i].1)),
    decreases s.len(),
{
    if s.len() > 0 {
        lemma_jv_of_members_props(s.drop_first());
    }
}

/// Relies on std's String::push: appends the given character to the string.
pub assume_specification[ String::push ](s: &mut String, ch: char)
    ensures
        final(s)@ == old(s)@.push(ch),
;

/// The lower-case hexadecimal digit of a value below sixteen.
pub open spec fn hex_char(n: int) -> char {
    if n == 0 { '0' }
    else if n == 1 { '1' }
    else if n == 2 { '2' }
    else if n == 3 { '3' }
    else if n == 4 { '4' }
    else if n == 5 { '5' }
    else if n == 6 { '6' }
    else if n == 7 { '7' }
    else if n == 8 { '8' }
    else if n == 9 { '9' }
    else if n == 10 { 'a' }
    else if n == 11 { 'b' }
    else if n == 12 { 'c' }
    else if n == 13 { 'd' }
    else if n == 14 { 'e' }
    else if n == 15 { 'f' }
    else { '0' }
}

fn hex_char_x(n: u32) -> (c: char)
    requires
        n < 16,
    ensures
        c == hex_char(n as int),
{
    if n == 0 { '0' }
    else if n == 1 { '1' }
    else if n == 2 { '2' }
    else if n == 3 { '3' }
    else if n == 4 { '4' }
    else if n == 5 { '5' }
    else if n == 6 { '6' }
    else if n == 7 { '7' }
    else if n == 8 { '8' }
    else if n == 9 { '9' }
    else if n == 10 { 'a' }
    else if n == 11 { 'b' }
    else if n == 12 { 'c' }
    else if n == 13 { 'd' }
    else if n == 14 { 'e' }
    else { 'f' }
}

/// How one character is written inside a JSON string literal: quotes and
/// backslashes get a backslash escape, the common control characters get
/// their short escapes, any other control character is written as a
/// hexadecimal escape, and everything else stands as itself.
pub open spec fn escape_char(c: char) -> Seq<char> {
    if c == '"' { seq!['\\', '"'] }
    else if c == '\\' { seq!['\\', '\\'] }
    else if c == '\n' { seq!['\\', 'n'] }
    else if c == '\r' { seq!['\\', 'r'] }
    else if c == '\t' { seq!['\\', 't'] }
    else if (c as u32) < 32 {
        seq!['\\', 'u', '0', '0', hex_char((c as u32 / 16) as int), hex_char((c as u32 % 16) as int)]
    } else {
        seq![c]
    }
}

/// The body of a JSON string literal for the given text.
pub open spec fn escape_str(s: Seq<char>) -> Seq<char>
    decreases s.len(),
{
    if s.len() == 0 {
        Seq::empty()
    } else {
        escape_char(s[0]) + escape_str(s.drop_first())
    }
}

/// Escaping distributes over appending one character.
pub proof fn lemma_escape_str_push(s: Seq<char>, c: char)
    ensures
        escape_str(s.push(c)) == escape_str(s) + escape_char(c),
    decreases s.len(),
{
    if s.len() == 0 {
        assert(s.push(c).drop_first() =~= Seq::<char>::empty());
        assert(s.push(c)[0] == c);
        assert(escape_str(s.push(c)) == escape_char(c) + escape_str(Seq::<char>::empty()));
        assert(escape_char(c) + Seq::<char>::empty() =~= Seq::<char>::empty() + escape_char(c));
        assert(escape_str(s.push(c)) =~= escape_str(s) + escape_char(c));
    } else {
        assert(s.push(c).drop_first() =~= s.drop_first().push(c));
        lemma_escape_str_push(s.drop_first(), c);
        assert(s.push(c)[0] == s[0]);
        assert(escape_str(s.push(c)) == escape_char(s[0]) + (escape_str(s.drop_first()) + escape_char(c)));
        assert(escape_char(s[0]) + (escape_str(s.drop_first()) + escape_char(c)) =~= (escape_char(s[0])
            + escape_str(s.drop_first())) + escape_char(c));
        assert(escape_str(s.push(c)) =~= escape_str(s) + escape_char(c));
    }
}

/// Append the escaped body of a JSON string literal for `s` to `out`.
fn write_escaped(out: &mut String, s: &str)
    ensures
        final(out)@ == old(out)@ + escape_str(s@),
{
    let n = s.unicode_len();
    let mut i: usize = 0;
    proof {
        assert(old(out)@ + escape_str(s@.take(0)) =~= old(out)@);
    }
    while i < n
        invariant
            n == s@.len(),
            i <= n,
            out@ == old(out)@ + escape_str(s@.take(i as int)),
        decreases n - i,
    {
        let c = s.get_char(i);
        let v = c as u32;
        if c == '"' {
            out.push('\\');
            out.push('"');
        } else if c == '\\' {
            out.push('\\');
            out.push('\\');
        } else if c == '\n' {
            out.push('\\');
            out.push('n');
        } else if c == '\r' {
            out.push('\\');
            out.push('r');
        } else if c == '\t' {
            out.push('\\');
            out.push('t');
        } else if v < 32 {
            out.push('\\');
            out.push('u');
            out.push('0');
            out.push('0');
            out.push(hex_char_x(v / 16));
            out.push(hex_char_x(v % 16));
        } else {
            out.push(c);
        }
        proof {
            lemma_escape_str_push(s@.take(i as int), s@[i as int]);
            assert(s@.take(i + 1) =~= s@.take(i as int).push(s@[i as int]));
            assert(out@ =~= old(out)@ + escape_str(s@.take(i + 1)));
        }
        i = i + 1;
    }
    proof {
        assert(s@.take(n as int) =~= s@);
    }
}

/// The decimal digit character of a value below ten.
pub open spec fn dec_char(n: int) -> char {
    if n == 0 { '0' }
    else if n == 1 { '1' }
    else if n == 2 { '2' }
    else if n == 3 { '3' }
    else if n == 4 { '4' }
    else if n == 5 { '5' }
    else if n == 6 { '6' }
    else if n == 7 { '7' }
    else if n == 8 { '8' }
    else if n == 9 { '9' }
    else { '0' }
}

fn dec_char_x(n: u64) -> (c: char)
    requires
        n < 10,
    ensures
        c == dec_char(n as int),
{
    if n == 0 { '0' }
    else if n == 1 { '1' }
    else if n == 2 { '2' }
    else if n == 3 { '3' }
    else if n == 4 { '4' }
    else if n == 5 { '5' }
    else if n == 6 { '6' }
    else if n == 7 { '7' }
    else if n == 8 { '8' }
    else { '9' }
}

/// The decimal text of a natural number, without leading zeros.
pub open spec fn dec_str(n: nat) -> Seq<char>
    decreases n,
{
    if n < 10 {
        seq![dec_char(n as int)]
    } else {
        dec_str(n / 10).push(dec_char((n % 10) as int))
    }
}

/// Append the decimal text of `n` to `out`.
pub fn write_u64(out: &mut String, n: u64)
    ensures
        final(out)@ == old(out)@ + dec_str(n as nat),
    decreases n,
{
    if n < 10 {
        out.push(dec_char_x(n));
        proof {
            assert(out@ =~= old(out)@ + dec_str(n as nat));
        }
    } else {
        write_u64(out, n / 10);
        out.push(dec_char_x(n % 10));
        proof {
            assert(out@ =~= old(out)@ + dec_str(n as nat));
        }
    }
}

/// The decimal text of `n` on its own.
pub fn u64_string(n: u64) -> (r: String)
    ensures
        r@ == dec_str(n as nat),
{
    let mut out = String::new();
    write_u64(&mut out, n);
    proof {
        assert(Seq::<char>::empty() + dec_str(n as nat) =~= dec_str(n as nat));
    }
    out
}

/// The wire text of a JSON value: no spacing, strings escaped as
/// [`escape_char`] says, numbers written as the text they carry.
pub open spec fn render(v: Jv) -> Seq<char>
    decreases v,
{
    match v {
        Jv::Null => "null"@,
        Jv::Bool(b) => if b { "true"@ } else { "false"@ },
        Jv::Num(s) => s,
        Jv::Str(s) => seq!['"'] + escape_str(s) + seq!['"'],
        Jv::Arr(items) => seq!['['] + render_items(items) + seq![']'],
        Jv::Obj(members) => seq!['{'] + render_members(members) + seq!['}'],
    }
}

/// The wire text of array elements, separated by commas.
pub open spec fn render_items(s: Seq<Jv>) -> Seq<char>
    decreases s,
{
    if s.len() == 0 {
        Seq::empty()
    } else if s.len() == 1 {
        render(s[0])
    } else {
        render(s[0]) + seq![','] + render_items(s.drop_first())
    }
}

/// The wire text of object members, separated by commas.
pub open spec fn render_members(s: Seq<(Seq<char>, Jv)>) -> Seq<char>
    decreases s,
{
    if s.len() == 0 {
        Seq::empty()
    } else {
        let head = seq!['"'] + escape_str(s[0].0) + seq!['"', ':'] + render(s[0].1);
        if s.len() == 1 {
            head
        } else {
            head + seq![','] + render_members(s.drop_first())
        }
    }
}

/// Append the wire text of `v` to `out`.
pub fn write_json(out: &mut String, v: &Json)
    ensures
        final(out)@ == old(out)@ + render(v@),
    decreases v, 0int,
{
    match v {
        Json::Null => {
            out.append("null");
        }
        Json::Bool(b) => {
            if *b {
                out.append("true");
            } else {
                out.append("false");
            }
        }
        Json::Num(s) => {
            out.append(s.as_str());
        }
        Json::Str(s) => {
            out.push('"');
            write_escaped(out, s.as_str());
            out.push('"');
            proof {
                assert(out@ =~= old(out)@ + render(v@));
            }
        }
        Json::Arr(items) => {
            out.push('[');
            if items.len() > 0 {
                write_items(out, items, 0);
            }
            out.push(']');
            proof {
                if items@.len() == 0 {
                    assert(out@ =~= old(out)@ + render(v@));
                } else {
                    assert(jv_of_seq(items@).skip(0) =~= jv_of_seq(items@));
                    assert(out@ =~= old(out)@ + render(v@));
                }
            }
        }
        Json::Obj(members) => {
            out.push('{');
            if members.len() > 0 {
                write_members(out, members, 0);
            }
            out.push('}');
            proof {
                if members@.len() == 0 {
                    assert(out@ =~= old(out)@ + render(v@));
                } else {
                    assert(jv_of_members(members@).skip(0) =~= jv_of_members(members@));
                    assert(out@ =~= old(out)@ + render(v@));
                }
            }
        }
    }
}

/// Append the wire text of the elements from `idx` on to `out`.
fn write_items(out: &mut String, items: &Vec<Json>, idx: usize)
    requires
        idx < items.len(),
    ensures
        final(out)@ == old(out)@ + render_items(jv_of_seq(items@).skip(idx as int)),
    decreases items, items.len() - idx,
{
    proof {
        lemma_jv_of_seq_props(items@);
    }
    write_json(out, &items[idx]);
    if idx + 1 < items.len() {
        out.push(',');
        write_items(out, items, idx + 1);
        proof {
            let t = jv_of_seq(items@);
            assert(t.skip(idx as int).drop_first() =~= t.skip(idx + 1));
            assert(out@ =~= old(out)@ + render_items(t.skip(idx as int)));
        }
    } else {
        proof {
            let t = jv_of_seq(items@);
            assert(t.skip(idx as int).len() == 1);
            assert(t.skip(idx as int)[0] == jv_of(items@[idx as int]));
            assert(out@ =~= old(out)@ + render_items(t.skip(idx as int)));
        }
    }
}

/// Append the wire text of the members from `idx` on to `out`.
fn write_members(out: &mut String, members: &Vec<(String, Json)>, idx: usize)
    requires
        idx < members.len(),
    ensures
        final(out)@ == old(out)@ + render_members(jv_of_members(members@).skip(idx as int)),
    decreases members, members.len() - idx,
{
    proof {
        lemma_jv_of_members_props(members@);
    }
    out.push('"');
    write_escaped(out, members[idx].0.as_str());
    out.push('"');
    out.push(':');
    write_json(out, &members[idx].1);
    if idx + 1 < members.len() {
        out.push(',');
        write_members(out, members, idx + 1);
        proof {
            let t = jv_of_members(members@);
            assert(t.skip(idx as int).drop_first() =~= t.skip(idx + 1));
            assert(out@ =~= old(out)@ + render_members(t.skip(idx as int)));
        }
    } else {
        proof {
            let t = jv_of_members(members@);
            assert(t.skip(idx as int).len() == 1);
            assert(t.skip(idx as int)[0] == jv_of_members(members@)[idx as int]);
            assert(out@ =~= old(out)@ + render_members(t.skip(idx as int)));
        }
    }
}

/// The wire text of `v` on its own.
pub fn to_json_string(v: &Json) -> (r: String)
    ensures
        r@ == render(v@),
{
    let mut out = String::new();
    write_json(&mut out, v);
    proof {
        assert(Seq::<char>::empty() + render(v@) =~= render(v@));
    }
    out
}

/// The characters of a string as a vector.
pub fn chars_of(s: &str) -> (v: Vec<char>)
    ensures
        v@ == s@,
{
    let n = s.unicode_len();
    let mut v: Vec<char> = Vec::new();
    while v.len() < n
        invariant
            n == s@.len(),
            v@.len() <= n,
            v@ == s@.take(v@.len() as int),
        decreases n - v.len(),
    {
        let i = v.len();
        v.push(s.get_char(i));
        proof {
            assert(v@ =~= s@.take(v@.len() as int));
        }
    }
    proof {
        assert(s@.take(n as int) =~= s@);
    }
    v
}

/// The characters of `s` between `from` and `to` as a string.
fn copy_range(s: &Vec<char>, from: usize, to: usize) -> (t: String)
    requires
        from <= to <= s.len(),
    ensures
        t@ == s@.subrange(from as int, to as int),
{
    let mut t = String::new();
    let mut i: usize = from;
    proof {
        assert(t@ =~= s@.subrange(from as int, from as int));
    }
    while i < to
        invariant
            from <= i <= to <= s@.len(),
            t@ == s@.subrange(from as int, i as int),
        decreases to - i,
    {
        t.push(s[i]);
        proof {
            assert(t@ =~= s@.subrange(from as int, i + 1));
        }
        i = i + 1;
    }
    t
}

/// Whitespace between JSON tokens.
pub open spec fn is_ws(c: char) -> bool {
    c == ' ' || c == '\t' || c == '\n' || c == '\r'
}

/// The first position at or after `i` that does not hold whitespace.
pub open spec fn ws_end(s: Seq<char>, i: int) -> int
    decreases s.len() - i,
{
    if 0 <= i < s.len() && is_ws(s[i]) {
        ws_end(s, i + 1)
    } else {
        i
    }
}

fn skip_ws(s: &Vec<char>, i: usize) -> (r: usize)
    requires
        i <= s.len(),
    ensures
        r as int == ws_end(s@, i as int),
        i <= r <= s.len(),
    decreases s.len() - i,
{
    if i < s.len() {
        let c = s[i];
        if c == ' ' || c == '\t' || c == '\n' || c == '\r' {
            return skip_ws(s, i + 1);
        }
    }
    i
}

/// A decimal digit.
pub open spec fn is_digit(c: char) -> bool {
    48 <= c as u32 && c as u32 <= 57
}

/// A character that may appear inside a JSON number token.
pub open spec fn is_num_char(c: char) -> bool {
    is_digit(c) || c == '-' || c == '+' || c == '.' || c == 'e' || c == 'E'
}

/// The first position at or after `i` that does not hold a number character.
pub open spec fn num_end(s: Seq<char>, i: int) -> int
    decreases s.len() - i,
{
    if 0 <= i < s.len() && is_num_char(s[i]) {
        num_end(s, i + 1)
    } else {
        i
    }
}

fn scan_num(s: &Vec<char>, i: usize) -> (r: usize)
    requires
        i <= s.len(),
    ensures
        r as int == num_end(s@, i as int),
        i <= r <= s.len(),
    decreases s.len() - i,
{
    if i < s.len() {
        let c = s[i];
        let v = c as u32;
        if (48 <= v && v <= 57) || c == '-' || c == '+' || c == '.' || c == 'e' || c == 'E' {
            return scan_num(s, i + 1);
        }
    }
    i
}

/// A hexadecimal digit, in either case.
pub open spec fn is_hex_digit(c: char) -> bool {
    is_digit(c) || (97 <= c as u32 <= 102) || (65 <= c as u32 <= 70)
}

/// The value of a hexadecimal digit.
pub open spec fn hex_digit_val(c: char) -> int {
    if is_digit(c) {
        c as u32 - 48
    } else if 97 <= c as u32 <= 102 {
        c as u32 - 87
    } else if 65 <= c as u32 <= 70 {
        c as u32 - 55
    } else {
        0
    }
}

/// Four hexadecimal digits stand at `i`.
pub open spec fn has_hex4(s: Seq<char>, i: int) -> bool {
    i + 4 <= s.len() && is_hex_digit(s[i]) && is_hex_digit(s[i + 1]) && is_hex_digit(s[i + 2])
        && is_hex_digit(s[i + 3])
}

/// The value of the four hexadecimal digits at `i`.
pub open spec fn hex4_val(s: Seq<char>, i: int) -> int {
    hex_digit_val(s[i]) * 4096 + hex_digit_val(s[i + 1]) * 256 + hex_digit_val(s[i + 2]) * 16
        + hex_digit_val(s[i + 3])
}

/// The character with the given scalar value.
pub open spec fn char_from_code(n: int) -> char {
    (n as u32) as char
}

/// Relies on std's char::from_u32: the character with the given scalar
/// value, or None exactly when the value is a surrogate or too large.
pub assume_specification[ char::from_u32 ](n: u32) -> (r: Option<char>)
    ensures
        r matches Some(c) ==> c as u32 == n,
        (r is None) == (0xD800 <= n < 0xE000 || n > 0x10FFFF),
;

fn hex_val_x(c: char) -> (r: Option<u32>)
    ensures
        (r is Some) == is_hex_digit(c),
        r matches Some(v) ==> (v == hex_digit_val(c) && v < 16),
{
    let v = c as u32;
    if 48 <= v && v <= 57 {
        Some(v - 48)
    } else if 97 <= v && v <= 102 {
        Some(v - 87)
    } else if 65 <= v && v <= 70 {
        Some(v - 55)
    } else {
        None
    }
}

fn read_hex4(s: &Vec<char>, i: usize) -> (r: Option<u32>)
    requires
        i <= s.len(),
    ensures
        (r is Some) == has_hex4(s@, i as int),
        r matches Some(v) ==> (v == hex4_val(s@, i as int) && v < 0x10000),
{
    if s.len() - i < 4 {
        return None;
    }
    let h0 = match hex_val_x(s[i]) {
        Some(v) => v,
        None => return None,
    };
    let h1 = match hex_val_x(s[i + 1]) {
        Some(v) => v,
        None => return None,
    };
    let h2 = match hex_val_x(s[i + 2]) {
        Some(v) => v,
        None => return None,
    };
    let h3 = match hex_val_x(s[i + 3]) {
        Some(v) => v,
        None => return None,
    };
    Some(h0 * 4096 + h1 * 256 + h2 * 16 + h3)
}

/// The first position at or after `i` that does not hold a decimal digit.
pub open spec fn digits_end(s: Seq<char>, i: int) -> int
    decreases s.len() - i,
{
    if 0 <= i < s.len() && is_digit(s[i]) {
        digits_end(s, i + 1)
    } else {
        i
    }
}

fn scan_digits(s: &Vec<char>, i: usize) -> (r: usize)
    requires
        i <= s.len(),
    ensures
        r as int == digits_end(s@, i as int),
        i <= r <= s.len(),
    decreases s.len() - i,
{
    if i < s.len() {
        let v = s[i] as u32;
        if 48 <= v && v <= 57 {
            return scan_digits(s, i + 1);
        }
    }
    i
}

/// A JSON number token: an optional minus, an integer part without leading
/// zeros, then an optional fraction and an optional exponent.
pub open spec fn is_json_number(s: Seq<char>) -> bool {
    let i0: int = if s.len() > 0 && s[0] == '-' {
        1
    } else {
        0
    };
    if i0 >= s.len() || !is_digit(s[i0]) {
        false
    } else {
        let i1: int = if s[i0] == '0' {
            i0 + 1
        } else {
            digits_end(s, i0)
        };
        let i2: int = if i1 < s.len() && s[i1] == '.' {
            if i1 + 1 < s.len() && is_digit(s[i1 + 1]) {
                digits_end(s, i1 + 1)
            } else {
                -1
            }
        } else {
            i1
        };
        if i2 < 0 {
            false
        } else {
            let i3: int = if i2 < s.len() && (s[i2] == 'e' || s[i2] == 'E') {
                let j: int = if i2 + 1 < s.len() && (s[i2 + 1] == '+' || s[i2 + 1] == '-') {
                    i2 + 2
                } else {
                    i2 + 1
                };
                if j < s.len() && is_digit(s[j]) {
                    digits_end(s, j)
                } else {
                    -1
                }
            } else {
                i2
            };
            i3 == s.len()
        }
    }
}

fn is_json_number_x(s: &Vec<char>) -> (r: bool)
    ensures
        r == is_json_number(s@),
{
    let n = s.len();
    let i0: usize = if n > 0 && s[0] == '-' {
        1
    } else {
        0
    };
    if i0 >= n {
        return false;
    }
    let v0 = s[i0] as u32;
    if !(48 <= v0 && v0 <= 57) {
        return false;
    }
    let i1: usize = if s[i0] == '0' {
        i0 + 1
    } else {
        scan_digits(s, i0)
    };
    let mut i2: usize = i1;
    if i1 < n && s[i1] == '.' {
        if i1 + 1 < n {
            let vf = s[i1 + 1] as u32;
            if 48 <= vf && vf <= 57 {
                i2 = scan_digits(s, i1 + 1);
            } else {
                return false;
            }
        } else {
            return false;
        }
    }
    let mut i3: usize = i2;
    if i2 < n && (s[i2] == 'e' || s[i2] == 'E') {
        let j: usize = if i2 + 1 < n && (s[i2 + 1] == '+' || s[i2 + 1] == '-') {
            i2 + 2
        } else {
            i2 + 1
        };
        if j < n {
            let ve = s[j] as u32;
            if 48 <= ve && ve <= 57 {
                i3 = scan_digits(s, j);
            } else {
                return false;
            }
        } else {
            return false;
        }
    }
    i3 == n
}

/// Decide whether a string is a JSON number token.
pub fn check_json_number(s: &str) -> (r: bool)
    ensures
        r == is_json_number(s@),
{
    let cs = chars_of(s);
    is_json_number_x(&cs)
}

/// An optional number text can be sent when it is absent or a JSON number
/// token.
pub open spec fn opt_number_ok(o: Option<Seq<char>>) -> bool {
    match o {
        Option::None => true,
        Option::Some(s) => is_json_number(s),
    }
}

/// The character a short escape stands for, if the escape is recognised.
pub open spec fn unescape_char(c: char) -> Option<char> {
    if c == '"' { Some('"') }
    else if c == '\\' { Some('\\') }
    else if c == '/' { Some('/') }
    else if c == 'n' { Some('\n') }
    else if c == 'r' { Some('\r') }
    else if c == 't' { Some('\t') }
    else if c == 'b' { Some('\u{8}') }
    else if c == 'f' { Some('\u{c}') }
    else { None }
}

fn unescape_char_x(c: char) -> (r: Option<char>)
    ensures
        r == unescape_char(c),
{
    if c == '"' { Some('"') }
    else if c == '\\' { Some('\\') }
    else if c == '/' { Some('/') }
    else if c == 'n' { Some('\n') }
    else if c == 'r' { Some('\r') }
    else if c == 't' { Some('\t') }
    else if c == 'b' { Some('\u{8}') }
    else if c == 'f' { Some('\u{c}') }
    else { None }
}

/// The contents of a JSON string literal starting just after its opening
/// quote at `i`, together with the position just after the closing quote.
/// The short escapes of [`unescape_char`] and `\uXXXX` escapes are
/// recognised; a surrogate escape must be a high/low pair, which stands for
/// one supplementary character, and a lone surrogate fails the parse.
pub open spec fn spec_parse_string(s: Seq<char>, i: int) -> Option<(Seq<char>, int)>
    decreases s.len() - i,
{
    if !(0 <= i < s.len()) {
        None
    } else {
        let c = s[i];
        if c == '"' {
            Some((Seq::empty(), i + 1))
        } else if c == '\\' {
            if i + 1 < s.len() {
                if s[i + 1] == 'u' {
                    if has_hex4(s, i + 2) {
                        let code = hex4_val(s, i + 2);
                        if 0xD800 <= code < 0xDC00 {
                            if i + 8 <= s.len() && s[i + 6] == '\\' && s[i + 7] == 'u'
                                && has_hex4(s, i + 8) {
                                let lo = hex4_val(s, i + 8);
                                if 0xDC00 <= lo < 0xE000 {
                                    let ch = char_from_code(
                                        0x10000 + (code - 0xD800) * 0x400 + (lo - 0xDC00),
                                    );
                                    match spec_parse_string(s, i + 12) {
                                        Some(p) => Some((seq![ch] + p.0, p.1)),
                                        None => None,
                                    }
                                } else {
                                    None
                                }
                            } else {
                                None
                            }
                        } else if 0xDC00 <= code < 0xE000 {
                            None
                        } else {
                            let ch = char_from_code(code);
                            match spec_parse_string(s, i + 6) {
                                Some(p) => Some((seq![ch] + p.0, p.1)),
                                None => None,
                            }
                        }
                    } else {
                        None
                    }
                } else {
                    match unescape_char(s[i + 1]) {
                        Some(ch) => match spec_parse_string(s, i + 2) {
                            Some(p) => Some((seq![ch] + p.0, p.1)),
                            None => None,
                        },
                        None => None,
                    }
                }
            } else {
                None
            }
        } else {
            match spec_parse_string(s, i + 1) {
                Some(p) => Some((seq![c] + p.0, p.1)),
                None => None,
            }
        }
    }
}

fn parse_string_x(s: &Vec<char>, i: usize, acc: String) -> (r: Option<(String, usize)>)
    requires
        i <= s.len(),
    ensures
        (r is Some) == (spec_parse_string(s@, i as int) is Some),
        r matches Some(p) ==> (spec_parse_string(s@, i as int) matches Some(q) && p.0@ == acc@
            + q.0 && p.1 as int == q.1 && p.1 <= s.len()),
    decreases s.len() - i,
{
    if i >= s.len() {
        return None;
    }
    let c = s[i];
    if c == '"' {
        proof {
            assert(acc@ + Seq::<char>::empty() =~= acc@);
        }
        Some((acc, i + 1))
    } else if c == '\\' {
        if i + 1 < s.len() {
            if s[i + 1] == 'u' {
                match read_hex4(s, i + 2) {
                    Some(code) => {
                        if 0xD800 <= code && code < 0xDC00 {
                            if s.len() - (i + 2) >= 6 && s[i + 6] == '\\' && s[i + 7] == 'u' {
                                match read_hex4(s, i + 8) {
                                    Some(lo) => {
                                        if 0xDC00 <= lo && lo < 0xE000 {
                                            let n: u32 = 0x10000 + (code - 0xD800) * 0x400 + (lo
                                                - 0xDC00);
                                            match char::from_u32(n) {
                                                Some(ch) => {
                                                    proof {
                                                        vstd::utf8::char_u32_cast(ch, n);
                                                        assert(char_from_code(n as int) == ch);
                                                    }
                                                    let mut acc2 = acc;
                                                    let ghost acc0 = acc2@;
                                                    acc2.push(ch);
                                                    let r = parse_string_x(s, i + 12, acc2);
                                                    proof {
                                                        if r is Some {
                                                            let q = spec_parse_string(
                                                                s@,
                                                                (i + 12) as int,
                                                            )->Some_0;
                                                            assert(acc0.push(ch) + q.0 =~= acc0
                                                                + (seq![ch] + q.0));
                                                        }
                                                    }
                                                    r
                                                }
                                                None => None,
                                            }
                                        } else {
                                            None
                                        }
                                    }
                                    None => None,
                                }
                            } else {
                                None
                            }
                        } else if 0xDC00 <= code && code < 0xE000 {
                            None
                        } else {
                            match char::from_u32(code) {
                                Some(ch) => {
                                    proof {
                                        vstd::utf8::char_u32_cast(ch, code);
                                        assert(char_from_code(code as int) == ch);
                                    }
                                    let mut acc2 = acc;
                                    let ghost acc0 = acc2@;
                                    acc2.push(ch);
                                    let r = parse_string_x(s, i + 6, acc2);
                                    proof {
                                        if r is Some {
                                            let q = spec_parse_string(s@, (i + 6) as int)->Some_0;
                                            assert(acc0.push(ch) + q.0 =~= acc0 + (seq![ch]
                                                + q.0));
                                        }
                                    }
                                    r
                                }
                                None => None,
                            }
                        }
                    }
                    None => None,
                }
            } else {
                match unescape_char_x(s[i + 1]) {
                    Some(ch) => {
                        let mut acc2 = acc;
                        let ghost acc0 = acc2@;
                        acc2.push(ch);
                        let r = parse_string_x(s, i + 2, acc2);
                        proof {
                            if r is Some {
                                let q = spec_parse_string(s@, (i + 2) as int)->Some_0;
                                assert(acc0.push(ch) + q.0 =~= acc0 + (seq![ch] + q.0));
                            }
                        }
                        r
                    }
                    None => None,
                }
            }
        } else {
            None
        }
    } else {
        let mut acc2 = acc;
        let ghost acc0 = acc2@;
        acc2.push(c);
        let r = parse_string_x(s, i + 1, acc2);
        proof {
            if r is Some {
                let q = spec_parse_string(s@, (i + 1) as int)->Some_0;
                assert(acc0.push(c) + q.0 =~= acc0 + (seq![c] + q.0));
            }
        }
        r
    }
}

/// A JSON value starting at `i`, with the position just after it.  The fuel
/// bounds the nesting the parse may descend into.
pub open spec fn spec_parse_value(s: Seq<char>, i: int, fuel: nat) -> Option<(Jv, int)>
    decreases fuel,
{
    if fuel == 0 {
        None
    } else {
        let j = ws_end(s, i);
        if !(0 <= j < s.len()) {
            None
        } else {
            let c = s[j];
            if c == '"' {
                match spec_parse_string(s, j + 1) {
                    Some(p) => Some((Jv::Str(p.0), p.1)),
                    None => None,
                }
            } else if c == '[' {
                let j2 = ws_end(s, j + 1);
                if 0 <= j2 < s.len() && s[j2] == ']' {
                    Some((Jv::Arr(Seq::empty()), j2 + 1))
                } else {
                    match spec_parse_elems(s, j + 1, (fuel - 1) as nat) {
                        Some(p) => Some((Jv::Arr(p.0), p.1)),
                        None => None,
                    }
                }
            } else if c == '{' {
                let j2 = ws_end(s, j + 1);
                if 0 <= j2 < s.len() && s[j2] == '}' {
                    Some((Jv::Obj(Seq::empty()), j2 + 1))
                } else {
                    match spec_parse_members(s, j + 1, (fuel - 1) as nat) {
                        Some(p) => Some((Jv::Obj(p.0), p.1)),
                        None => None,
                    }
                }
            } else if c == 't' {
                if j + 4 <= s.len() && s[j + 1] == 'r' && s[j + 2] == 'u' && s[j + 3] == 'e' {
                    Some((Jv::Bool(true), j + 4))
                } else {
                    None
                }
            } else if c == 'f' {
                if j + 5 <= s.len() && s[j + 1] == 'a' && s[j + 2] == 'l' && s[j + 3] == 's'
                    && s[j + 4] == 'e' {
                    Some((Jv::Bool(false), j + 5))
                } else {
                    None
                }
            } else if c == 'n' {
                if j + 4 <= s.len() && s[j + 1] == 'u' && s[j + 2] == 'l' && s[j + 3] == 'l' {
                    Some((Jv::Null, j + 4))
                } else {
                    None
                }
            } else if is_digit(c) || c == '-' {
                let e = num_end(s, j);
                if is_json_number(s.subrange(j, e)) {
                    Some((Jv::Num(s.subrange(j, e)), e))
                } else {
                    None
                }
            } else {
                None
            }
        }
    }
}

/// The elements of an array from `i` (just after `[` or a comma) up to and
/// including the closing bracket.
pub open spec fn spec_parse_elems(s: Seq<char>, i: int, fuel: nat) -> Option<(Seq<Jv>, int)>
    decreases fuel,
{
    if fuel == 0 {
        None
    } else {
        match spec_parse_value(s, i, (fuel - 1) as nat) {
            Some(p) => {
                let k = ws_end(s, p.1);
                if 0 <= k < s.len() {
                    if s[k] == ']' {
                        Some((seq![p.0], k + 1))
                    } else if s[k] == ',' {
                        match spec_parse_elems(s, k + 1, (fuel - 1) as nat) {
                            Some(q) => Some((seq![p.0] + q.0, q.1)),
                            None => None,
                        }
                    } else {
                        None
                    }
                } else {
                    None
                }
            }
            None => None,
        }
    }
}

/// The members of an object from `i` (just after `{` or a comma) up to and
/// including the closing brace.
pub open spec fn spec_parse_members(s: Seq<char>, i: int, fuel: nat) -> Option<
    (Seq<(Seq<char>, Jv)>, int),
>
    decreases fuel,
{
    if fuel == 0 {
        None
    } else {
        let j = ws_end(s, i);
        if !(0 <= j < s.len() && s[j] == '"') {
            None
        } else {
            match spec_parse_string(s, j + 1) {
                Some(kp) => {
                    let c = ws_end(s, kp.1);
                    if !(0 <= c < s.len() && s[c] == ':') {
                        None
                    } else {
                        match spec_parse_value(s, c + 1, (fuel - 1) as nat) {
                            Some(vp) => {
                                let k = ws_end(s, vp.1);
                                if 0 <= k < s.len() {
                                    if s[k] == '}' {
                                        Some((seq![(kp.0, vp.0)], k + 1))
                                    } else if s[k] == ',' {
                                        match spec_parse_members(s, k + 1, (fuel - 1) as nat) {
                                            Some(q) => Some((seq![(kp.0, vp.0)] + q.0, q.1)),
                                            None => None,
                                        }
                                    } else {
                                        None
                                    }
                                } else {
                                    None
                                }
                            }
                            None => None,
                        }
                    }
                }
                None => None,
            }
        }
    }
}

/// Views of a vector extended by one element.
pub proof fn lemma_jv_of_seq_push(s: Seq<Json>, v: Json)
    ensures
        jv_of_seq(s.push(v)) == jv_of_seq(s).push(jv_of(v)),
{
    lemma_jv_of_seq_props(s);
    lemma_jv_of_seq_props(s.push(v));
    assert(jv_of_seq(s.push(v)) =~= jv_of_seq(s).push(jv_of(v)));
}

/// Views of a member vector extended by one member.
pub proof fn lemma_jv_of_members_push(s: Seq<(String, Json)>, m: (String, Json))
    ensures
        jv_of_members(s.push(m)) == jv_of_members(s).push((m.0@, jv_of(m.1))),
{
    lemma_jv_of_members_props(s);
    lemma_jv_of_members_props(s.push(m));
    assert(jv_of_members(s.push(m)) =~= jv_of_members(s).push((m.0@, jv_of(m.1))));
}

fn parse_value_x(s: &Vec<char>, i: usize, fuel: u128) -> (r: Option<(Json, usize)>)
    requires
        i <= s.len(),
    ensures
        (r is Some) == (spec_parse_value(s@, i as int, fuel as nat) is Some),
        r matches Some(p) ==> (spec_parse_value(s@, i as int, fuel as nat) matches Some(q) && p.0@
            == q.0 && p.1 as int == q.1 && p.1 <= s.len()),
    decreases fuel,
{
    if fuel == 0 {
        return None;
    }
    let j = skip_ws(s, i);
    if j >= s.len() {
        return None;
    }
    let c = s[j];
    if c == '"' {
        match parse_string_x(s, j + 1, String::new()) {
            Some(p) => {
                proof {
                    let q = spec_parse_string(s@, j + 1)->Some_0;
                    assert(p.0@ =~= q.0);
                }
                Some((Json::Str(p.0), p.1))
            }
            None => None,
        }
    } else if c == '[' {
        let j2 = skip_ws(s, j + 1);
        if j2 < s.len() && s[j2] == ']' {
            let items: Vec<Json> = Vec::new();
            proof {
                assert(jv_of(Json::Arr(items)) == Jv::Arr(jv_of_seq(items@)));
            }
            Some((Json::Arr(items), j2 + 1))
        } else {
            match parse_elems_x(s, j + 1, fuel - 1, Vec::new()) {
                Some(p) => {
                    proof {
                        let q = spec_parse_elems(s@, j + 1, (fuel - 1) as nat)->Some_0;
                        assert(jv_of_seq(Seq::<Json>::empty()) + q.0 =~= q.0);
                    }
                    Some((Json::Arr(p.0), p.1))
                }
                None => None,
            }
        }
    } else if c == '{' {
        let j2 = skip_ws(s, j + 1);
        if j2 < s.len() && s[j2] == '}' {
            let members: Vec<(String, Json)> = Vec::new();
            proof {
                assert(jv_of(Json::Obj(members)) == Jv::Obj(jv_of_members(members@)));
            }
            Some((Json::Obj(members), j2 + 1))
        } else {
            match parse_members_x(s, j + 1, fuel - 1, Vec::new()) {
                Some(p) => {
                    proof {
                        let q = spec_parse_members(s@, j + 1, (fuel - 1) as nat)->Some_0;
                        assert(jv_of_members(Seq::<(String, Json)>::empty()) + q.0 =~= q.0);
                    }
                    Some((Json::Obj(p.0), p.1))
                }
                None => None,
            }
        }
    } else if c == 't' {
        if s.len() - j >= 4 && s[j + 1] == 'r' && s[j + 2] == 'u' && s[j + 3] == 'e' {
            Some((Json::Bool(true), j + 4))
        } else {
            None
        }
    } else if c == 'f' {
        if s.len() - j >= 5 && s[j + 1] == 'a' && s[j + 2] == 'l' && s[j + 3] == 's' && s[j + 4]
            == 'e' {
            Some((Json::Bool(false), j + 5))
        } else {
            None
        }
    } else if c == 'n' {
        if s.len() - j >= 4 && s[j + 1] == 'u' && s[j + 2] == 'l' && s[j + 3] == 'l' {
            Some((Json::Null, j + 4))
        } else {
            None
        }
    } else {
        let v = c as u32;
        if (48 <= v && v <= 57) || c == '-' {
            let e = scan_num(s, j);
            let t = copy_range(s, j, e);
            let tc = chars_of(t.as_str());
            if is_json_number_x(&tc) {
                Some((Json::Num(t), e))
            } else {
                None
            }
        } else {
            None
        }
    }
}

fn parse_elems_x(s: &Vec<char>, i: usize, fuel: u128, acc: Vec<Json>) -> (r: Option<
    (Vec<Json>, usize),
>)
    requires
        i <= s.len(),
    ensures
        (r is Some) == (spec_parse_elems(s@, i as int, fuel as nat) is Some),
        r matches Some(p) ==> (spec_parse_elems(s@, i as int, fuel as nat) matches Some(q)
            && jv_of_seq(p.0@) == jv_of_seq(acc@) + q.0 && p.1 as int == q.1 && p.1 <= s.len()),
    decreases fuel,
{
    if fuel == 0 {
        return None;
    }
    match parse_value_x(s, i, fuel - 1) {
        Some(vp) => {
            let k = skip_ws(s, vp.1);
            if k < s.len() {
                let ck = s[k];
                let mut acc2 = acc;
                let ghost acc0 = acc2@;
                acc2.push(vp.0);
                proof {
                    lemma_jv_of_seq_push(acc0, acc2@[acc0.len() as int]);
                }
                if ck == ']' {
                    proof {
                        let q = spec_parse_elems(s@, i as int, fuel as nat)->Some_0;
                        assert(jv_of_seq(acc2@) =~= jv_of_seq(acc0) + q.0);
                    }
                    Some((acc2, k + 1))
                } else if ck == ',' {
                    let r = parse_elems_x(s, k + 1, fuel - 1, acc2);
                    proof {
                        if r is Some {
                            let q1 = spec_parse_elems(s@, k + 1, (fuel - 1) as nat)->Some_0;
                            let vq = spec_parse_value(s@, i as int, (fuel - 1) as nat)->Some_0;
                            assert(jv_of_seq(acc0).push(vq.0) + q1.0 =~= jv_of_seq(acc0) + (seq![
                                vq.0] + q1.0));
                        }
                    }
                    r
                } else {
                    None
                }
            } else {
                None
            }
        }
        None => None,
    }
}

fn parse_members_x(s: &Vec<char>, i: usize, fuel: u128, acc: Vec<(String, Json)>) -> (r: Option<
    (Vec<(String, Json)>, usize),
>)
    requires
        i <= s.len(),
    ensures
        (r is Some) == (spec_parse_members(s@, i as int, fuel as nat) is Some),
        r matches Some(p) ==> (spec_parse_members(s@, i as int, fuel as nat) matches Some(q)
            && jv_of_members(p.0@) == jv_of_members(acc@) + q.0 && p.1 as int == q.1 && p.1
            <= s.len()),
    decreases fuel,
{
    if fuel == 0 {
        return None;
    }
    let j = skip_ws(s, i);
    if !(j < s.len() && s[j] == '"') {
        return None;
    }
    match parse_string_x(s, j + 1, String::new()) {
        Some(kp) => {
            let c = skip_ws(s, kp.1);
            if !(c < s.len() && s[c] == ':') {
                return None;
            }
            match parse_value_x(s, c + 1, fuel - 1) {
                Some(vp) => {
                    let k = skip_ws(s, vp.1);
                    if k < s.len() {
                        let ck = s[k];
                        let mut acc2 = acc;
                        let ghost acc0 = acc2@;
                        acc2.push((kp.0, vp.0));
                        proof {
                            lemma_jv_of_members_push(acc0, acc2@[acc0.len() as int]);
                            let kq = spec_parse_string(s@, j + 1)->Some_0;
                            assert(acc2@[acc0.len() as int].0@ =~= kq.0);
                        }
                        if ck == '}' {
                            proof {
                                let q = spec_parse_members(s@, i as int, fuel as nat)->Some_0;
                                assert(jv_of_members(acc2@) =~= jv_of_members(acc0) + q.0);
                            }
                            Some((acc2, k + 1))
                        } else if ck == ',' {
                            let r = parse_members_x(s, k + 1, fuel - 1, acc2);
                            proof {
                                if r is Some {
                                    let q1 = spec_parse_members(s@, k + 1, (fuel - 1) as nat)
                                        ->Some_0;
                                    let kq = spec_parse_string(s@, j + 1)->Some_0;
                                    let vq = spec_parse_value(s@, c + 1, (fuel - 1) as nat)
                                        ->Some_0;
                                    assert(jv_of_members(acc0).push((kq.0, vq.0)) + q1.0
                                        =~= jv_of_members(acc0) + (seq![(kq.0, vq.0)] + q1.0));
                                }
                            }
                            r
                        } else {
                            None
                        }
                    } else {
                        None
                    }
                }
                None => None,
            }
        }
        None => None,
    }
}

/// A whole JSON document: one value, possibly surrounded by whitespace.
pub open spec fn spec_parse_json(t: Seq<char>) -> Option<Jv> {
    match spec_parse_value(t, 0, (t.len() + 1) as nat) {
        Some(p) => {
            if ws_end(t, p.1) == t.len() {
                Some(p.0)
            } else {
                None
            }
        }
        None => None,
    }
}

/// Parse a JSON document.
pub fn parse_json(s: &str) -> (r: Option<Json>)
    ensures
        (r is Some) == (spec_parse_json(s@) is Some),
        r matches Some(v) ==> spec_parse_json(s@) == Some(v@),
{
    let cs = chars_of(s);
    let fuel: u128 = (cs.len() as u128) + 1;
    match parse_value_x(&cs, 0, fuel) {
        Some(p) => {
            let k = skip_ws(&cs, p.1);
            if k == cs.len() {
                Some(p.0)
            } else {
                None
            }
        }
        None => None,
    }
}

/// The numeric value of a digit character.
pub open spec fn digit_val(c: char) -> nat {
    if is_digit(c) {
        (c as u32 - 48) as nat
    } else {
        0
    }
}

/// The value of a digit string, most significant digit first.
pub open spec fn dec_val(s: Seq<char>) -> nat
    decreases s.len(),
{
    if s.len() == 0 {
        0
    } else {
        dec_val(s.drop_last()) * 10 + digit_val(s.last())
    }
}

/// A non-empty string of decimal digits.
pub open spec fn is_digits(s: Seq<char>) -> bool {
    s.len() > 0 && forall|i: int| 0 <= i < s.len() ==> is_digit(s[i])
}

/// The value a digit string denotes, when it is one and the value fits.
pub open spec fn parse_u64_val(s: Seq<char>) -> Option<u64> {
    if is_digits(s) && dec_val(s) <= u64::MAX {
        Some(dec_val(s) as u64)
    } else {
        None
    }
}

/// A prefix of a digit string denotes no more than the whole.
proof fn lemma_dec_val_take_le(s: Seq<char>, i: int)
    requires
        0 <= i <= s.len(),
    ensures
        dec_val(s.take(i)) <= dec_val(s),
    decreases s.len() - i,
{
    if i < s.len() {
        assert(s.take(i + 1).drop_last() =~= s.take(i));
        assert(s.take(i + 1).last() == s[i]);
        lemma_dec_val_take_le(s, i + 1);
        assert(dec_val(s.take(i)) <= dec_val(s.take(i + 1)));
    } else {
        assert(s.take(i) =~= s);
    }
}

/// Parse the decimal value of a digit string.
pub fn parse_u64_str(s: &str) -> (r: Option<u64>)
    ensures
        r == parse_u64_val(s@),
{
    let n = s.unicode_len();
    if n == 0 {
        return None;
    }
    let mut acc: u64 = 0;
    let mut i: usize = 0;
    proof {
        assert(s@.take(0) =~= Seq::<char>::empty());
    }
    while i < n
        invariant
            n == s@.len(),
            0 < n,
            i <= n,
            forall|j: int| 0 <= j < i ==> is_digit(s@[j]),
            acc as nat == dec_val(s@.take(i as int)),
        decreases n - i,
    {
        let c = s.get_char(i);
        let v = c as u32;
        if !(48 <= v && v <= 57) {
            return None;
        }
        let d = (v - 48) as u64;
        proof {
            assert(s@.take(i + 1).drop_last() =~= s@.take(i as int));
            assert(s@.take(i + 1).last() == s@[i as int]);
        }
        let next = match acc.checked_mul(10) {
            Some(a) => a.checked_add(d),
            None => None,
        };
        match next {
            Some(b) => {
                acc = b;
            }
            None => {
                proof {
                    lemma_dec_val_take_le(s@, i + 1);
                }
                return None;
            }
        }
        i = i + 1;
    }
    proof {
        assert(s@.take(n as int) =~= s@);
    }
    Some(acc)
}

/// A digit character carries its digit's value.
proof fn lemma_digit_char_val(d: int)
    requires
        0 <= d < 10,
    ensures
        is_digit(dec_char(d)),
        digit_val(dec_char(d)) == d,
{
}

/// The decimal text of a number is all digits and denotes the number again.
pub proof fn lemma_dec_round_trip(n: nat)
    ensures
        is_digits(dec_str(n)),
        dec_val(dec_str(n)) == n,
    decreases n,
{
    if n < 10 {
        lemma_digit_char_val(n as int);
        assert(dec_str(n).drop_last() =~= Seq::<char>::empty());
        assert(dec_str(n).last() == dec_char(n as int));
        assert(dec_val(dec_str(n)) == dec_val(Seq::<char>::empty()) * 10 + digit_val(
            dec_char(n as int)));
    } else {
        lemma_digit_char_val((n % 10) as int);
        lemma_dec_round_trip(n / 10);
        assert(dec_str(n).drop_last() =~= dec_str(n / 10));
        assert(dec_str(n).last() == dec_char((n % 10) as int));
        assert(dec_val(dec_str(n)) == dec_val(dec_str(n / 10)) * 10 + digit_val(
            dec_char((n % 10) as int)));
        assert(n / 10 * 10 + n % 10 == n);
        assert(forall|i: int|
            0 <= i < dec_str(n).len() ==> is_digit(dec_str(n)[i]));
    }
}

} // verus!
