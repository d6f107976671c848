//! Pretty-printed JSON text: two spaces of indentation per level, one member
//! or element per line, `": "` after a key.
use vstd::prelude::*;

verus! {

/// The hex digit of a value below 16, lower case.
pub open spec fn hex_digit(v: u32) -> char {
    if v < 10 {
        ((v + 48) as u8) as char
    } else {
        ((v + 87) as u8) as char
    }
}

/// How one character of a string literal is written.
pub open spec fn escape_char(c: char) -> Seq<char> {
    if c == '"' {
        seq!['\\', '"']
    } else if c == '\\' {
        seq!['\\', '\\']
    } else if c == '\n' {
        seq!['\\', 'n']
    } else if c == '\r' {
        seq!['\\', 'r']
    } else if c == '\t' {
        seq!['\\', 't']
    } else if c == '\x08' {
        seq!['\\', 'b']
    } else if c == '\x0c' {
        seq!['\\', 'f']
    } else if (c as u32) < 32 {
        seq!['\\', 'u', '0', '0', hex_digit((c as u32) / 16), hex_digit((c as u32) % 16)]
    } else {
        seq![c]
    }
}

pub open spec fn escaped(s: Seq<char>) -> Seq<char>
    decreases s.len(),
{
    if s.len() == 0 {
        seq![]
    } else {
        escaped(s.drop_last()) + escape_char(s.last())
    }
}

/// A JSON string literal holding `s`.
pub open spec fn quoted(s: Seq<char>) -> Seq<char> {
    seq!['"'] + escaped(s) + seq!['"']
}

pub open spec fn digit_char(d: nat) -> char {
    ((d + 48) as u8) as char
}

/// The decimal numeral of `n`.
pub open spec fn decimal(n: nat) -> Seq<char>
    decreases n,
{
    if n < 10 {
        seq![digit_char(n)]
    } else {
        decimal(n / 10) + seq![digit_char(n % 10)]
    }
}

pub open spec fn indent(level: nat) -> Seq<char>
    decreases level,
{
    if level == 0 {
        seq![]
    } else {
        indent((level - 1) as nat) + seq![' ', ' ']
    }
}

/// The lines of a non-empty object or array nested `level` deep: each item on
/// a line of its own, one level further in, separated by commas.
pub open spec fn items_body(level: nat, items: Seq<Seq<char>>) -> Seq<char>
    decreases items.len(),
{
    if items.len() == 0 {
        seq![]
    } else {
        let sep = if items.len() == 1 {
            seq!['\n']
        } else {
            seq![',', '\n']
        };
        items_body(level, items.drop_last()) + sep + indent(level + 1) + items.last()
    }
}

/// An object (`{`, `}`) or array (`[`, `]`) nested `level` deep.
pub open spec fn block(level: nat, open: char, close: char, items: Seq<Seq<char>>) -> Seq<char> {
    if items.len() == 0 {
        seq![open, close]
    } else {
        seq![open] + items_body(level, items) + seq!['\n'] + indent(level) + seq![close]
    }
}

/// An object member: the key as a string literal, then the value's text.
pub open spec fn member(key: Seq<char>, value: Seq<char>) -> Seq<char> {
    quoted(key) + seq![':', ' '] + value
}

/// Appends the characters of `s` to `out`.
pub fn push_str(out: &mut Vec<char>, s: &str)
    ensures
        final(out)@ == old(out)@ + s@,
{
    let n = s.unicode_len();
    let mut i: usize = 0;
    while i < n
        invariant
            n == s@.len(),
            i <= n,
            out@ == old(out)@ + s@.subrange(0, i as int),
        decreases n - i,
    {
        let c = s.get_char(i);
        out.push(c);
        i = i + 1;
        assert(s@.subrange(0, i as int) =~= s@.subrange(0, i - 1) + seq![c]);
    }
    assert(s@.subrange(0, n as int) =~= s@);
}

fn push_indent(out: &mut Vec<char>, level: usize)
    ensures
        final(out)@ == old(out)@ + indent(level as nat),
{
    let mut i: usize = 0;
    while i < level
        invariant
            i <= level,
            out@ == old(out)@ + indent(i as nat),
        decreases level - i,
    {
        out.push(' ');
        out.push(' ');
        i = i + 1;
        assert(indent(i as nat) == indent((i - 1) as nat) + seq![' ', ' ']);
        assert(out@ =~= old(out)@ + indent(i as nat));
    }
}

fn hex_digit_exec(v: u32) -> (c: char)
    requires
        v < 16,
    ensures
        c == hex_digit(v),
{
    if v < 10 {
        ((v + 48) as u8) as char
    } else {
        ((v + 87) as u8) as char
    }
}

fn escape_char_exec(c: char) -> (r: Vec<char>)
    ensures
        r@ == escape_char(c),
{
    if c == '"' {
        vec!['\\', '"']
    } else if c == '\\' {
        vec!['\\', '\\']
    } else if c == '\n' {
        vec!['\\', 'n']
    } else if c == '\r' {
        vec!['\\', 'r']
    } else if c == '\t' {
        vec!['\\', 't']
    } else if c == '\x08' {
        vec!['\\', 'b']
    } else if c == '\x0c' {
        vec!['\\', 'f']
    } else if (c as u32) < 32 {
        let v = c as u32;
        vec!['\\', 'u', '0', '0', hex_digit_exec(v / 16), hex_digit_exec(v % 16)]
    } else {
        vec![c]
    }
}

/// The string literal for `s`.
pub fn quote(s: &str) -> (r: Vec<char>)
    ensures
        r@ == quoted(s@),
{
    let mut out: Vec<char> = Vec::new();
    out.push('"');
    let n = s.unicode_len();
    let mut i: usize = 0;
    while i < n
        invariant
            n == s@.len(),
            i <= n,
            out@ == seq!['"'] + escaped(s@.subrange(0, i as int)),
        decreases n - i,
    {
        let c = s.get_char(i);
        let mut e = escape_char_exec(c);
        out.append(&mut e);
        i = i + 1;
        assert(s@.subrange(0, i as int).drop_last() =~= s@.subrange(0, i - 1));
    }
    assert(s@.subrange(0, n as int) =~= s@);
    out.push('"');
    out
}

fn push_decimal(out: &mut Vec<char>, n: u64)
    ensures
        final(out)@ == old(out)@ + decimal(n as nat),
    decreases n,
{
    if n >= 10 {
        push_decimal(out, n / 10);
    }
    out.push(((n % 10) as u8 + 48) as char);
    assert(out@ =~= old(out)@ + decimal(n as nat));
}

/// The decimal numeral of `n`.
pub fn decimal_text(n: u64) -> (r: Vec<char>)
    ensures
        r@ == decimal(n as nat),
{
    let mut out: Vec<char> = Vec::new();
    push_decimal(&mut out, n);
    assert(out@ =~= decimal(n as nat));
    out
}

/// An object member: `key` as a string literal, `": "`, then `value`.
pub fn member_text(key: &str, value: Vec<char>) -> (r: Vec<char>)
    ensures
        r@ == member(key@, value@),
{
    let ghost v = value@;
    let mut out = quote(key);
    out.push(':');
    out.push(' ');
    let mut value = value;
    out.append(&mut value);
    assert(out@ =~= member(key@, v));
    out
}

fn push_chars(out: &mut Vec<char>, v: &Vec<char>)
    ensures
        final(out)@ == old(out)@ + v@,
{
    let mut i: usize = 0;
    while i < v.len()
        invariant
            i <= v@.len(),
            out@ == old(out)@ + v@.subrange(0, i as int),
        decreases v@.len() - i,
    {
        out.push(v[i]);
        i = i + 1;
        assert(v@.subrange(0, i as int) =~= v@.subrange(0, i - 1) + seq![v@[i - 1]]);
    }
    assert(v@.subrange(0, v@.len() as int) =~= v@);
}

/// An object (`{`, `}`) or array (`[`, `]`) nested `level` deep, holding
/// `items` in their order.
pub fn block_text(level: usize, open: char, close: char, items: &Vec<Vec<char>>) -> (r: Vec<char>)
    requires
        level < usize::MAX,
    ensures
        r@ == block(level as nat, open, close, items.deep_view()),
{
    let ghost all = items.deep_view();
    let mut out: Vec<char> = Vec::new();
    out.push(open);
    if items.len() == 0 {
        assert(out@ =~= seq![open]);
        out.push(close);
        return out;
    }
    let mut i: usize = 0;
    while i < items.len()
        invariant
            all == items.deep_view(),
            level < usize::MAX,
            i <= items@.len(),
            out@ == seq![open] + items_body(level as nat, all.subrange(0, i as int)),
        decreases items@.len() - i,
    {
        let ghost before = out@;
        if i == 0 {
            out.push('\n');
        } else {
            out.push(',');
            out.push('\n');
        }
        push_indent(&mut out, level + 1);
        push_chars(&mut out, &items[i]);
        i = i + 1;
        assert(all.subrange(0, i as int).drop_last() =~= all.subrange(0, i - 1));
        assert(all.subrange(0, i as int).last() == items@[i - 1]@);
        assert(out@ =~= seq![open] + items_body(level as nat, all.subrange(0, i as int)));
    }
    assert(all.subrange(0, items@.len() as int) =~= all);
    out.push('\n');
    push_indent(&mut out, level);
    out.push(close);
    assert(out@ =~= block(level as nat, open, close, all));
    out
}

} // verus!
