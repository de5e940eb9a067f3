//! JSON text primitives: decimal integers, quoted strings, objects and arrays.

use vstd::prelude::*;

verus! {

/// `String::push` of the standard library: it puts one character at the end
/// of the string and leaves what was there before as it was.
pub assume_specification[ String::push ](s: &mut String, c: char)
    ensures
        final(s)@ == old(s)@.push(c),
;

/// The character that writes the digit `d` in base 16 (and so in base 10),
/// with lower-case letters from ten on.
pub open spec fn digit_char(d: nat) -> char
    recommends
        d < 16,
{
    if d < 10 {
        (48 + d) as u8 as char
    } else {
        (87 + d) as u8 as char
    }
}

/// The decimal numeral of `n`, without sign or leading zeros.
pub open spec fn decimal(n: nat) -> Seq<char>
    decreases n,
{
    if n < 10 {
        seq![digit_char(n)]
    } else {
        decimal(n / 10).push(digit_char(n % 10))
    }
}

/// The number that the digit `c` writes.
pub open spec fn digit_value(c: char) -> nat {
    (c as u32 - 48) as nat
}

/// The number that a run of decimal digits writes.
pub open spec fn numeral_value(digits: Seq<char>) -> nat
    decreases digits.len(),
{
    if digits.len() == 0 {
        0
    } else {
        numeral_value(digits.drop_last()) * 10 + digit_value(digits.last())
    }
}

/// The decimal numeral of `n` is made of digits only, starts with a zero
/// only where `n` is zero, and writes `n`.
pub proof fn lemma_decimal_writes(n: nat)
    ensures
        decimal(n).len() >= 1,
        forall|i: int| 0 <= i < decimal(n).len() ==> '0' <= #[trigger] decimal(n)[i] <= '9',
        decimal(n)[0] == '0' <==> n == 0,
        numeral_value(decimal(n)) == n,
    decreases n,
{
    if n < 10 {
        let one = seq![digit_char(n)];
        assert(one.drop_last() =~= Seq::<char>::empty());
        assert(numeral_value(one) == n) by {
            reveal_with_fuel(numeral_value, 2);
        }
    } else {
        lemma_decimal_writes(n / 10);
        let front = decimal(n / 10);
        assert(front.push(digit_char(n % 10)).drop_last() =~= front);
    }
}

/// What stands for the character `c` inside a quoted JSON string: quotation
/// mark and backslash are escaped with a backslash, the control characters
/// below U+0020 by their short form where JSON has one and as `\u00xx`
/// otherwise, and every other character stands for itself.
pub open spec fn escaped_char(c: char) -> Seq<char> {
    if c == '"' {
        seq!['\\', '"']
    } else if c == '\\' {
        seq!['\\', '\\']
    } else if c == '\u{8}' {
        seq!['\\', 'b']
    } else if c == '\u{c}' {
        seq!['\\', 'f']
    } else if c == '\n' {
        seq!['\\', 'n']
    } else if c == '\r' {
        seq!['\\', 'r']
    } else if c == '\t' {
        seq!['\\', 't']
    } else if (c as u32) < 0x20 {
        seq![
            '\\',
            'u',
            '0',
            '0',
            digit_char((c as u32 / 16) as nat),
            digit_char((c as u32 % 16) as nat),
        ]
    } else {
        seq![c]
    }
}

/// The characters of `s`, each escaped as `escaped_char` says.
pub open spec fn escaped(s: Seq<char>) -> Seq<char>
    decreases s.len(),
{
    if s.len() == 0 {
        Seq::empty()
    } else {
        escaped(s.drop_last()) + escaped_char(s.last())
    }
}

/// The number that the hexadecimal digit `c` writes.
pub open spec fn hex_value(c: char) -> nat {
    if '0' <= c <= '9' {
        (c as u32 - 48) as nat
    } else {
        (c as u32 - 87) as nat
    }
}

/// The character that a backslash and `c` stand for, where `c` is not `u`.
pub open spec fn short_escape(c: char) -> char {
    if c == 'b' {
        '\u{8}'
    } else if c == 'f' {
        '\u{c}'
    } else if c == 'n' {
        '\n'
    } else if c == 'r' {
        '\r'
    } else if c == 't' {
        '\t'
    } else {
        c
    }
}

/// What a reader of JSON takes the inside of a quoted string for: a
/// backslash starts an escape, of six characters where `u` follows it and
/// of two otherwise, and every other character stands for itself.
pub open spec fn unescaped(t: Seq<char>) -> Seq<char>
    decreases t.len(),
{
    if t.len() == 0 {
        Seq::empty()
    } else if t[0] != '\\' {
        seq![t[0]] + unescaped(t.skip(1))
    } else if t.len() >= 6 && t[1] == 'u' {
        seq![((hex_value(t[4]) * 16 + hex_value(t[5])) as u8) as char] + unescaped(t.skip(6))
    } else if t.len() >= 2 {
        seq![short_escape(t[1])] + unescaped(t.skip(2))
    } else {
        Seq::empty()
    }
}

/// Escaping goes character by character from the front as well.
pub proof fn lemma_escaped_front(c: char, s: Seq<char>)
    ensures
        escaped(seq![c] + s) == escaped_char(c) + escaped(s),
    decreases s.len(),
{
    let whole = seq![c] + s;
    if s.len() == 0 {
        assert(whole.drop_last() =~= Seq::<char>::empty());
        assert(escaped(whole.drop_last()) =~= Seq::<char>::empty());
        assert(escaped(whole) =~= escaped_char(c) + escaped(s));
    } else {
        lemma_escaped_front(c, s.drop_last());
        assert(whole.drop_last() =~= seq![c] + s.drop_last());
        assert(escaped(whole) =~= escaped_char(c) + escaped(s));
    }
}

/// A reader takes the escape of one character for that character, whatever
/// follows it.
pub proof fn lemma_unescaped_char(c: char, rest: Seq<char>)
    ensures
        unescaped(escaped_char(c) + rest) == seq![c] + unescaped(rest),
{
    let t = escaped_char(c) + rest;
    let k = escaped_char(c).len() as int;
    assert(t.skip(k) =~= rest);
    if c == '"' || c == '\\' || c == '\u{8}' || c == '\u{c}' || c == '\n' || c == '\r' || c
        == '\t' {
        assert(t[0] == '\\');
        assert(t[1] != 'u');
    } else if (c as u32) < 0x20 {
        let high = (c as u32 / 16) as nat;
        let low = (c as u32 % 16) as nat;
        assert(t[0] == '\\' && t[1] == 'u');
        assert(t[4] == digit_char(high) && t[5] == digit_char(low));
        assert(hex_value(digit_char(high)) == high);
        assert(hex_value(digit_char(low)) == low);
        assert(high * 16 + low == c as u32);
        assert(((high * 16 + low) as u8) as char == c);
    } else {
        assert(t[0] == c);
    }
}

/// What is escaped is read back as it was: no two strings are written
/// alike.
pub proof fn lemma_unescaped_escaped(s: Seq<char>)
    ensures
        unescaped(escaped(s)) == s,
    decreases s.len(),
{
    if s.len() == 0 {
        assert(escaped(s) =~= Seq::<char>::empty());
    } else {
        let rest = s.skip(1);
        assert(s =~= seq![s[0]] + rest);
        lemma_escaped_front(s[0], rest);
        lemma_unescaped_char(s[0], escaped(rest));
        lemma_unescaped_escaped(rest);
    }
}

/// The JSON string that denotes `s`: its escaped characters between
/// quotation marks.
pub open spec fn string_text(s: Seq<char>) -> Seq<char> {
    seq!['"'] + escaped(s) + seq!['"']
}

fn digit_of(d: u8) -> (c: char)
    requires
        d < 16,
    ensures
        c == digit_char(d as nat),
{
    if d < 10 {
        (48 + d) as char
    } else {
        (87 + d) as char
    }
}

/// Appends the decimal numeral of `n` to `out`.
pub fn push_decimal(out: &mut String, n: u32)
    ensures
        final(out)@ == old(out)@ + decimal(n as nat),
    decreases n,
{
    if n >= 10 {
        push_decimal(out, n / 10);
    }
    let d: char = digit_of((n % 10) as u8);
    out.push(d);
    proof {
        if n >= 10 {
            assert(final(out)@ =~= old(out)@ + decimal((n / 10) as nat).push(d));
        } else {
            assert(final(out)@ =~= old(out)@ + seq![d]);
        }
    }
}

fn push_escaped_char(out: &mut String, c: char)
    ensures
        final(out)@ == old(out)@ + escaped_char(c),
{
    let code: u32 = c as u32;
    if c == '"' || c == '\\' {
        out.push('\\');
        out.push(c);
    } else if c == '\u{8}' {
        out.push('\\');
        out.push('b');
    } else if c == '\u{c}' {
        out.push('\\');
        out.push('f');
    } else if c == '\n' {
        out.push('\\');
        out.push('n');
    } else if c == '\r' {
        out.push('\\');
        out.push('r');
    } else if c == '\t' {
        out.push('\\');
        out.push('t');
    } else if code < 0x20 {
        out.push('\\');
        out.push('u');
        out.push('0');
        out.push('0');
        out.push(digit_of((code / 16) as u8));
        out.push(digit_of((code % 16) as u8));
    } else {
        out.push(c);
    }
    proof {
        assert(final(out)@ =~= old(out)@ + escaped_char(c));
    }
}

/// Appends to `out` the JSON string that denotes `s`.
pub fn push_string_text(out: &mut String, s: &str)
    ensures
        final(out)@ == old(out)@ + string_text(s@),
{
    let n: usize = s.unicode_len();
    out.push('"');
    let mut i: usize = 0;
    while i < n
        invariant
            n == s@.len(),
            i <= n,
            out@ == old(out)@ + seq!['"'] + escaped(s@.take(i as int)),
        decreases n - i,
    {
        let c: char = s.get_char(i);
        push_escaped_char(out, c);
        proof {
            assert(s@.take(i + 1).drop_last() =~= s@.take(i as int));
            assert(s@.take(i + 1).last() == c);
            assert(out@ =~= old(out)@ + seq!['"'] + escaped(s@.take(i + 1)));
        }
        i = i + 1;
    }
    out.push('"');
    proof {
        assert(s@.take(n as int) =~= s@);
        assert(out@ =~= old(out)@ + string_text(s@));
    }
}

/// Renders `n` as its decimal numeral.
pub fn decimal_string(n: u32) -> (text: String)
    ensures
        text@ == decimal(n as nat),
{
    let mut text = String::new();
    push_decimal(&mut text, n);
    text
}

/// Renders `s` as the JSON string that denotes it.
pub fn quoted(s: &str) -> (text: String)
    ensures
        text@ == string_text(s@),
{
    let mut text = String::new();
    push_string_text(&mut text, s);
    text
}

/// One member of a JSON object: its key, which needs no escaping, and the
/// text of its value.
pub struct Member {
    pub key: Seq<char>,
    pub value: Seq<char>,
}

/// What stands between an element and the one before it: nothing before the
/// first, a comma before every other.
pub open spec fn separator(first: bool) -> Seq<char> {
    if first {
        Seq::empty()
    } else {
        seq![',']
    }
}

/// The text of one member: the quoted key, a colon, the value.
pub open spec fn member_text(m: Member) -> Seq<char> {
    seq!['"'] + m.key + seq!['"', ':'] + m.value
}

/// The members in order, separated by commas.
pub open spec fn members_text(members: Seq<Member>) -> Seq<char>
    decreases members.len(),
{
    if members.len() == 0 {
        Seq::empty()
    } else {
        members_text(members.drop_last()) + separator(members.len() == 1) + member_text(
            members.last(),
        )
    }
}

/// Writing one more member adds a comma, unless it is the first, and the
/// member's text.
pub proof fn lemma_members_push(members: Seq<Member>, m: Member)
    ensures
        members_text(members.push(m)) == members_text(members) + separator(members.len() == 0)
            + member_text(m),
{
    assert(members.push(m).drop_last() =~= members);
}

/// The JSON object with exactly these members, in this order, without any
/// white space.
pub open spec fn object_text(members: Seq<Member>) -> Seq<char> {
    seq!['{'] + members_text(members) + seq!['}']
}

/// The elements in order, separated by commas.
pub open spec fn items_text(items: Seq<Seq<char>>) -> Seq<char>
    decreases items.len(),
{
    if items.len() == 0 {
        Seq::empty()
    } else {
        items_text(items.drop_last()) + separator(items.len() == 1) + items.last()
    }
}

/// Writing one more element adds a comma, unless it is the first, and the
/// element.
pub proof fn lemma_items_push(items: Seq<Seq<char>>, item: Seq<char>)
    ensures
        items_text(items.push(item)) == items_text(items) + separator(items.len() == 0) + item,
{
    assert(items.push(item).drop_last() =~= items);
}

/// The JSON array with exactly these elements, in this order, without any
/// white space.
pub open spec fn array_text(items: Seq<Seq<char>>) -> Seq<char> {
    seq!['['] + items_text(items) + seq![']']
}

/// No member for an absent value, one member for a present one.
pub open spec fn optional_member(key: Seq<char>, value: Option<Seq<char>>) -> Seq<Member> {
    match value {
        Some(v) => seq![Member { key, value: v }],
        None => Seq::empty(),
    }
}

/// The view of an optional string slice.
pub open spec fn option_view(value: Option<&str>) -> Option<Seq<char>> {
    match value {
        Some(v) => Some(v@),
        None => None,
    }
}

/// Appends a member to the members of an object that is being written to
/// `out` after the text `base`: nothing where `value` is absent, otherwise a
/// comma unless the member is the first, then the member. Returns whether
/// the object is still without members.
pub(crate) fn put_member(
    out: &mut String,
    first: bool,
    key: &str,
    value: Option<&str>,
    Ghost(base): Ghost<Seq<char>>,
    Ghost(done): Ghost<Seq<Member>>,
) -> (still_first: bool)
    requires
        old(out)@ == base + members_text(done),
        first == (done.len() == 0),
    ensures
        final(out)@ == base + members_text(done + optional_member(key@, option_view(value))),
        still_first == ((done + optional_member(key@, option_view(value))).len() == 0),
{
    match value {
        Some(v) => {
            if !first {
                out.push(',');
            }
            out.push('"');
            out.append(key);
            out.push('"');
            out.push(':');
            out.append(v);
            proof {
                let m = Member { key: key@, value: v@ };
                let now = done + optional_member(key@, option_view(value));
                assert(now =~= done.push(m));
                lemma_members_push(done, m);
                assert(final(out)@ =~= base + members_text(now));
            }
            false
        },
        None => {
            proof {
                assert(done + optional_member(key@, option_view(value)) =~= done);
            }
            first
        },
    }
}

/// Appends an element to the elements of an array that is being written to
/// `out` after the text `base`: a comma unless the element is the first,
/// then the element.
pub(crate) fn put_item(
    out: &mut String,
    first: bool,
    item: &str,
    Ghost(base): Ghost<Seq<char>>,
    Ghost(done): Ghost<Seq<Seq<char>>>,
)
    requires
        old(out)@ == base + items_text(done),
        first == (done.len() == 0),
    ensures
        final(out)@ == base + items_text(done.push(item@)),
{
    if !first {
        out.push(',');
    }
    out.append(item);
    proof {
        lemma_items_push(done, item@);
        assert(final(out)@ =~= base + items_text(done.push(item@)));
    }
}

/// Decides whether two strings hold the same characters.
pub fn same_text(a: &str, b: &str) -> (same: bool)
    ensures
        same == (a@ == b@),
{
    let n: usize = a.unicode_len();
    if b.unicode_len() != n {
        return false;
    }
    let mut i: usize = 0;
    while i < n
        invariant
            n == a@.len(),
            n == b@.len(),
            i <= n,
            a@.take(i as int) == b@.take(i as int),
        decreases n - i,
    {
        if a.get_char(i) != b.get_char(i) {
            return false;
        }
        proof {
            assert(a@.take(i + 1) =~= a@.take(i as int).push(a@[i as int]));
            assert(b@.take(i + 1) =~= b@.take(i as int).push(b@[i as int]));
        }
        i = i + 1;
    }
    proof {
        assert(a@.take(n as int) =~= a@);
        assert(b@.take(n as int) =~= b@);
    }
    true
}

} // verus!
