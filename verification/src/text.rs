//! Text building blocks: decimal and hexadecimal rendering, and string assembly.

use vstd::prelude::*;
use vstd::std_specs::iter::IteratorSpec;

verus! {

broadcast use vstd::string::group_string_axioms;

/// The ASCII digit for `d` (meaningful for `0 <= d < 10`).
pub open spec fn digit_char(d: int) -> char {
    if d == 0 { '0' }
    else if d == 1 { '1' }
    else if d == 2 { '2' }
    else if d == 3 { '3' }
    else if d == 4 { '4' }
    else if d == 5 { '5' }
    else if d == 6 { '6' }
    else if d == 7 { '7' }
    else if d == 8 { '8' }
    else { '9' }
}

/// Decimal digits of a natural number, most significant first, no leading zeros.
pub open spec fn dec_digits(n: nat) -> Seq<char>
    decreases n,
{
    if n < 10 {
        seq![digit_char(n as int)]
    } else {
        dec_digits(n / 10).push(digit_char((n % 10) as int))
    }
}

/// Decimal text of an integer: a leading `-` for negatives, then the digits.
pub open spec fn int_text(i: int) -> Seq<char> {
    if i < 0 {
        seq!['-'] + dec_digits((-i) as nat)
    } else {
        dec_digits(i as nat)
    }
}

/// A decimal digit character.
pub open spec fn is_dec_char(c: char) -> bool {
    '0' as u32 <= c as u32 <= '9' as u32
}

/// Decimal digits are non-empty, all digit characters, and two or more for
/// numbers from 10 on.
pub proof fn lemma_dec_digits_shape(n: nat)
    ensures
        dec_digits(n).len() >= 1,
        n >= 10 ==> dec_digits(n).len() >= 2,
        n < 10 ==> dec_digits(n).len() == 1,
        forall|i: int| 0 <= i < dec_digits(n).len() ==> is_dec_char(#[trigger] dec_digits(n)[i]),
        dec_digits(n).last() == digit_char((n % 10) as int),
    decreases n,
{
    if n >= 10 {
        lemma_dec_digits_shape(n / 10);
        let d = dec_digits(n / 10);
        assert forall|i: int| 0 <= i < dec_digits(n).len() implies is_dec_char(#[trigger] dec_digits(n)[i]) by {
            if i < d.len() {
                assert(dec_digits(n)[i] == d[i]);
            }
        }
    }
}

/// Different numbers have different decimal digits.
pub proof fn lemma_dec_digits_injective(m: nat, n: nat)
    requires
        dec_digits(m) == dec_digits(n),
    ensures
        m == n,
    decreases m,
{
    lemma_dec_digits_shape(m);
    lemma_dec_digits_shape(n);
    assert(m % 10 == n % 10);
    if m >= 10 {
        assert(n >= 10);
        assert(dec_digits(m).drop_last() =~= dec_digits(m / 10));
        assert(dec_digits(n).drop_last() =~= dec_digits(n / 10));
        lemma_dec_digits_injective(m / 10, n / 10);
    }
}

/// Different integers have different decimal texts.
pub proof fn lemma_int_text_injective(i: int, j: int)
    requires
        int_text(i) == int_text(j),
    ensures
        i == j,
{
    lemma_dec_digits_shape(if i < 0 { (-i) as nat } else { i as nat });
    lemma_dec_digits_shape(if j < 0 { (-j) as nat } else { j as nat });
    if i < 0 && j < 0 {
        assert(int_text(i).drop_first() =~= dec_digits((-i) as nat));
        assert(int_text(j).drop_first() =~= dec_digits((-j) as nat));
        lemma_dec_digits_injective((-i) as nat, (-j) as nat);
    } else if i < 0 {
        assert(int_text(i)[0] == '-');
        assert(is_dec_char(int_text(j)[0]));
    } else if j < 0 {
        assert(int_text(j)[0] == '-');
        assert(is_dec_char(int_text(i)[0]));
    } else {
        lemma_dec_digits_injective(i as nat, j as nat);
    }
}

/// An integer's decimal text starts with a digit or a minus sign.
pub proof fn lemma_int_text_start(i: int)
    ensures
        int_text(i).len() >= 1,
        is_dec_char(int_text(i)[0]) || int_text(i)[0] == '-',
{
    lemma_dec_digits_shape(if i < 0 { (-i) as nat } else { i as nat });
}

/// Different nibbles have different hexadecimal digits.
pub proof fn lemma_nibble_injective(m: int, n: int)
    requires
        0 <= m < 16,
        0 <= n < 16,
        nibble_char(m) == nibble_char(n),
    ensures
        m == n,
{
}

pub fn digit(d: u64) -> (c: char)
    requires
        d < 10,
    ensures
        c == digit_char(d as int),
{
    match d {
        0 => '0',
        1 => '1',
        2 => '2',
        3 => '3',
        4 => '4',
        5 => '5',
        6 => '6',
        7 => '7',
        8 => '8',
        _ => '9',
    }
}

/// `String::push`: appends one character at the end of the string.
#[verifier::external_body]
pub fn push_char(s: &mut String, c: char)
    ensures
        final(s)@ == old(s)@.push(c),
{
    s.push(c);
}

/// Appends the decimal digits of `n`.
pub fn append_u64(s: &mut String, n: u64)
    ensures
        final(s)@ == old(s)@ + dec_digits(n as nat),
    decreases n,
{
    if n >= 10 {
        append_u64(s, n / 10);
    }
    let c = digit(n % 10);
    push_char(s, c);
    proof {
        if n >= 10 {
            assert(dec_digits(n as nat) == dec_digits((n / 10) as nat).push(c));
        }
    }
    assert(final(s)@ =~= old(s)@ + dec_digits(n as nat));
}

/// Appends the decimal text of `n` (with a `-` when negative).
pub fn append_i64(s: &mut String, n: i64)
    ensures
        final(s)@ == old(s)@ + int_text(n as int),
{
    if n < 0 {
        push_char(s, '-');
        let m: u64 = (0i128 - (n as i128)) as u64;
        append_u64(s, m);
        assert(final(s)@ =~= old(s)@ + int_text(n as int));
    } else {
        append_u64(s, n as u64);
    }
}

/// Decimal text of an unsigned integer.
pub fn u64_to_text(n: u64) -> (r: String)
    ensures
        r@ == dec_digits(n as nat),
{
    let mut s = String::new();
    append_u64(&mut s, n);
    assert(s@ =~= dec_digits(n as nat));
    s
}

/// An owned copy of a string slice.
pub fn owned(s: &str) -> (r: String)
    ensures
        r@ == s@,
{
    String::from_str(s)
}

/// A copy of an optional string.
pub fn clone_opt_string(o: &Option<String>) -> (r: Option<String>)
    ensures
        r == *o,
{
    match o {
        Some(s) => Some(s.clone()),
        None => None,
    }
}

/// A copy of a list of strings.
pub fn clone_strings(v: &Vec<String>) -> (r: Vec<String>)
    ensures
        r@ == v@,
{
    let mut out: Vec<String> = Vec::new();
    let mut i: usize = 0;
    while i < v.len()
        invariant
            i <= v.len(),
            out@ == v@.subrange(0, i as int),
        decreases v.len() - i,
    {
        out.push(v[i].clone());
        i = i + 1;
        assert(out@ =~= v@.subrange(0, i as int));
    }
    assert(v@.subrange(0, v.len() as int) =~= v@);
    out
}

/// Lexicographic order on character sequences by code point (the order of
/// `String` comparison).
pub open spec fn lex_lt(a: Seq<char>, b: Seq<char>) -> bool
    decreases a.len(),
{
    if a.len() == 0 {
        b.len() > 0
    } else if b.len() == 0 {
        false
    } else if a[0] == b[0] {
        lex_lt(a.drop_first(), b.drop_first())
    } else {
        (a[0] as u32) < (b[0] as u32)
    }
}

pub proof fn lemma_lex_irreflexive(a: Seq<char>)
    ensures
        !lex_lt(a, a),
    decreases a.len(),
{
    if a.len() > 0 {
        lemma_lex_irreflexive(a.drop_first());
    }
}

pub proof fn lemma_lex_transitive(a: Seq<char>, b: Seq<char>, c: Seq<char>)
    requires
        lex_lt(a, b),
        lex_lt(b, c),
    ensures
        lex_lt(a, c),
    decreases a.len(),
{
    if a.len() > 0 && b.len() > 0 && c.len() > 0 {
        if a[0] == b[0] && b[0] == c[0] {
            lemma_lex_transitive(a.drop_first(), b.drop_first(), c.drop_first());
        }
    }
}

pub proof fn lemma_lex_total(a: Seq<char>, b: Seq<char>)
    ensures
        a =~= b || lex_lt(a, b) || lex_lt(b, a),
    decreases a.len(),
{
    if a.len() > 0 && b.len() > 0 && a[0] == b[0] {
        lemma_lex_total(a.drop_first(), b.drop_first());
        if a.drop_first() =~= b.drop_first() {
            assert(a =~= seq![a[0]] + a.drop_first());
            assert(b =~= seq![b[0]] + b.drop_first());
        }
    }
    if a.len() > 0 && b.len() > 0 && a[0] != b[0] {
        vstd::utf8::char_u32_cast(a[0], a[0] as u32);
        vstd::utf8::char_u32_cast(b[0], b[0] as u32);
        assert((a[0] as u32) != (b[0] as u32));
    }
}

/// The characters of a string, in order.
pub fn chars_of(s: &str) -> (r: Vec<char>)
    ensures
        r@ == s@,
{
    let mut out: Vec<char> = Vec::new();
    for c in it: s.chars()
        invariant
            it.seq() == s@,
            out@ == it.seq().take(it.index() as int),
    {
        out.push(c);
        proof {
            let i = it.index() as int;
            assert(out@ =~= it.seq().take(i + 1));
        }
    }
    assert(s@.take(s@.len() as int) =~= s@);
    out
}

/// Whether `a` sorts strictly before `b`.
pub fn text_lt(a: &String, b: &String) -> (r: bool)
    ensures
        r == lex_lt(a@, b@),
{
    let x = chars_of(a.as_str());
    let y = chars_of(b.as_str());
    let mut i: usize = 0;
    assert(x@.skip(0) =~= x@);
    assert(y@.skip(0) =~= y@);
    while i < x.len() && i < y.len() && x[i] == y[i]
        invariant
            i <= x.len(),
            i <= y.len(),
            x@ == a@,
            y@ == b@,
            lex_lt(a@, b@) == lex_lt(x@.skip(i as int), y@.skip(i as int)),
        decreases x.len() - i,
    {
        proof {
            assert(x@.skip(i as int).drop_first() =~= x@.skip(i + 1));
            assert(y@.skip(i as int).drop_first() =~= y@.skip(i + 1));
        }
        i = i + 1;
    }
    proof {
        let xs = x@.skip(i as int);
        let ys = y@.skip(i as int);
        assert(xs.len() == x.len() - i);
        assert(ys.len() == y.len() - i);
        if i < x.len() && i < y.len() {
            assert(xs[0] == x@[i as int]);
            assert(ys[0] == y@[i as int]);
        }
    }
    if i == x.len() {
        i < y.len()
    } else if i == y.len() {
        false
    } else {
        let cx = x[i] as u32;
        let cy = y[i] as u32;
        cx < cy
    }
}

/// The lowercase hexadecimal digit of a nibble (`0 <= n < 16`).
pub open spec fn nibble_char(n: int) -> char {
    if n < 10 {
        digit_char(n)
    } else if n == 10 { 'a' }
    else if n == 11 { 'b' }
    else if n == 12 { 'c' }
    else if n == 13 { 'd' }
    else if n == 14 { 'e' }
    else { 'f' }
}

pub fn nibble(n: u64) -> (c: char)
    requires
        n < 16,
    ensures
        c == nibble_char(n as int),
{
    if n < 10 {
        digit(n)
    } else if n == 10 {
        'a'
    } else if n == 11 {
        'b'
    } else if n == 12 {
        'c'
    } else if n == 13 {
        'd'
    } else if n == 14 {
        'e'
    } else {
        'f'
    }
}

/// A lowercase hexadecimal digit: `0`-`9` or `a`-`f`.
pub open spec fn is_lower_hex(c: char) -> bool {
    ('0' as u32 <= c as u32 <= '9' as u32) || ('a' as u32 <= c as u32 <= 'f' as u32)
}

/// Lowercase hexadecimal text of a byte string: two characters per byte,
/// high nibble first.
pub open spec fn hex_lower(data: Seq<u8>) -> Seq<char>
    decreases data.len(),
{
    if data.len() == 0 {
        Seq::empty()
    } else {
        hex_lower(data.drop_last()) + seq![
            nibble_char((data.last() / 16) as int),
            nibble_char((data.last() % 16) as int),
        ]
    }
}

/// The hexadecimal text of `n` bytes has `2 * n` characters, each a
/// lowercase hexadecimal digit.
pub proof fn lemma_hex_lower(data: Seq<u8>)
    ensures
        hex_lower(data).len() == 2 * data.len(),
        forall|i: int| 0 <= i < hex_lower(data).len() ==> is_lower_hex(#[trigger] hex_lower(data)[i]),
    decreases data.len(),
{
    if data.len() > 0 {
        let rest = data.drop_last();
        lemma_hex_lower(rest);
        let hi = (data.last() / 16) as int;
        let lo = (data.last() % 16) as int;
        assert(is_lower_hex(nibble_char(hi)));
        assert(is_lower_hex(nibble_char(lo)));
        assert forall|i: int| 0 <= i < hex_lower(data).len() implies is_lower_hex(#[trigger] hex_lower(data)[i]) by {
            if i < hex_lower(rest).len() {
                assert(hex_lower(data)[i] == hex_lower(rest)[i]);
            }
        }
    }
}

/// Each byte becomes two lowercase hexadecimal digits, high nibble first,
/// in order.
pub fn hex_encode(data: &[u8]) -> (r: String)
    ensures
        r@ == hex_lower(data@),
{
    let mut s = String::new();
    let mut i: usize = 0;
    while i < data.len()
        invariant
            i <= data@.len(),
            s@ == hex_lower(data@.take(i as int)),
        decreases data@.len() - i,
    {
        let b = data[i];
        push_char(&mut s, nibble((b / 16) as u64));
        push_char(&mut s, nibble((b % 16) as u64));
        proof {
            let t = data@.take(i + 1);
            assert(t.drop_last() =~= data@.take(i as int));
            assert(t.last() == b);
        }
        i = i + 1;
        assert(s@ =~= hex_lower(data@.take(i as int)));
    }
    assert(data@.take(data@.len() as int) =~= data@);
    s
}

/// The lowest `count` hexadecimal digits of `v`, most significant first.
pub open spec fn hex_digits(v: nat, count: nat) -> Seq<char>
    decreases count,
{
    if count == 0 {
        Seq::empty()
    } else {
        hex_digits(v / 16, (count - 1) as nat).push(nibble_char((v % 16) as int))
    }
}

/// The minimal lowercase hexadecimal digits of `v` (at least one digit).
pub open spec fn hex_min(v: nat) -> Seq<char>
    decreases v,
{
    if v < 16 {
        seq![nibble_char(v as int)]
    } else {
        hex_min(v / 16).push(nibble_char((v % 16) as int))
    }
}

fn append_hex_digits(s: &mut String, v: u128, count: u32)
    ensures
        final(s)@ == old(s)@ + hex_digits(v as nat, count as nat),
    decreases count,
{
    if count > 0 {
        append_hex_digits(s, v / 16, count - 1);
        push_char(s, nibble((v % 16) as u64));
    }
    assert(final(s)@ =~= old(s)@ + hex_digits(v as nat, count as nat));
}

fn append_hex_min(s: &mut String, v: u32)
    ensures
        final(s)@ == old(s)@ + hex_min(v as nat),
    decreases v,
{
    if v >= 16 {
        append_hex_min(s, v / 16);
    }
    push_char(s, nibble((v % 16) as u64));
    assert(final(s)@ =~= old(s)@ + hex_min(v as nat));
}

/// The hyphenated lowercase text of a UUID value (8-4-4-4-12 digits).
pub open spec fn uuid_text(v: u128) -> Seq<char> {
    let d = hex_digits(v as nat, 32);
    d.subrange(0, 8) + seq!['-'] + d.subrange(8, 12) + seq!['-'] + d.subrange(12, 16) + seq!['-']
        + d.subrange(16, 20) + seq!['-'] + d.subrange(20, 32)
}

proof fn lemma_hex_digits_len(v: nat, count: nat)
    ensures
        hex_digits(v, count).len() == count,
    decreases count,
{
    if count > 0 {
        lemma_hex_digits_len(v / 16, (count - 1) as nat);
    }
}

/// Appends the hyphenated text of a UUID value.
pub fn append_uuid(s: &mut String, v: u128)
    ensures
        final(s)@ == old(s)@ + uuid_text(v),
{
    let mut digits = String::new();
    append_hex_digits(&mut digits, v, 32);
    proof {
        lemma_hex_digits_len(v as nat, 32);
    }
    let d = chars_of(digits.as_str());
    let ghost start = s@;
    let mut i: usize = 0;
    while i < 32
        invariant
            i <= 32,
            d@ == hex_digits(v as nat, 32),
            d@.len() == 32,
            s@ == start + (if i <= 8 {
                d@.subrange(0, i as int)
            } else if i <= 12 {
                d@.subrange(0, 8) + seq!['-'] + d@.subrange(8, i as int)
            } else if i <= 16 {
                d@.subrange(0, 8) + seq!['-'] + d@.subrange(8, 12) + seq!['-'] + d@.subrange(12, i as int)
            } else if i <= 20 {
                d@.subrange(0, 8) + seq!['-'] + d@.subrange(8, 12) + seq!['-'] + d@.subrange(12, 16)
                    + seq!['-'] + d@.subrange(16, i as int)
            } else {
                d@.subrange(0, 8) + seq!['-'] + d@.subrange(8, 12) + seq!['-'] + d@.subrange(12, 16)
                    + seq!['-'] + d@.subrange(16, 20) + seq!['-'] + d@.subrange(20, i as int)
            }),
        decreases 32 - i,
    {
        if i == 8 || i == 12 || i == 16 || i == 20 {
            push_char(s, '-');
        }
        push_char(s, d[i]);
        proof {
            let d0 = d@;
            if i < 8 {
                assert(d0.subrange(0, i + 1) =~= d0.subrange(0, i as int).push(d0[i as int]));
            } else if i == 8 {
                assert(d0.subrange(8, 9) =~= seq![d0[8]]);
            } else if i < 12 {
                assert(d0.subrange(8, i + 1) =~= d0.subrange(8, i as int).push(d0[i as int]));
            } else if i == 12 {
                assert(d0.subrange(12, 13) =~= seq![d0[12]]);
            } else if i < 16 {
                assert(d0.subrange(12, i + 1) =~= d0.subrange(12, i as int).push(d0[i as int]));
            } else if i == 16 {
                assert(d0.subrange(16, 17) =~= seq![d0[16]]);
            } else if i < 20 {
                assert(d0.subrange(16, i + 1) =~= d0.subrange(16, i as int).push(d0[i as int]));
            } else if i == 20 {
                assert(d0.subrange(20, 21) =~= seq![d0[20]]);
            } else {
                assert(d0.subrange(20, i + 1) =~= d0.subrange(20, i as int).push(d0[i as int]));
            }
        }
        i = i + 1;
        assert(s@ =~= start + (if i <= 8 {
            d@.subrange(0, i as int)
        } else if i <= 12 {
            d@.subrange(0, 8) + seq!['-'] + d@.subrange(8, i as int)
        } else if i <= 16 {
            d@.subrange(0, 8) + seq!['-'] + d@.subrange(8, 12) + seq!['-'] + d@.subrange(12, i as int)
        } else if i <= 20 {
            d@.subrange(0, 8) + seq!['-'] + d@.subrange(8, 12) + seq!['-'] + d@.subrange(12, 16)
                + seq!['-'] + d@.subrange(16, i as int)
        } else {
            d@.subrange(0, 8) + seq!['-'] + d@.subrange(8, 12) + seq!['-'] + d@.subrange(12, 16)
                + seq!['-'] + d@.subrange(16, 20) + seq!['-'] + d@.subrange(20, i as int)
        }));
    }
}

/// The escape of one character in debug-quoted text: `\t`, `\r`, `\n`, `\\`,
/// `\"` and `\0` by name, other ASCII control characters as `\u{..}` with
/// minimal lowercase hex, everything else as itself.
pub open spec fn debug_escape_char(c: char) -> Seq<char> {
    if c == '\t' {
        seq!['\\', 't']
    } else if c == '\r' {
        seq!['\\', 'r']
    } else if c == '\n' {
        seq!['\\', 'n']
    } else if c == '\\' {
        seq!['\\', '\\']
    } else if c == '"' {
        seq!['\\', '"']
    } else if c == '\0' {
        seq!['\\', '0']
    } else if (c as u32) < 0x20 || (c as u32) == 0x7f {
        seq!['\\', 'u', '{'] + hex_min((c as u32) as nat) + seq!['}']
    } else {
        seq![c]
    }
}

pub open spec fn debug_escape(s: Seq<char>) -> Seq<char>
    decreases s.len(),
{
    if s.len() == 0 {
        Seq::empty()
    } else {
        debug_escape(s.drop_last()) + debug_escape_char(s.last())
    }
}

/// Debug-quoted text: the escaped characters between double quotes.
pub open spec fn debug_quoted(s: Seq<char>) -> Seq<char> {
    seq!['"'] + debug_escape(s) + seq!['"']
}

fn append_debug_char(s: &mut String, c: char)
    ensures
        final(s)@ == old(s)@ + debug_escape_char(c),
{
    if c == '\t' {
        push_char(s, '\\');
        push_char(s, 't');
    } else if c == '\r' {
        push_char(s, '\\');
        push_char(s, 'r');
    } else if c == '\n' {
        push_char(s, '\\');
        push_char(s, 'n');
    } else if c == '\\' {
        push_char(s, '\\');
        push_char(s, '\\');
    } else if c == '"' {
        push_char(s, '\\');
        push_char(s, '"');
    } else if c == '\0' {
        push_char(s, '\\');
        push_char(s, '0');
    } else if (c as u32) < 0x20 || (c as u32) == 0x7f {
        push_char(s, '\\');
        push_char(s, 'u');
        push_char(s, '{');
        append_hex_min(s, c as u32);
        push_char(s, '}');
    } else {
        push_char(s, c);
    }
    assert(final(s)@ =~= old(s)@ + debug_escape_char(c));
}

/// Appends the debug-quoted text of `t`.
pub fn append_debug_quoted(s: &mut String, t: &str)
    ensures
        final(s)@ == old(s)@ + debug_quoted(t@),
{
    let ghost start = s@;
    push_char(s, '"');
    for c in it: t.chars()
        invariant
            it.seq() == t@,
            s@ == start + seq!['"'] + debug_escape(it.seq().take(it.index() as int)),
    {
        append_debug_char(s, c);
        proof {
            let i = it.index() as int;
            assert(it.seq().take(i + 1).drop_last() =~= it.seq().take(i));
            assert(it.seq().take(i + 1).last() == c);
        }
    }
    push_char(s, '"');
    assert(t@.take(t@.len() as int) =~= t@);
    assert(final(s)@ =~= old(s)@ + debug_quoted(t@));
}

} // verus!
