//! Small verified string utilities used by the extractor and the jobs.

use vstd::prelude::*;

verus! {

/// The text `s` with a backslash inserted before every occurrence of `c`.
pub open spec fn escaped(s: Seq<char>, c: char) -> Seq<char>
    decreases s.len(),
{
    if s.len() == 0 {
        Seq::empty()
    } else {
        let last = s.last();
        let piece = if last == c { seq!['\\', c] } else { seq![last] };
        escaped(s.drop_last(), c) + piece
    }
}

/// Inserts a backslash before every occurrence of `c` in `s`.
pub fn escape_char(s: &str, c: char) -> (r: String)
    ensures
        r@ == escaped(s@, c),
{
    let mut out = String::new();
    let n = s.unicode_len();
    let mut i: usize = 0;
    proof {
        reveal_strlit("\\");
        assert(s@.take(0) =~= Seq::<char>::empty());
    }
    while i < n
        invariant
            n == s@.len(),
            i <= n,
            out@ == escaped(s@.take(i as int), c),
        decreases n - i,
    {
        let ch = s.get_char(i);
        proof {
            reveal_strlit("\\");
        }
        if ch == c {
            out.append("\\");
        }
        out.append(s.substring_char(i, i + 1));
        proof {
            let ghost t = s@.take(i as int + 1);
            assert(t.drop_last() =~= s@.take(i as int));
            assert(t.last() == ch);
            assert(s@.subrange(i as int, i as int + 1) =~= seq![ch]);
        }
        i = i + 1;
    }
    proof {
        assert(s@.take(n as int) =~= s@);
    }
    out
}


/// The lowercase hexadecimal digit of `d`, for `d < 16`.
pub open spec fn hex_char(d: nat) -> char {
    "0123456789abcdef"@[d as int]
}

/// The last `n` hexadecimal digits of `v`, most significant first, padded with zeros.
pub open spec fn hex_padded(v: nat, n: nat) -> Seq<char>
    decreases n,
{
    if n == 0 {
        Seq::empty()
    } else {
        hex_padded(v / 16, (n - 1) as nat).push(hex_char(v % 16))
    }
}

/// The decimal digits of `v`, without leading zeros.
pub open spec fn decimal(v: nat) -> Seq<char>
    decreases v,
{
    if v < 10 {
        seq!["0123456789"@[v as int]]
    } else {
        decimal(v / 10).push("0123456789"@[(v % 10) as int])
    }
}

fn digit_text(table: &str, d: usize) -> (r: &str)
    requires
        d < table@.len() <= 16,
    ensures
        r@ == seq![table@[d as int]],
{
    let r = table.substring_char(d, d + 1);
    assert(r@ =~= seq![table@[d as int]]);
    r
}

/// The last `n` hexadecimal digits of `v`, zero padded (`{:08x}` for `n == 8`).
pub fn format_hex_padded(v: u32, n: usize) -> (r: String)
    ensures
        r@ == hex_padded(v as nat, n as nat),
    decreases n,
{
    if n == 0 {
        String::new()
    } else {
        let mut r = format_hex_padded(v / 16, n - 1);
        proof {
            reveal_strlit("0123456789abcdef");
        }
        r.append(digit_text("0123456789abcdef", (v % 16) as usize));
        r
    }
}

/// The decimal representation of `v`.
pub fn format_decimal(v: u64) -> (r: String)
    ensures
        r@ == decimal(v as nat),
    decreases v,
{
    proof {
        reveal_strlit("0123456789");
    }
    if v < 10 {
        let mut r = String::new();
        r.append(digit_text("0123456789", v as usize));
        assert(r@ =~= decimal(v as nat));
        r
    } else {
        let mut r = format_decimal(v / 10);
        r.append(digit_text("0123456789", (v % 10) as usize));
        r
    }
}

/// The value of a decimal digit character.
pub open spec fn decimal_digit(c: char) -> Option<nat> {
    if '0' <= c && c <= '9' {
        Some((c as u32 - '0' as u32) as nat)
    } else {
        None
    }
}

/// The value of a lowercase hexadecimal digit character.
pub open spec fn hex_digit(c: char) -> Option<nat> {
    if '0' <= c && c <= '9' {
        Some((c as u32 - '0' as u32) as nat)
    } else if 'a' <= c && c <= 'f' {
        Some((c as u32 - 'a' as u32 + 10) as nat)
    } else {
        None
    }
}

/// The number written by the digits `s` in base `base`, where `digit` reads one digit;
/// `None` when some character is not a digit.
pub open spec fn digits_value(s: Seq<char>, base: nat, hex: bool) -> Option<nat>
    decreases s.len(),
{
    if s.len() == 0 {
        Some(0)
    } else {
        let d = if hex { hex_digit(s.last()) } else { decimal_digit(s.last()) };
        match (digits_value(s.drop_last(), base, hex), d) {
            (Some(v), Some(d)) => Some(v * base + d),
            _ => None,
        }
    }
}

proof fn lemma_digits_value_monotone(s: Seq<char>, i: int, base: nat, hex: bool)
    requires
        0 <= i <= s.len(),
        base >= 1,
        digits_value(s, base, hex) is Some,
    ensures
        digits_value(s.take(i), base, hex) is Some,
        digits_value(s.take(i), base, hex)->0 <= digits_value(s, base, hex)->0,
    decreases s.len(),
{
    if i < s.len() {
        assert(s.take(i) =~= s.drop_last().take(i));
        lemma_digits_value_monotone(s.drop_last(), i, base, hex);
        let v = digits_value(s.drop_last(), base, hex)->0;
        assert(v * base >= v) by (nonlinear_arith)
            requires base >= 1;
    } else {
        assert(s.take(i) =~= s);
    }
}

fn char_digit(c: char, hex: bool) -> (r: Option<u64>)
    ensures
        match (r, if hex { hex_digit(c) } else { decimal_digit(c) }) {
            (Some(x), Some(y)) => x as nat == y && x < 16,
            (None, None) => true,
            _ => false,
        },
{
    let u = c as u32;
    if '0' <= c && c <= '9' {
        Some((u - ('0' as u32)) as u64)
    } else if hex && 'a' <= c && c <= 'f' {
        Some((u - ('a' as u32) + 10) as u64)
    } else {
        None
    }
}

/// The unsigned number that `s` writes in base 10 or, with `hex`, in lowercase
/// base 16; `None` when `s` is empty, holds a character that is no digit, or
/// the value exceeds `u64`.
pub open spec fn unsigned_value(s: Seq<char>, hex: bool) -> Option<u64> {
    let v = digits_value(s, if hex { 16 } else { 10 }, hex);
    if s.len() > 0 && v is Some && v->0 <= u64::MAX {
        Some(v->0 as u64)
    } else {
        None
    }
}

/// Reads `s` as an unsigned number in base 10 or, with `hex`, in lowercase base 16.
pub fn parse_unsigned(s: &str, hex: bool) -> (r: Option<u64>)
    ensures
        r == unsigned_value(s@, hex),
{
    let base: u64 = if hex { 16 } else { 10 };
    let ghost b = base as nat;
    let n = s.unicode_len();
    if n == 0 {
        return None;
    }
    let mut acc: u64 = 0;
    let mut i: usize = 0;
    assert(s@.take(0) =~= Seq::<char>::empty());
    while i < n
        invariant
            n == s@.len(),
            i <= n,
            b == (if hex { 16nat } else { 10nat }),
            base as nat == b,
            digits_value(s@.take(i as int), b, hex) == Some(acc as nat),
        decreases n - i,
    {
        let c = s.get_char(i);
        let ghost t = s@.take(i as int + 1);
        assert(t.drop_last() =~= s@.take(i as int));
        match char_digit(c, hex) {
            None => {
                proof {
                    assert(digits_value(t, b, hex) is None);
                    if digits_value(s@, b, hex) is Some {
                        lemma_digits_value_monotone(s@, i as int + 1, b, hex);
                    }
                }
                return None;
            },
            Some(d) => {
                let m = acc.checked_mul(base);
                let next = match m {
                    Some(m) => m.checked_add(d),
                    None => None,
                };
                match next {
                    None => {
                        proof {
                            assert(digits_value(t, b, hex) == Some(acc as nat * b + d as nat));
                            if digits_value(s@, b, hex) is Some {
                                lemma_digits_value_monotone(s@, i as int + 1, b, hex);
                            }
                        }
                        return None;
                    },
                    Some(v) => {
                        acc = v;
                    },
                }
            },
        }
        i = i + 1;
    }
    assert(s@.take(n as int) =~= s@);
    Some(acc)
}


/// The pieces of `s` between occurrences of `sep` (`str::split` with one character).
pub open spec fn split_fields(s: Seq<char>, sep: char) -> Seq<Seq<char>>
    decreases s.len(),
{
    if s.len() == 0 {
        seq![Seq::empty()]
    } else {
        let f = split_fields(s.drop_last(), sep);
        if s.last() == sep {
            f.push(Seq::empty())
        } else {
            f.update(f.len() - 1, f.last().push(s.last()))
        }
    }
}

proof fn lemma_split_fields_nonempty(s: Seq<char>, sep: char)
    ensures
        split_fields(s, sep).len() >= 1,
    decreases s.len(),
{
    if s.len() > 0 {
        lemma_split_fields_nonempty(s.drop_last(), sep);
    }
}

/// The field at position `idx` of `s` split on `sep`, if there are that many.
pub fn split_field(s: &str, sep: char, idx: u64) -> (r: Option<String>)
    ensures
        r is Some <==> idx < split_fields(s@, sep).len(),
        r is Some ==> r->0@ == split_fields(s@, sep)[idx as int],
{
    let n = s.unicode_len();
    let mut count: usize = 0;
    let mut field = String::new();
    let mut i: usize = 0;
    assert(s@.take(0) =~= Seq::<char>::empty());
    while i < n
        invariant
            n == s@.len(),
            i <= n,
            count <= i,
            count + 1 == split_fields(s@.take(i as int), sep).len(),
            count as u64 >= idx ==> field@ == split_fields(s@.take(i as int), sep)[idx as int],
        decreases n - i,
    {
        let c = s.get_char(i);
        let ghost t = s@.take(i as int + 1);
        assert(t.drop_last() =~= s@.take(i as int));
        proof {
            lemma_split_fields_nonempty(s@.take(i as int), sep);
        }
        if c == sep {
            count = count + 1;
            if count as u64 == idx {
                field = String::new();
            }
        } else if count as u64 == idx {
            let piece = s.substring_char(i, i + 1);
            assert(piece@ =~= seq![c]);
            field.append(piece);
        }
        i = i + 1;
    }
    assert(s@.take(n as int) =~= s@);
    if count as u64 >= idx {
        Some(field)
    } else {
        None
    }
}

/// Whether `p` is a prefix of `s`.
pub open spec fn has_prefix(s: Seq<char>, p: Seq<char>) -> bool {
    p.len() <= s.len() && s.take(p.len() as int) == p
}

/// `s` without its prefix `p`, or `None` when `s` does not start with `p`.
pub fn strip_prefix_text(s: &str, p: &str) -> (r: Option<String>)
    ensures
        r is Some <==> has_prefix(s@, p@),
        r is Some ==> r->0@ == s@.skip(p@.len() as int),
{
    let n = s.unicode_len();
    let m = p.unicode_len();
    if m > n {
        return None;
    }
    let mut i: usize = 0;
    while i < m
        invariant
            n == s@.len(),
            m == p@.len(),
            m <= n,
            i <= m,
            forall|j: int| 0 <= j < i ==> s@[j] == p@[j],
        decreases m - i,
    {
        if s.get_char(i) != p.get_char(i) {
            assert(s@.take(m as int)[i as int] != p@[i as int]);
            return None;
        }
        i = i + 1;
    }
    assert(s@.take(m as int) =~= p@);
    let rest = s.substring_char(m, n);
    let mut r = String::new();
    r.append(rest);
    assert(r@ =~= s@.skip(m as int));
    Some(r)
}

/// Space, tab, line feed or carriage return.
pub open spec fn is_blank(c: char) -> bool {
    c == ' ' || c == '\t' || c == '\n' || c == '\r'
}

/// `s` without its leading blanks.
pub open spec fn trim_start(s: Seq<char>) -> Seq<char>
    decreases s.len(),
{
    if s.len() > 0 && is_blank(s[0]) {
        trim_start(s.drop_first())
    } else {
        s
    }
}

/// `s` without its trailing blanks.
pub open spec fn trim_end(s: Seq<char>) -> Seq<char>
    decreases s.len(),
{
    if s.len() > 0 && is_blank(s.last()) {
        trim_end(s.drop_last())
    } else {
        s
    }
}

fn blank_at(s: &str, i: usize) -> (r: bool)
    requires
        i < s@.len(),
    ensures
        r == is_blank(s@[i as int]),
{
    let c = s.get_char(i);
    c == ' ' || c == '\t' || c == '\n' || c == '\r'
}

/// `s` without leading and trailing blanks.
pub fn trim_blanks(s: &str) -> (r: String)
    ensures
        r@ == trim_end(trim_start(s@)),
{
    let n = s.unicode_len();
    let mut a: usize = 0;
    assert(s@.skip(0) =~= s@);
    while a < n && blank_at(s, a)
        invariant
            n == s@.len(),
            a <= n,
            trim_start(s@) == trim_start(s@.skip(a as int)),
        decreases n - a,
    {
        assert(s@.skip(a as int).drop_first() =~= s@.skip(a as int + 1));
        a = a + 1;
    }
    let mut b: usize = n;
    assert(s@.skip(a as int).take((b - a) as int) =~= s@.skip(a as int));
    while b > a && blank_at(s, b - 1)
        invariant
            n == s@.len(),
            a <= b <= n,
            trim_start(s@) == s@.skip(a as int),
            trim_end(s@.skip(a as int)) == trim_end(s@.subrange(a as int, b as int)),
        decreases b - a,
    {
        assert(s@.subrange(a as int, b as int).drop_last() =~= s@.subrange(a as int, b as int - 1));
        b = b - 1;
    }
    let mut r = String::new();
    r.append(s.substring_char(a, b));
    r
}

} // verus!
