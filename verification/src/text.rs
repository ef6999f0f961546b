//! Text helpers shared by the parsers and formatters of the library:
//! splitting on a separator, decimal numbers in and out, and building
//! `String`s from characters.

use vstd::prelude::*;
use vstd::string::*;

verus! {

/// The pieces of `s` between occurrences of `sep`, as `str::split` with a
/// `char` pattern yields them: there is always at least one piece.
pub open spec fn split_spec(s: Seq<char>, sep: char) -> Seq<Seq<char>>
    decreases s.len(),
{
    if s.len() == 0 {
        seq![Seq::<char>::empty()]
    } else {
        let prev = split_spec(s.drop_last(), sep);
        if s.last() == sep {
            prev.push(Seq::<char>::empty())
        } else {
            prev.update(prev.len() - 1, prev.last().push(s.last()))
        }
    }
}

pub proof fn lemma_split_len(s: Seq<char>, sep: char)
    ensures
        split_spec(s, sep).len() >= 1,
    decreases s.len(),
{
    if s.len() > 0 {
        lemma_split_len(s.drop_last(), sep);
    }
}

/// The character of a decimal digit.
pub open spec fn digit_char(d: nat) -> char {
    ((d + 48) as u8) as char
}

/// The decimal text of `n`, without sign or leading zeros.
pub open spec fn decimal(n: nat) -> Seq<char>
    decreases n,
{
    if n < 10 {
        seq![digit_char(n)]
    } else {
        decimal(n / 10).push(digit_char(n % 10))
    }
}

pub open spec fn is_digit(c: char) -> bool {
    '0' <= c && c <= '9'
}

pub open spec fn all_digits(s: Seq<char>) -> bool {
    forall|i: int| 0 <= i < s.len() ==> #[trigger] is_digit(s[i])
}

/// The value of a run of decimal digits.
pub open spec fn digits_value(s: Seq<char>) -> nat
    decreases s.len(),
{
    if s.len() == 0 {
        0
    } else {
        digits_value(s.drop_last()) * 10 + ((s.last() as int) - 48) as nat
    }
}

/// What follows an optional leading `+`.
pub open spec fn unsigned_body(s: Seq<char>) -> Seq<char> {
    if s.len() > 0 && s[0] == '+' {
        s.drop_first()
    } else {
        s
    }
}

/// What `str::parse` gives for an unsigned integer type whose largest value
/// is `max`: an optional `+`, then at least one decimal digit, and no
/// overflow.
pub open spec fn parse_unsigned(s: Seq<char>, max: nat) -> Option<nat> {
    let b = unsigned_body(s);
    if b.len() > 0 && all_digits(b) && digits_value(b) <= max {
        Some(digits_value(b))
    } else {
        None
    }
}

pub proof fn lemma_value_prefix_le(b: Seq<char>, i: int)
    requires
        all_digits(b),
        0 <= i <= b.len(),
    ensures
        digits_value(b.take(i)) <= digits_value(b),
    decreases b.len(),
{
    if i == b.len() {
        assert(b.take(i) =~= b);
    } else {
        let p = b.drop_last();
        assert(all_digits(p)) by {
            assert forall|k: int| 0 <= k < p.len() implies #[trigger] is_digit(p[k]) by {
                assert(is_digit(b[k]));
            }
        }
        lemma_value_prefix_le(p, i);
        assert(p.take(i) =~= b.take(i));
    }
}

/// Appends one character to a `String`.
#[verifier::external_body]
pub fn push_char(s: &mut String, c: char)
    ensures
        final(s)@ == old(s)@.push(c),
{
    s.push(c);
}

/// The characters of `s`, in order.
pub fn chars_of(s: &str) -> (r: Vec<char>)
    ensures
        r@ == s@,
{
    let n = s.unicode_len();
    let mut r: Vec<char> = Vec::new();
    let mut i: usize = 0;
    while i < n
        invariant
            n == s@.len(),
            i <= n,
            r@ == s@.take(i as int),
        decreases n - i,
    {
        let c = s.get_char(i);
        r.push(c);
        assert(s@.take(i as int + 1) =~= s@.take(i as int).push(c));
        i += 1;
    }
    assert(s@.take(n as int) =~= s@);
    r
}

/// A `String` holding the characters `v[from..to]`.
pub fn string_of(v: &Vec<char>, from: usize, to: usize) -> (r: String)
    requires
        from <= to <= v.len(),
    ensures
        r@ == v@.subrange(from as int, to as int),
{
    let mut r = String::new();
    let mut i = from;
    while i < to
        invariant
            from <= i <= to,
            to <= v.len(),
            r@ == v@.subrange(from as int, i as int),
        decreases to - i,
    {
        push_char(&mut r, v[i]);
        assert(v@.subrange(from as int, i as int + 1) =~= v@.subrange(from as int, i as int).push(
            v@[i as int],
        ));
        i += 1;
    }
    r
}

/// A `String` with the text of `s`.
pub fn string_from(s: &str) -> (r: String)
    ensures
        r@ == s@,
{
    let mut r = String::new();
    r.append(s);
    r
}

/// Appends `t` to `s`.
pub fn append_str(s: &mut String, t: &str)
    ensures
        final(s)@ == old(s)@ + t@,
{
    s.append(t);
}

/// The pieces of `s` between the occurrences of `sep`.
pub fn split_char(s: &str, sep: char) -> (r: Vec<String>)
    ensures
        r.len() == split_spec(s@, sep).len(),
        forall|i: int| 0 <= i < r.len() ==> #[trigger] r[i]@ == split_spec(s@, sep)[i],
{
    let cs = chars_of(s);
    let n = cs.len();
    let mut pieces: Vec<String> = Vec::new();
    let mut cur = String::new();
    let mut i: usize = 0;
    assert(cs@.take(0) =~= Seq::<char>::empty());
    while i < n
        invariant
            n == cs@.len(),
            cs@ == s@,
            i <= n,
            pieces.len() + 1 == split_spec(cs@.take(i as int), sep).len(),
            forall|j: int|
                0 <= j < pieces.len() ==> #[trigger] pieces[j]@ == split_spec(
                    cs@.take(i as int),
                    sep,
                )[j],
            cur@ == split_spec(cs@.take(i as int), sep).last(),
        decreases n - i,
    {
        let c = cs[i];
        let ghost pre = cs@.take(i as int);
        assert(cs@.take(i as int + 1).drop_last() =~= pre);
        proof {
            lemma_split_len(pre, sep);
        }
        if c == sep {
            pieces.push(cur);
            cur = String::new();
        } else {
            push_char(&mut cur, c);
        }
        i += 1;
    }
    assert(cs@.take(n as int) =~= cs@);
    pieces.push(cur);
    pieces
}

/// The character of the decimal digit `d`.
pub fn digit_char_exec(d: u64) -> (c: char)
    requires
        d < 10,
    ensures
        c == digit_char(d as nat),
{
    let b: u8 = (d as u8) + 48;
    b as char
}

/// Appends the decimal text of `n` to `out`.
pub fn push_decimal(out: &mut String, n: u64)
    ensures
        final(out)@ == old(out)@ + decimal(n as nat),
    decreases n,
{
    if n >= 10 {
        push_decimal(out, n / 10);
    }
    let c = digit_char_exec(n % 10);
    push_char(out, c);
    proof {
        if n >= 10 {
            assert(decimal(n as nat) == decimal((n / 10) as nat).push(digit_char((n % 10) as nat)));
        } else {
            assert(decimal(n as nat) == seq![digit_char(n as nat)]);
        }
    }
    assert(final(out)@ =~= old(out)@ + decimal(n as nat));
}

/// The decimal text of `n`.
pub fn decimal_string(n: u64) -> (r: String)
    ensures
        r@ == decimal(n as nat),
{
    let mut r = String::new();
    push_decimal(&mut r, n);
    assert(r@ =~= decimal(n as nat));
    r
}

/// Parses `s` as `str::parse` does for an unsigned type whose largest value
/// is `max`.
pub fn parse_unsigned_exec(s: &str, max: u64) -> (r: Option<u64>)
    ensures
        match r {
            Some(v) => parse_unsigned(s@, max as nat) == Some(v as nat),
            None => parse_unsigned(s@, max as nat).is_none(),
        },
{
    let cs = chars_of(s);
    let n = cs.len();
    let mut start: usize = 0;
    if n > 0 && cs[0] == '+' {
        start = 1;
    }
    let ghost b = unsigned_body(s@);
    assert(b =~= cs@.subrange(start as int, n as int));
    if start == n {
        return None;
    }
    let mut acc: u64 = 0;
    let mut i: usize = start;
    while i < n
        invariant
            cs@ == s@,
            n == cs@.len(),
            start <= i <= n,
            start < n,
            b == cs@.subrange(start as int, n as int),
            b == unsigned_body(s@),
            all_digits(b.take(i - start)),
            acc as nat == digits_value(b.take(i - start)),
            acc <= max,
        decreases n - i,
    {
        let c = cs[i];
        let ghost k = i - start;
        assert(b.take(k + 1).drop_last() =~= b.take(k));
        assert(b.take(k + 1).last() == c);
        if !('0' <= c && c <= '9') {
            assert(!is_digit(b[k]));
            assert(!all_digits(b));
            return None;
        }
        let d: u64 = (c as u64) - 48;
        let next: u128 = (acc as u128) * 10 + (d as u128);
        assert(all_digits(b.take(k + 1))) by {
            assert forall|j: int| 0 <= j < k + 1 implies #[trigger] is_digit(b.take(k + 1)[j]) by {
                if j < k {
                    assert(b.take(k + 1)[j] == b.take(k)[j]);
                }
            }
        }
        if next > max as u128 {
            proof {
                if all_digits(b) {
                    lemma_value_prefix_le(b, k + 1);
                }
            }
            return None;
        }
        acc = next as u64;
        i += 1;
    }
    assert(b.take(n - start) =~= b);
    Some(acc)
}


/// The lowercase hexadecimal digit of `d` (`0..16`).
pub open spec fn hex_digit_lower(d: nat) -> char {
    if d < 10 {
        digit_char(d)
    } else {
        ((d - 10 + 97) as u8) as char
    }
}

/// The lowercase hexadecimal text of `n`, without leading zeros.
pub open spec fn hex_text(n: nat) -> Seq<char>
    decreases n,
{
    if n < 16 {
        seq![hex_digit_lower(n)]
    } else {
        hex_text(n / 16).push(hex_digit_lower(n % 16))
    }
}

/// Appends the lowercase hexadecimal text of `n` to `out`.
pub fn push_hex(out: &mut String, n: u64)
    ensures
        final(out)@ == old(out)@ + hex_text(n as nat),
    decreases n,
{
    if n >= 16 {
        push_hex(out, n / 16);
    }
    let d = n % 16;
    let c: char = if d < 10 {
        digit_char_exec(d)
    } else {
        let b: u8 = (d as u8) - 10 + 97;
        b as char
    };
    push_char(out, c);
    proof {
        if n >= 16 {
            assert(hex_text(n as nat) == hex_text((n / 16) as nat).push(hex_digit_lower((n % 16) as nat)));
        } else {
            assert(hex_text(n as nat) == seq![hex_digit_lower(n as nat)]);
        }
    }
    assert(final(out)@ =~= old(out)@ + hex_text(n as nat));
}

/// The pieces joined, with `sep` between each two.
pub open spec fn join_spec(parts: Seq<Seq<char>>, sep: char) -> Seq<char>
    decreases parts.len(),
{
    if parts.len() == 0 {
        Seq::<char>::empty()
    } else if parts.len() == 1 {
        parts[0]
    } else {
        join_spec(parts.drop_last(), sep).push(sep) + parts.last()
    }
}

/// The position of the first `c` in `s`, if any.
pub open spec fn first_index_of(s: Seq<char>, c: char) -> Option<int>
    decreases s.len(),
{
    if s.len() == 0 {
        None
    } else if s[0] == c {
        Some(0)
    } else {
        match first_index_of(s.drop_first(), c) {
            Some(i) => Some(i + 1),
            None => None,
        }
    }
}

pub proof fn lemma_first_index_of(s: Seq<char>, c: char)
    ensures
        match first_index_of(s, c) {
            Some(i) => 0 <= i < s.len() && s[i] == c && forall|j: int| 0 <= j < i ==> s[j] != c,
            None => forall|j: int| 0 <= j < s.len() ==> s[j] != c,
        },
    decreases s.len(),
{
    if s.len() > 0 && s[0] != c {
        lemma_first_index_of(s.drop_first(), c);
        match first_index_of(s.drop_first(), c) {
            Some(i) => {
                assert forall|j: int| 0 <= j < i + 1 implies s[j] != c by {
                    if j > 0 {
                        assert(s[j] == s.drop_first()[j - 1]);
                    }
                }
            },
            None => {
                assert forall|j: int| 0 <= j < s.len() implies s[j] != c by {
                    if j > 0 {
                        assert(s[j] == s.drop_first()[j - 1]);
                    }
                }
            },
        }
    }
}

/// The first `c` in `s` is at `i`.
pub proof fn lemma_first_index_at(s: Seq<char>, c: char, i: int)
    requires
        0 <= i < s.len(),
        s[i] == c,
        forall|j: int| 0 <= j < i ==> s[j] != c,
    ensures
        first_index_of(s, c) == Some(i),
{
    lemma_first_index_of(s, c);
}

/// `s` has no `c`.
pub proof fn lemma_first_index_none(s: Seq<char>, c: char)
    requires
        forall|j: int| 0 <= j < s.len() ==> s[j] != c,
    ensures
        first_index_of(s, c) is None,
{
    lemma_first_index_of(s, c);
}

/// What `str::split_once` with a `char` gives: the text before the first
/// `c` and the text after it.
pub open spec fn split_once_spec(s: Seq<char>, c: char) -> Option<(Seq<char>, Seq<char>)> {
    match first_index_of(s, c) {
        Some(i) => Some((s.take(i), s.skip(i + 1))),
        None => None,
    }
}

/// Splits `s` at the first `c`.
pub fn split_once_char(s: &str, c: char) -> (r: Option<(String, String)>)
    ensures
        match split_once_spec(s@, c) {
            Some((a, b)) => r matches Some((x, y)) && x@ == a && y@ == b,
            None => r is None,
        },
{
    let cs = chars_of(s);
    let n = cs.len();
    let mut i: usize = 0;
    while i < n
        invariant
            cs@ == s@,
            n == cs@.len(),
            i <= n,
            forall|j: int| 0 <= j < i ==> cs@[j] != c,
        decreases n - i,
    {
        if cs[i] == c {
            proof {
                lemma_first_index_at(s@, c, i as int);
            }
            let a = string_of(&cs, 0, i);
            let b = string_of(&cs, i + 1, n);
            assert(a@ =~= s@.take(i as int));
            assert(b@ =~= s@.skip(i + 1));
            return Some((a, b));
        }
        i += 1;
    }
    proof {
        lemma_first_index_none(s@, c);
    }
    None
}

/// The texts of a list of strings.
pub open spec fn views(parts: Seq<String>) -> Seq<Seq<char>> {
    Seq::new(parts.len(), |i: int| parts[i]@)
}

/// The strings joined, with `sep` between each two.
pub fn join_strings(parts: &Vec<String>, sep: char) -> (r: String)
    ensures
        r@ == join_spec(views(parts@), sep),
{
    let mut r = String::new();
    let mut i: usize = 0;
    while i < parts.len()
        invariant
            i <= parts.len(),
            r@ == join_spec(views(parts@.take(i as int)), sep),
        decreases parts.len() - i,
    {
        let ghost pre = views(parts@.take(i as int));
        let ghost next = views(parts@.take(i as int + 1));
        assert(next.drop_last() =~= pre);
        assert(next.last() == parts@[i as int]@);
        if i > 0 {
            push_char(&mut r, sep);
        } else {
            assert(next.len() == 1);
        }
        append_str(&mut r, parts[i].as_str());
        assert(r@ =~= join_spec(next, sep));
        i += 1;
    }
    assert(parts@.take(parts.len() as int) =~= parts@);
    r
}

/// Whether `s` begins with `p`.
pub open spec fn has_prefix(s: Seq<char>, p: Seq<char>) -> bool {
    p.len() <= s.len() && s.take(p.len() as int) == p
}

/// Whether `s` begins with `p`.
pub fn starts_with_str(s: &str, p: &str) -> (r: bool)
    ensures
        r == has_prefix(s@, p@),
{
    let cs = chars_of(s);
    let ps = chars_of(p);
    if ps.len() > cs.len() {
        return false;
    }
    let mut i: usize = 0;
    while i < ps.len()
        invariant
            cs@ == s@,
            ps@ == p@,
            ps.len() <= cs.len(),
            i <= ps.len(),
            forall|j: int| 0 <= j < i ==> cs@[j] == ps@[j],
        decreases ps.len() - i,
    {
        if cs[i] != ps[i] {
            assert(s@.take(p@.len() as int)[i as int] != p@[i as int]);
            return false;
        }
        i += 1;
    }
    assert(s@.take(p@.len() as int) =~= p@);
    true
}

/// The first position at or after `i` where `p` occurs in `s`.
pub open spec fn find_from(s: Seq<char>, p: Seq<char>, i: int) -> Option<int>
    decreases s.len() + 1 - i,
{
    if i < 0 || i + p.len() > s.len() {
        None
    } else if s.subrange(i, i + p.len()) == p {
        Some(i)
    } else {
        find_from(s, p, i + 1)
    }
}

/// The first position where `p` occurs in `s`, as `str::find` gives it
/// (counted in characters).
pub open spec fn find_spec(s: Seq<char>, p: Seq<char>) -> Option<int> {
    find_from(s, p, 0)
}

pub proof fn lemma_find_from_bounds(s: Seq<char>, p: Seq<char>, i: int)
    ensures
        find_from(s, p, i) matches Some(j) ==> i <= j && j + p.len() <= s.len() && 0 <= j,
    decreases s.len() + 1 - i,
{
    if !(i < 0 || i + p.len() > s.len()) && s.subrange(i, i + p.len()) != p {
        lemma_find_from_bounds(s, p, i + 1);
    }
}

/// The first position where `p` occurs in `s`.
pub fn find_str(s: &str, p: &str) -> (r: Option<usize>)
    ensures
        match find_spec(s@, p@) {
            Some(i) => r == Some(i as usize),
            None => r is None,
        },
{
    let cs = chars_of(s);
    let ps = chars_of(p);
    let n = cs.len();
    let m = ps.len();
    if m > n {
        return None;
    }
    let mut i: usize = 0;
    while i <= n - m
        invariant
            cs@ == s@,
            ps@ == p@,
            n == cs.len(),
            m == ps.len(),
            m <= n,
            i <= n - m + 1,
            find_spec(s@, p@) == find_from(s@, p@, i as int),
        decreases n - m + 1 - i,
    {
        let mut k: usize = 0;
        let mut same = true;
        while k < m
            invariant
                cs@ == s@,
                ps@ == p@,
                n == cs.len(),
                m == ps.len(),
                i + m <= n,
                k <= m,
                same == forall|j: int| 0 <= j < k ==> cs@[i + j] == ps@[j],
            decreases m - k,
        {
            if cs[i + k] != ps[k] {
                same = false;
            }
            k += 1;
        }
        if same {
            assert(s@.subrange(i as int, i + m) =~= p@);
            return Some(i);
        }
        assert(s@.subrange(i as int, i + m) != p@) by {
            let j = choose|j: int| 0 <= j < m && !(cs@[i + j] == ps@[j]);
            assert(s@.subrange(i as int, i + m)[j] == cs@[i + j]);
        }
        i += 1;
    }
    None
}


/// A decimal digit's character is a digit with that value.
pub proof fn lemma_digit_char(d: nat)
    requires
        d < 10,
    ensures
        is_digit(digit_char(d)),
        (digit_char(d) as int) - 48 == d,
        digit_char(d) == '0' <==> d == 0,
{
}

/// The decimal text of `n` is a non-empty run of digits worth `n`, with no
/// leading zero, of at most three digits below 1000.
pub proof fn lemma_decimal(n: nat)
    ensures
        decimal(n).len() >= 1,
        all_digits(decimal(n)),
        digits_value(decimal(n)) == n,
        n > 0 ==> decimal(n)[0] != '0',
        decimal(n).len() > 1 ==> decimal(n)[0] != '0',
        n < 1000 ==> decimal(n).len() <= 3,
    decreases n,
{
    if n < 10 {
        lemma_digit_char(n);
        let s = decimal(n);
        assert(s.drop_last() =~= Seq::<char>::empty());
        assert(digits_value(s) == digits_value(s.drop_last()) * 10 + ((s.last() as int) - 48) as nat);
    } else {
        let q = n / 10;
        let d = n % 10;
        lemma_decimal(q);
        lemma_digit_char(d);
        let s = decimal(n);
        assert(s == decimal(q).push(digit_char(d)));
        assert(s.drop_last() =~= decimal(q));
        assert(s[0] == decimal(q)[0]);
        assert forall|i: int| 0 <= i < s.len() implies #[trigger] is_digit(s[i]) by {
            if i < s.len() - 1 {
                assert(s[i] == decimal(q)[i]);
            }
        }
        assert(q * 10 + d == n);
        assert(n < 1000 ==> q < 100);
        assert(q < 100 ==> decimal(q).len() <= 2) by {
            if 10 <= q < 100 {
                lemma_decimal(q / 10);
                assert(q / 10 < 10);
                assert(decimal(q) == decimal(q / 10).push(digit_char(q % 10)));
            }
        }
    }
}

/// The decimal text of `n` reads back as `n`.
pub proof fn lemma_parse_decimal(n: nat, max: nat)
    requires
        n <= max,
    ensures
        parse_unsigned(decimal(n), max) == Some(n),
{
    lemma_decimal(n);
    lemma_digit_char(0);
    assert(decimal(n)[0] != '+') by {
        assert(is_digit(decimal(n)[0]));
    }
    assert(unsigned_body(decimal(n)) == decimal(n));
}

/// A digit is none of `sep`'s non-digit characters.
pub proof fn lemma_decimal_lacks(n: nat, c: char)
    requires
        !is_digit(c),
    ensures
        !decimal(n).contains(c),
{
    lemma_decimal(n);
    if decimal(n).contains(c) {
        let i = choose|i: int| 0 <= i < decimal(n).len() && decimal(n)[i] == c;
        assert(is_digit(decimal(n)[i]));
    }
}

/// Appending text without `sep` extends the last piece.
pub proof fn lemma_split_extend(a: Seq<char>, b: Seq<char>, sep: char)
    requires
        !b.contains(sep),
    ensures
        split_spec(a + b, sep) == split_spec(a, sep).update(
            split_spec(a, sep).len() - 1,
            split_spec(a, sep).last() + b,
        ),
    decreases b.len(),
{
    lemma_split_len(a, sep);
    if b.len() == 0 {
        assert(a + b =~= a);
        assert(split_spec(a, sep).last() + b =~= split_spec(a, sep).last());
        assert(split_spec(a, sep).update(split_spec(a, sep).len() - 1, split_spec(a, sep).last())
            =~= split_spec(a, sep));
    } else {
        let b0 = b.drop_last();
        assert(!b0.contains(sep)) by {
            if b0.contains(sep) {
                let i = choose|i: int| 0 <= i < b0.len() && b0[i] == sep;
                assert(b[i] == sep);
            }
        }
        lemma_split_extend(a, b0, sep);
        let ab = a + b;
        assert(ab.drop_last() =~= a + b0);
        assert(ab.last() == b.last());
        assert(b.last() != sep) by {
            assert(b[b.len() - 1] == b.last());
        }
        lemma_split_len(a + b0, sep);
        let p = split_spec(a, sep);
        assert(split_spec(ab, sep) =~= p.update(p.len() - 1, p.last() + b)) by {
            assert(p.last() + b0 + seq![b.last()] =~= p.last() + b);
            assert((p.last() + b0).push(b.last()) =~= p.last() + b);
        }
    }
}

/// Text without `sep` is one piece.
pub proof fn lemma_split_single(b: Seq<char>, sep: char)
    requires
        !b.contains(sep),
    ensures
        split_spec(b, sep) == seq![b],
{
    let e = Seq::<char>::empty();
    lemma_split_extend(e, b, sep);
    assert(e + b =~= b);
    assert(split_spec(e, sep) == seq![e]);
    assert(e + b =~= b);
    assert(seq![e].update(0, e + b) =~= seq![b]);
}

/// Splitting pieces joined by `sep` gives them back, where none holds
/// `sep`.
pub proof fn lemma_split_join(parts: Seq<Seq<char>>, sep: char)
    requires
        parts.len() >= 1,
        forall|i: int| 0 <= i < parts.len() ==> !(#[trigger] parts[i]).contains(sep),
    ensures
        split_spec(join_spec(parts, sep), sep) == parts,
    decreases parts.len(),
{
    if parts.len() == 1 {
        lemma_split_single(parts[0], sep);
        assert(seq![parts[0]] =~= parts);
    } else {
        let init = parts.drop_last();
        assert forall|i: int| 0 <= i < init.len() implies !(#[trigger] init[i]).contains(sep) by {
            assert(init[i] == parts[i]);
        }
        lemma_split_join(init, sep);
        let j = join_spec(init, sep).push(sep);
        assert(split_spec(j, sep) == init.push(Seq::<char>::empty())) by {
            assert(j.drop_last() =~= join_spec(init, sep));
        }
        assert(!parts.last().contains(sep)) by {
            assert(parts[parts.len() - 1] == parts.last());
        }
        lemma_split_extend(j, parts.last(), sep);
        let q = init.push(Seq::<char>::empty());
        assert(Seq::<char>::empty() + parts.last() =~= parts.last());
        assert(q.update(q.len() - 1, q.last() + parts.last()) =~= parts);
    }
}

/// The first `=` of `p + rest`, where `p` ends in its only `=`, splits it
/// into `p` without the `=` and `rest`.
pub proof fn lemma_split_once_prefix(p: Seq<char>, rest: Seq<char>, c: char)
    requires
        p.len() >= 1,
        p.last() == c,
        !p.drop_last().contains(c),
    ensures
        split_once_spec(p + rest, c) == Some((p.drop_last(), rest)),
{
    let s = p + rest;
    let i = p.len() - 1;
    assert(s[i] == c);
    assert forall|j: int| 0 <= j < i implies s[j] != c by {
        assert(s[j] == p.drop_last()[j]);
    }
    lemma_first_index_at(s, c, i);
    assert(s.take(i) =~= p.drop_last());
    assert(s.skip(i + 1) =~= rest);
}

} // verus!
