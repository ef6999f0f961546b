//! Name and version helpers.

use vstd::prelude::*;
use crate::bridge::{
    all_ascii, ascii_alphanumeric, ascii_lower, char_alphanumeric, is_alphanumeric, is_ascii_char, lowercase_text,
    to_lowercase,
};
use crate::kvm_core::error::{KvmError, KvmResult};
use crate::text::{chars_of, parse_unsigned, parse_unsigned_exec, push_char, split_char, split_spec, string_from};

verus! {

/// The characters of `s` that may stand in a service name: alphanumeric
/// ones, `-` and `_`.
pub open spec fn service_name_chars(s: Seq<char>) -> Seq<char> {
    s.filter(|c: char| char_alphanumeric(c) || c == '-' || c == '_')
}

/// Whether an ASCII character may stand in a service name: a digit, a
/// letter, `-` or `_`.
pub open spec fn ascii_name_char(c: char) -> bool {
    ascii_alphanumeric(c) || c == '-' || c == '_'
}

/// The characters of an ASCII text that may stand in a service name.
pub open spec fn ascii_name_chars(s: Seq<char>) -> Seq<char>
    decreases s.len(),
{
    if s.len() == 0 {
        Seq::<char>::empty()
    } else if ascii_name_char(s.last()) {
        ascii_name_chars(s.drop_last()).push(s.last())
    } else {
        ascii_name_chars(s.drop_last())
    }
}

/// The normalized form of an ASCII service name: its name characters,
/// lowercased.
pub open spec fn ascii_normalized(s: Seq<char>) -> Seq<char> {
    ascii_name_chars(s).map_values(|c: char| ascii_lower(c))
}

proof fn lemma_ascii_name_chars_ascii(s: Seq<char>)
    requires
        all_ascii(s),
    ensures
        all_ascii(ascii_name_chars(s)),
        forall|i: int| 0 <= i < ascii_name_chars(s).len() ==> ascii_name_char(#[trigger] ascii_name_chars(s)[i]),
    decreases s.len(),
{
    if s.len() > 0 {
        assert(all_ascii(s.drop_last()));
        lemma_ascii_name_chars_ascii(s.drop_last());
    }
}

proof fn lemma_lower_char(c: char)
    requires
        ascii_name_char(c),
    ensures
        ascii_name_char(ascii_lower(c)),
        is_ascii_char(ascii_lower(c)),
        ascii_lower(ascii_lower(c)) == ascii_lower(c),
{
}

/// The normalized form of a text of name characters that are lowercase is
/// the text itself.
proof fn lemma_normalized_fixed(t: Seq<char>)
    requires
        forall|i: int| 0 <= i < t.len() ==> ascii_name_char(#[trigger] t[i]) && ascii_lower(t[i]) == t[i],
    ensures
        ascii_name_chars(t) == t,
        ascii_normalized(t) == t,
    decreases t.len(),
{
    if t.len() > 0 {
        let init = t.drop_last();
        assert forall|i: int| 0 <= i < init.len() implies ascii_name_char(#[trigger] init[i]) && ascii_lower(init[i])
            == init[i] by {
            assert(init[i] == t[i]);
        }
        lemma_normalized_fixed(init);
        assert(ascii_name_char(t.last())) by {
            assert(t.last() == t[t.len() - 1]);
        }
        assert(init.push(t.last()) =~= t);
    }
    assert(ascii_normalized(t) =~= t);
}

/// Normalizing an ASCII service name twice gives what normalizing it once
/// gives: the normalized name is ASCII, made of lowercase letters, digits,
/// `-` and `_`.
pub proof fn normalization_is_idempotent(s: Seq<char>)
    requires
        all_ascii(s),
    ensures
        all_ascii(ascii_normalized(s)),
        ascii_normalized(ascii_normalized(s)) == ascii_normalized(s),
{
    lemma_ascii_name_chars_ascii(s);
    let k = ascii_name_chars(s);
    let t = ascii_normalized(s);
    assert forall|i: int| 0 <= i < t.len() implies ascii_name_char(#[trigger] t[i]) && ascii_lower(t[i]) == t[i]
        && is_ascii_char(t[i]) by {
        assert(t[i] == ascii_lower(k[i]));
        lemma_lower_char(k[i]);
    }
    lemma_normalized_fixed(t);
}

/// Normalizes a service name: drops every character that is not
/// alphanumeric, `-` or `_`, then lowercases the rest. On an ASCII name
/// that keeps the digits, letters, `-` and `_`, and lowercases the letters.
pub fn normalize_service_name(name: &str) -> (r: String)
    ensures
        r@ == lowercase_text(service_name_chars(name@)),
        all_ascii(name@) ==> r@ == ascii_normalized(name@),
{
    let cs = chars_of(name);
    let n = cs.len();
    let mut kept = String::new();
    let mut i: usize = 0;
    while i < n
        invariant
            cs@ == name@,
            n == cs@.len(),
            i <= n,
            kept@ == service_name_chars(cs@.take(i as int)),
            all_ascii(name@) ==> kept@ == ascii_name_chars(cs@.take(i as int)),
        decreases n - i,
    {
        let c = cs[i];
        assert(cs@.take(i as int + 1).drop_last() =~= cs@.take(i as int));
        assert(cs@.take(i as int + 1).last() == c);
        reveal_with_fuel(Seq::filter, 1);
        assert(all_ascii(name@) ==> is_ascii_char(c)) by {
            if all_ascii(name@) {
                assert(name@[i as int] == c);
            }
        }
        if is_alphanumeric(c) || c == '-' || c == '_' {
            push_char(&mut kept, c);
        }
        i += 1;
    }
    assert(cs@.take(n as int) =~= cs@);
    proof {
        if all_ascii(name@) {
            lemma_ascii_name_chars_ascii(name@);
        }
    }
    to_lowercase(kept.as_str())
}

/// Whether every piece parses as a `u32`.
pub open spec fn all_u32(parts: Seq<Seq<char>>) -> bool {
    forall|i: int| 0 <= i < parts.len() ==> #[trigger] parse_unsigned(parts[i], u32::MAX as nat) is Some
}

/// Validates a `major.minor.patch` version: three dot-separated numbers,
/// each a `u32`.
pub fn validate_version(version: &str) -> (r: KvmResult<()>)
    ensures
        split_spec(version@, '.').len() != 3 ==> (r matches Err(KvmError::Config(m)) && m@
            == "Invalid version format"@),
        split_spec(version@, '.').len() == 3 && !all_u32(split_spec(version@, '.')) ==> (r matches Err(
            KvmError::Config(m),
        ) && m@ == "Invalid version number"@),
        split_spec(version@, '.').len() == 3 && all_u32(split_spec(version@, '.')) ==> r is Ok,
{
    let parts = split_char(version, '.');
    if parts.len() != 3 {
        return Err(KvmError::Config(string_from("Invalid version format")));
    }
    let mut i: usize = 0;
    while i < 3
        invariant
            parts.len() == 3,
            split_spec(version@, '.').len() == 3,
            forall|j: int| 0 <= j < parts.len() ==> #[trigger] parts[j]@ == split_spec(version@, '.')[j],
            i <= 3,
            forall|j: int| 0 <= j < i ==> #[trigger] parse_unsigned(split_spec(version@, '.')[j], u32::MAX as nat) is Some,
        decreases 3 - i,
    {
        if parse_unsigned_exec(parts[i].as_str(), 0xffff_ffff).is_none() {
            return Err(KvmError::Config(string_from("Invalid version number")));
        }
        i += 1;
    }
    Ok(())
}

} // verus!
