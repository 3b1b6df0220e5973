//! Identifier case conversion and the table of ink! types with their default values.

use vstd::prelude::*;
use crate::text::{push_char, same_text, text_list_contains, has_prefix, starts_with, str_texts};

verus! {

/// `c` is an ASCII capital letter.
pub open spec fn is_ascii_upper(c: char) -> bool {
    'A' <= c && c <= 'Z'
}

/// `c` with an ASCII capital letter turned into its small letter.
pub open spec fn ascii_lower(c: char) -> char {
    if is_ascii_upper(c) {
        ((c as u32) + 32) as char
    } else {
        c
    }
}

/// Splits a camel-case identifier into lower-case words joined by `sep`:
/// every character is lowered, and every capital letter after the first
/// character is preceded by `sep`.
pub open spec fn separate_words(s: Seq<char>, sep: char) -> Seq<char>
    decreases s.len(),
{
    if s.len() == 0 {
        Seq::empty()
    } else {
        let init = separate_words(s.drop_last(), sep);
        let c = s.last();
        if s.len() > 1 && is_ascii_upper(c) {
            init.push(sep).push(ascii_lower(c))
        } else {
            init.push(ascii_lower(c))
        }
    }
}

/// `MyContract` becomes `my_contract`.
pub open spec fn snake_case(s: Seq<char>) -> Seq<char> {
    separate_words(s, '_')
}

/// `MyContract` becomes `my-contract`.
pub open spec fn kebab_case(s: Seq<char>) -> Seq<char> {
    separate_words(s, '-')
}

fn lower_char(c: char) -> (r: char)
    ensures
        r == ascii_lower(c),
{
    if 'A' <= c && c <= 'Z' {
        let code: u32 = (c as u32) + 32;
        let byte: u8 = code as u8;
        byte as char
    } else {
        c
    }
}

fn separate_words_exec(s: &str, sep: char) -> (r: String)
    ensures
        r@ == separate_words(s@, sep),
{
    let n = s.unicode_len();
    let mut out = String::new();
    let mut i: usize = 0;
    while i < n
        invariant
            i <= n,
            n == s@.len(),
            out@ == separate_words(s@.take(i as int), sep),
        decreases n - i,
    {
        let c = s.get_char(i);
        assert(s@.take(i + 1).drop_last() =~= s@.take(i as int));
        assert(s@.take(i + 1).last() == c);
        if i > 0 && 'A' <= c && c <= 'Z' {
            push_char(&mut out, sep);
        }
        push_char(&mut out, lower_char(c));
        i += 1;
    }
    assert(s@.take(n as int) =~= s@);
    out
}

/// Converts a camel-case identifier to snake case (`MyContract` to `my_contract`).
pub fn camel_to_snake(s: &str) -> (r: String)
    ensures
        r@ == snake_case(s@),
{
    separate_words_exec(s, '_')
}

/// Converts a camel-case identifier to kebab case (`MyContract` to `my-contract`).
pub fn camel_case_to_kebab(s: &str) -> (r: String)
    ensures
        r@ == kebab_case(s@),
{
    separate_words_exec(s, '-')
}

/// No character of `s` is an ASCII capital letter.
pub open spec fn has_no_capitals(s: Seq<char>) -> bool {
    forall|k: int| 0 <= k < s.len() ==> !is_ascii_upper(#[trigger] s[k])
}

proof fn lemma_separated_has_no_capitals(s: Seq<char>, sep: char)
    requires
        !is_ascii_upper(sep),
    ensures
        has_no_capitals(separate_words(s, sep)),
    decreases s.len(),
{
    if s.len() > 0 {
        lemma_separated_has_no_capitals(s.drop_last(), sep);
    }
}

proof fn lemma_separate_without_capitals(s: Seq<char>, sep: char)
    requires
        has_no_capitals(s),
    ensures
        separate_words(s, sep) == s,
    decreases s.len(),
{
    if s.len() > 0 {
        assert(!is_ascii_upper(s.last()));
        assert(has_no_capitals(s.drop_last())) by {
            assert forall|k: int| 0 <= k < s.drop_last().len() implies !is_ascii_upper(
                #[trigger] s.drop_last()[k],
            ) by {
                assert(s.drop_last()[k] == s[k]);
            }
        }
        lemma_separate_without_capitals(s.drop_last(), sep);
        assert(s.drop_last().push(s.last()) =~= s);
    }
}

/// Converting a name to snake case, or to kebab case, a second time changes
/// nothing: the first conversion leaves no capital letter behind.
pub proof fn law_case_conversion_idempotent(s: Seq<char>)
    ensures
        snake_case(snake_case(s)) == snake_case(s),
        kebab_case(kebab_case(s)) == kebab_case(s),
        has_no_capitals(snake_case(s)),
        has_no_capitals(kebab_case(s)),
{
    lemma_separated_has_no_capitals(s, '_');
    lemma_separated_has_no_capitals(s, '-');
    lemma_separate_without_capitals(snake_case(s), '_');
    lemma_separate_without_capitals(kebab_case(s), '-');
}

/// The ink! primitive types, in the order in which imports name them.
pub open spec fn ink_primitives() -> Seq<Seq<char>> {
    seq!["AccountId"@, "Hash"@]
}

/// The types for which a default value is known.
pub open spec fn ink_types() -> Seq<Seq<char>> {
    seq![
        "bool"@, "u8"@, "u16"@, "u32"@, "u64"@, "u128"@, "i8"@, "i16"@, "i32"@, "i64"@, "i128"@,
        "Balance"@, "AccountId"@, "Hash"@, "Vec<u8>"@, "Vec<AccountId>"@, "Vec<Balance>"@,
    ]
}

/// The integer types.
pub open spec fn integer_types() -> Seq<Seq<char>> {
    seq!["u8"@, "u16"@, "u32"@, "u64"@, "u128"@, "i8"@, "i16"@, "i32"@, "i64"@, "i128"@]
}

/// The ink! primitive types, in the order in which imports name them.
pub fn ink_primitive_list() -> (r: Vec<&'static str>)
    ensures
        str_texts(r@) == ink_primitives(),
{
    let mut v: Vec<&'static str> = Vec::new();
    v.push("AccountId");
    v.push("Hash");
    assert(str_texts(v@) =~= ink_primitives());
    v
}

/// The types for which a default value is known.
pub fn ink_type_list() -> (r: Vec<&'static str>)
    ensures
        str_texts(r@) == ink_types(),
{
    let mut v: Vec<&'static str> = Vec::new();
    v.push("bool");
    v.push("u8");
    v.push("u16");
    v.push("u32");
    v.push("u64");
    v.push("u128");
    v.push("i8");
    v.push("i16");
    v.push("i32");
    v.push("i64");
    v.push("i128");
    v.push("Balance");
    v.push("AccountId");
    v.push("Hash");
    v.push("Vec<u8>");
    v.push("Vec<AccountId>");
    v.push("Vec<Balance>");
    assert(str_texts(v@) =~= ink_types());
    v
}

fn integer_type_list() -> (r: Vec<&'static str>)
    ensures
        str_texts(r@) == integer_types(),
{
    let mut v: Vec<&'static str> = Vec::new();
    v.push("u8");
    v.push("u16");
    v.push("u32");
    v.push("u64");
    v.push("u128");
    v.push("i8");
    v.push("i16");
    v.push("i32");
    v.push("i64");
    v.push("i128");
    assert(str_texts(v@) =~= integer_types());
    v
}

/// The expression that a generated contract returns for a value of type `t`.
pub open spec fn default_value(t: Seq<char>) -> Seq<char> {
    if t == "bool"@ {
        "false"@
    } else if integer_types().contains(t) || t == "Balance"@ {
        "0"@
    } else if t == "AccountId"@ {
        "AccountId::from([0x0; 32])"@
    } else if t == "Hash"@ {
        "Hash::from([0x0; 32])"@
    } else if starts_with(t, "Vec<"@) {
        "Vec::new()"@
    } else {
        "Default::default()"@
    }
}

/// The expression that a generated test passes or expects for a value of type `t`;
/// integer literals carry their type as a suffix.
pub open spec fn test_value(t: Seq<char>) -> Seq<char> {
    if t == "bool"@ {
        "false"@
    } else if integer_types().contains(t) {
        "0"@ + t
    } else if t == "Balance"@ {
        "0"@
    } else if t == "AccountId"@ {
        "AccountId::from([0x0; 32])"@
    } else if t == "Hash"@ {
        "Hash::from([0x0; 32])"@
    } else if starts_with(t, "Vec<"@) {
        "Vec::new()"@
    } else {
        "Default::default()"@
    }
}

/// The expression that a generated contract returns for a value of type `ink_type`.
pub fn get_default_for_ink_type(ink_type: &str) -> (r: String)
    ensures
        r@ == default_value(ink_type@),
{
    let integers = integer_type_list();
    if same_text(ink_type, "bool") {
        "false".to_owned()
    } else if text_list_contains(&integers, ink_type) || same_text(ink_type, "Balance") {
        "0".to_owned()
    } else if same_text(ink_type, "AccountId") {
        "AccountId::from([0x0; 32])".to_owned()
    } else if same_text(ink_type, "Hash") {
        "Hash::from([0x0; 32])".to_owned()
    } else if has_prefix(ink_type, "Vec<") {
        "Vec::new()".to_owned()
    } else {
        "Default::default()".to_owned()
    }
}

/// The expression that a generated test passes or expects for a value of type `ink_type`.
pub fn get_default_ink_type_for_test(ink_type: &str) -> (r: String)
    ensures
        r@ == test_value(ink_type@),
{
    let integers = integer_type_list();
    if same_text(ink_type, "bool") {
        "false".to_owned()
    } else if text_list_contains(&integers, ink_type) {
        let mut s = "0".to_owned();
        s.append(ink_type);
        s
    } else if same_text(ink_type, "Balance") {
        "0".to_owned()
    } else if same_text(ink_type, "AccountId") {
        "AccountId::from([0x0; 32])".to_owned()
    } else if same_text(ink_type, "Hash") {
        "Hash::from([0x0; 32])".to_owned()
    } else if has_prefix(ink_type, "Vec<") {
        "Vec::new()".to_owned()
    } else {
        "Default::default()".to_owned()
    }
}

} // verus!
