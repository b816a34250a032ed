//! Case conventions for generated identifiers.
//!
//! `snake_case` and `PascalCase` come from the naming helpers of
//! `iac_forge`; lowercasing of the first character goes through std's
//! Unicode case mapping.
use vstd::prelude::*;

verus! {

/// `snake_case` in the sense of `iac_forge::naming::to_snake_case`:
/// every hyphen becomes an underscore, nothing else changes.
pub open spec fn snake_case(name: Seq<char>) -> Seq<char> {
    name.map_values(|c: char| if c == '-' { '_' } else { c })
}

/// What std's `char::to_uppercase` yields for a character.
pub uninterp spec fn uppercase_mapping(c: char) -> Seq<char>;

/// ASCII uppercasing of one character.
pub open spec fn ascii_upper(c: char) -> char {
    if 'a' <= c && c <= 'z' {
        ((c as int) - 32) as char
    } else {
        c
    }
}

/// The word delimiters of the naming conventions.
pub open spec fn is_word_delimiter(c: char) -> bool {
    c == '-' || c == '_'
}

/// The uppercase form of a character: the ASCII one for an ASCII
/// character, what `upper` gives for any other.
pub open spec fn capitalized(c: char, upper: spec_fn(char) -> Seq<char>) -> Seq<char> {
    if (c as u32) < 128 {
        seq![ascii_upper(c)]
    } else {
        upper(c)
    }
}

/// `PascalCase` of the rest `s` of a name, where `at_word_start` tells
/// whether the next character begins a word and `upper` uppercases a
/// non-ASCII character: delimiters are dropped, the first character of each
/// word is capitalized, every other character is kept.
pub open spec fn pascal_words(
    s: Seq<char>,
    at_word_start: bool,
    upper: spec_fn(char) -> Seq<char>,
) -> Seq<char>
    decreases s.len(),
{
    if s.len() == 0 {
        Seq::empty()
    } else if is_word_delimiter(s[0]) {
        pascal_words(s.skip(1), true, upper)
    } else if at_word_start {
        capitalized(s[0], upper) + pascal_words(s.skip(1), false, upper)
    } else {
        seq![s[0]] + pascal_words(s.skip(1), false, upper)
    }
}

/// `PascalCase` in the sense of `iac_forge::naming::to_pascal_case`: the
/// name is split into words at `-` and `_` (empty words dropped), the first
/// character of each word is uppercased, and the words are concatenated.
pub open spec fn pascal_case(name: Seq<char>) -> Seq<char> {
    pascal_words(name, true, |c: char| uppercase_mapping(c))
}

/// What std's `char::to_lowercase` yields for a character.
pub uninterp spec fn lowercase_mapping(c: char) -> Seq<char>;

/// ASCII lowercasing of one character.
pub open spec fn ascii_lower(c: char) -> char {
    if 'A' <= c && c <= 'Z' {
        ((c as int) + 32) as char
    } else {
        c
    }
}

/// Calls `iac_forge::naming::to_snake_case` (re-exported from `meimei`),
/// whose body is `name.replace('-', "_")`: the contract states exactly that.
#[verifier::external_body]
pub(crate) fn to_snake_case(name: &str) -> (res: String)
    ensures
        res@ == snake_case(name@),
{
    iac_forge::naming::to_snake_case(name)
}

/// Calls `iac_forge::naming::to_pascal_case` (re-exported from `meimei`),
/// which splits the name on `-` and `_`, drops empty words, uppercases the
/// first character of every word with std's `char::to_uppercase` and
/// concatenates: the contract states that, with the Unicode uppercase
/// mapping of non-ASCII characters left as a name.
#[verifier::external_body]
pub(crate) fn to_pascal_case(name: &str) -> (res: String)
    ensures
        res@ == pascal_words(name@, true, |c: char| uppercase_mapping(c)),
{
    iac_forge::naming::to_pascal_case(name)
}

/// Calls std's `char::to_lowercase` and collects its characters.  The
/// contract names the result, and states what the documentation gives:
/// the mapping yields at least one character, an ASCII capital maps to its
/// small letter, and any other ASCII character maps to itself.
#[verifier::external_body]
pub(crate) fn char_to_lowercase(c: char) -> (res: String)
    ensures
        res@ == lowercase_mapping(c),
        res@.len() >= 1,
        (c as u32) < 128 ==> res@ == seq![ascii_lower(c)],
{
    c.to_lowercase().collect()
}

/// The text with its first character lowercased and the rest unchanged.
pub open spec fn lowercase_first_spec(s: Seq<char>) -> Seq<char> {
    if s.len() == 0 {
        Seq::empty()
    } else {
        lowercase_mapping(s[0]) + s.skip(1)
    }
}

/// Lowercase the first character of a string.
pub fn lowercase_first(s: &str) -> (res: String)
    ensures
        res@ == lowercase_first_spec(s@),
        s@.len() > 0 && (s@[0] as u32) < 128 ==> res@ == seq![ascii_lower(s@[0])] + s@.skip(1),
{
    let n = s.unicode_len();
    if n == 0 {
        String::new()
    } else {
        let c = s.get_char(0);
        let mut out = char_to_lowercase(c);
        out.append(s.substring_char(1, n));
        out
    }
}

/// `snake_case` distributes over concatenation.
pub proof fn lemma_snake_case_concat(a: Seq<char>, b: Seq<char>)
    ensures
        snake_case(a + b) == snake_case(a) + snake_case(b),
{
    assert(snake_case(a + b) =~= snake_case(a) + snake_case(b));
}

/// `snake_case` is idempotent, and leaves a name without hyphens unchanged.
pub proof fn lemma_snake_case_idempotent(name: Seq<char>)
    ensures
        snake_case(snake_case(name)) == snake_case(name),
        (forall|i: int| 0 <= i < name.len() ==> name[i] != '-') ==> snake_case(name) == name,
{
    assert(snake_case(snake_case(name)) =~= snake_case(name));
    if forall|i: int| 0 <= i < name.len() ==> name[i] != '-' {
        assert(snake_case(name) =~= name);
    }
}

} // verus!
