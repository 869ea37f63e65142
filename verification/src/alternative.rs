//! Direction of the alternative hypothesis of a test.

use vstd::prelude::*;
use vstd::utf8::is_ascii_chars;
use vstd::string::{StrSliceExecFns, StringExecFns};

verus! {

/// Direction of the alternative hypothesis.
#[derive(Debug, Clone, Copy, PartialEq, Eq, Hash, Structural)]
pub enum Alternative {
    /// H₁: parameter ≠ null value (default).
    TwoSided,
    /// H₁: parameter < null value.
    Less,
    /// H₁: parameter > null value.
    Greater,
}

impl Default for Alternative {
    fn default() -> (alt: Self)
        ensures
            alt == Alternative::TwoSided,
    {
        Alternative::TwoSided
    }
}

/// Lower-case form of a string, as `str::to_lowercase` computes it
/// (Unicode lower-casing, which may change the number of characters).
pub uninterp spec fn lowercase_of(s: Seq<char>) -> Seq<char>;

/// ASCII lower-casing of one character: `A`–`Z` become `a`–`z`, every other
/// character is kept.
pub open spec fn ascii_lower_char(c: char) -> char {
    if 'A' <= c <= 'Z' {
        ((c as u32) + 32) as char
    } else {
        c
    }
}

/// ASCII upper-casing of one character: `a`–`z` become `A`–`Z`, every other
/// character is kept.
pub open spec fn ascii_upper_char(c: char) -> char {
    if 'a' <= c <= 'z' {
        ((c as u32) - 32) as char
    } else {
        c
    }
}

/// ASCII lower-casing of a string, character by character.
pub open spec fn ascii_lowercase(s: Seq<char>) -> Seq<char> {
    s.map_values(|c: char| ascii_lower_char(c))
}

/// ASCII upper-casing of a string, character by character.
pub open spec fn ascii_uppercase(s: Seq<char>) -> Seq<char> {
    s.map_values(|c: char| ascii_upper_char(c))
}

/// `str::to_lowercase`.
///
/// Claimed: the result is the lower-case form of the input and depends on
/// nothing else; for an all-ASCII input that form maps `A`–`Z` to `a`–`z`
/// and keeps every other character. What the form is for other inputs
/// (full Unicode lower-casing) is left unsaid.
#[verifier::external_body]
fn to_lowercase(s: &str) -> (lower: String)
    ensures
        lower@ == lowercase_of(s@),
        is_ascii_chars(s@) ==> lower@ == ascii_lowercase(s@),
{
    s.to_lowercase()
}

/// Each `-` replaced by `_`, every other character kept.
pub open spec fn dashes_to_underscores(s: Seq<char>) -> Seq<char> {
    s.map_values(|c: char| if c == '-' { '_' } else { c })
}

/// Each `-` replaced by `_`, every other character kept in place.
fn replace_dashes(s: &str) -> (r: String)
    ensures
        r@ == dashes_to_underscores(s@),
{
    let n = s.unicode_len();
    let mut r = String::new();
    let mut i: usize = 0;
    while i < n
        invariant
            n == s@.len(),
            i <= n,
            r@ == dashes_to_underscores(s@.subrange(0, i as int)),
        decreases n - i,
    {
        let ghost before = r@;
        if s.get_char(i) == '-' {
            r.append("_");
            proof {
                reveal_strlit("_");
            }
        } else {
            r.append(s.substring_char(i, i + 1));
        }
        assert(s@.subrange(0, i + 1) =~= s@.subrange(0, i as int).push(s@[i as int]));
        assert(r@ =~= dashes_to_underscores(s@.subrange(0, i + 1)));
        i = i + 1;
    }
    assert(s@.subrange(0, n as int) =~= s@);
    r
}

/// The alternative that a normalized (lower-case, `_`-separated) name denotes.
pub open spec fn named_alternative(name: Seq<char>) -> Option<Alternative> {
    if name == "two_sided"@ || name == "twosided"@ || name == "two"@ {
        Some(Alternative::TwoSided)
    } else if name == "less"@ || name == "left"@ || name == "lower"@ {
        Some(Alternative::Less)
    } else if name == "greater"@ || name == "right"@ || name == "upper"@ {
        Some(Alternative::Greater)
    } else {
        None
    }
}

/// The message that rejects the normalized name `name`.
pub open spec fn unknown_alternative_text(name: Seq<char>) -> Seq<char> {
    "Unknown alternative '"@ + name + "'. Use 'two-sided', 'less', or 'greater'."@
}

/// What parsing the normalized name `name` gives.
pub open spec fn parse_normalized(name: Seq<char>) -> Result<Alternative, Seq<char>> {
    match named_alternative(name) {
        Some(alt) => Ok(alt),
        None => Err(unknown_alternative_text(name)),
    }
}

/// The normalized form of a user-supplied name: lower-cased, then `-` → `_`.
pub open spec fn normalized(s: Seq<char>) -> Seq<char> {
    dashes_to_underscores(lowercase_of(s))
}

/// The normalized form of an all-ASCII name: ASCII lower-cased, then
/// `-` → `_`.
pub open spec fn ascii_normalized(s: Seq<char>) -> Seq<char> {
    dashes_to_underscores(ascii_lowercase(s))
}

/// Whether two strings hold the same characters.
fn same_chars(a: &str, b: &str) -> (same: bool)
    ensures
        same == (a@ == b@),
{
    let n = a.unicode_len();
    if n != b.unicode_len() {
        return false;
    }
    let mut i: usize = 0;
    while i < n
        invariant
            n == a@.len(),
            n == b@.len(),
            i <= n,
            forall|j: int| 0 <= j < i ==> a@[j] == b@[j],
        decreases n - i,
    {
        if a.get_char(i) != b.get_char(i) {
            return false;
        }
        i = i + 1;
    }
    assert(a@ =~= b@);
    true
}

/// The `Ok`/`Err` result of parsing, viewed as characters.
pub open spec fn parse_view(r: Result<Alternative, String>) -> Result<Alternative, Seq<char>> {
    match r {
        Ok(alt) => Ok(alt),
        Err(m) => Err(m@),
    }
}

impl Alternative {
    /// Parse a name that is already lower-case and `_`-separated, such as
    /// `"two_sided"`, `"less"` or `"upper"`.
    ///
    /// # Errors
    /// Returns a message naming `name` if it denotes no alternative.
    pub fn from_normalized(name: &str) -> (r: Result<Self, String>)
        ensures
            parse_view(r) == parse_normalized(name@),
    {
        if same_chars(name, "two_sided") || same_chars(name, "twosided") || same_chars(
            name,
            "two",
        ) {
            Ok(Alternative::TwoSided)
        } else if same_chars(name, "less") || same_chars(name, "left") || same_chars(
            name,
            "lower",
        ) {
            Ok(Alternative::Less)
        } else if same_chars(name, "greater") || same_chars(name, "right") || same_chars(
            name,
            "upper",
        ) {
            Ok(Alternative::Greater)
        } else {
            let mut msg = "Unknown alternative '".to_owned();
            msg.append(name);
            msg.append("'. Use 'two-sided', 'less', or 'greater'.");
            Err(msg)
        }
    }

    /// Parse from a string, accepting both formats ("two-sided" and
    /// "two_sided") in any letter case.
    ///
    /// # Errors
    /// Returns an error string if the value is unrecognised.
    pub fn from_str(s: &str) -> (r: Result<Self, String>)
        ensures
            parse_view(r) == parse_normalized(normalized(s@)),
            is_ascii_chars(s@) ==> parse_view(r) == parse_normalized(ascii_normalized(s@)),
    {
        let lower = to_lowercase(s);
        let name = replace_dashes(lower.as_str());
        Alternative::from_normalized(name.as_str())
    }
}

} // verus!

verus! {

/// Two lower-cased names that differ only in writing `-` where the other
/// writes `_` (or the reverse).
pub open spec fn same_up_to_separator(a: Seq<char>, b: Seq<char>) -> bool {
    &&& a.len() == b.len()
    &&& forall|i: int|
        0 <= i < a.len() ==> a[i] == b[i] || ((a[i] == '-' || a[i] == '_') && (b[i] == '-' || b[i]
            == '_'))
}

/// Hyphen and underscore spellings are interchangeable: two inputs whose
/// lower-case forms differ only in `-` versus `_` parse to the same result
/// (so "two-sided" and "two_sided" denote the same alternative).
pub proof fn law_separator_spellings_agree(s1: Seq<char>, s2: Seq<char>)
    requires
        same_up_to_separator(lowercase_of(s1), lowercase_of(s2)),
    ensures
        parse_normalized(normalized(s1)) == parse_normalized(normalized(s2)),
{
    assert(normalized(s1) =~= normalized(s2));
}

} // verus!

verus! {

/// Each `_` replaced by `-`, every other character kept.
pub open spec fn underscores_to_dashes(s: Seq<char>) -> Seq<char> {
    s.map_values(|c: char| if c == '_' { '-' } else { c })
}

/// Parsing an all-ASCII name ignores letter case and treats `-` and `_` as
/// the same separator: upper-casing the name, or writing every `_` as `-`,
/// keeps it ASCII and leaves the parse result unchanged.
pub proof fn law_ascii_case_and_separators_ignored(s: Seq<char>)
    requires
        is_ascii_chars(s),
    ensures
        is_ascii_chars(ascii_uppercase(s)),
        is_ascii_chars(underscores_to_dashes(s)),
        parse_normalized(ascii_normalized(ascii_uppercase(s))) == parse_normalized(
            ascii_normalized(s),
        ),
        parse_normalized(ascii_normalized(underscores_to_dashes(s))) == parse_normalized(
            ascii_normalized(s),
        ),
{
    assert forall|i: int| 0 <= i < s.len() implies '\0' <= #[trigger] ascii_uppercase(s)[i]
        <= '\u{7f}' && ascii_lower_char(ascii_uppercase(s)[i]) == ascii_lower_char(s[i]) by {
        let c = s[i];
        if 'a' <= c <= 'z' {
            assert((((c as u32) - 32) as char) as u32 == (c as u32) - 32);
        }
    }
    assert forall|i: int| 0 <= i < s.len() implies '\0' <= #[trigger] underscores_to_dashes(s)[i]
        <= '\u{7f}' by {}
    assert(ascii_normalized(ascii_uppercase(s)) =~= ascii_normalized(s));
    assert forall|i: int| 0 <= i < s.len() implies #[trigger] ascii_normalized(
        underscores_to_dashes(s),
    )[i] == ascii_normalized(s)[i] by {
        let c = s[i];
        if 'A' <= c <= 'Z' {
            assert((((c as u32) + 32) as char) as u32 == (c as u32) + 32);
        }
    }
    assert(ascii_normalized(underscores_to_dashes(s)) =~= ascii_normalized(s));
}

/// The names that denote each alternative, once lower-cased and
/// `_`-separated, are exactly these nine: `two_sided`, `twosided` and `two`
/// for the two-sided test; `less`, `left` and `lower` for the lower tail;
/// `greater`, `right` and `upper` for the upper tail. Every other name is
/// rejected with the message that quotes it.
pub proof fn law_accepted_names(name: Seq<char>)
    ensures
        parse_normalized(name) == Ok::<Alternative, Seq<char>>(Alternative::TwoSided) <==> (name
            == seq!['t', 'w', 'o', '_', 's', 'i', 'd', 'e', 'd'] || name == seq![
            't',
            'w',
            'o',
            's',
            'i',
            'd',
            'e',
            'd',
        ] || name == seq!['t', 'w', 'o']),
        parse_normalized(name) == Ok::<Alternative, Seq<char>>(Alternative::Less) <==> (name
            == seq!['l', 'e', 's', 's'] || name == seq!['l', 'e', 'f', 't'] || name == seq![
            'l',
            'o',
            'w',
            'e',
            'r',
        ]),
        parse_normalized(name) == Ok::<Alternative, Seq<char>>(Alternative::Greater) <==> (name
            == seq!['g', 'r', 'e', 'a', 't', 'e', 'r'] || name == seq!['r', 'i', 'g', 'h', 't']
            || name == seq!['u', 'p', 'p', 'e', 'r']),
        parse_normalized(name) is Err ==> parse_normalized(name) == Err::<Alternative, Seq<char>>(
            unknown_alternative_text(name),
        ),
{
    broadcast use vstd::string::group_string_axioms;

    reveal_strlit("two_sided");
    reveal_strlit("twosided");
    reveal_strlit("two");
    reveal_strlit("less");
    reveal_strlit("left");
    reveal_strlit("lower");
    reveal_strlit("greater");
    reveal_strlit("right");
    reveal_strlit("upper");
    assert("two_sided"@ =~= seq!['t', 'w', 'o', '_', 's', 'i', 'd', 'e', 'd']);
    assert("twosided"@ =~= seq!['t', 'w', 'o', 's', 'i', 'd', 'e', 'd']);
    assert("two"@ =~= seq!['t', 'w', 'o']);
    assert("less"@ =~= seq!['l', 'e', 's', 's']);
    assert("left"@ =~= seq!['l', 'e', 'f', 't']);
    assert("lower"@ =~= seq!['l', 'o', 'w', 'e', 'r']);
    assert("greater"@ =~= seq!['g', 'r', 'e', 'a', 't', 'e', 'r']);
    assert("right"@ =~= seq!['r', 'i', 'g', 'h', 't']);
    assert("upper"@ =~= seq!['u', 'p', 'p', 'e', 'r']);
}

/// `s` spells `name` when read with ASCII letter case ignored and `-`
/// accepted where `name` has `_`: position by position, `s` has the same
/// character, or `-` for `_`, or the upper-case letter for a lower-case one.
pub open spec fn spells(s: Seq<char>, name: Seq<char>) -> bool {
    &&& s.len() == name.len()
    &&& forall|i: int|
        0 <= i < s.len() ==> #[trigger] s[i] == name[i] || (name[i] == '_' && s[i] == '-') || (
        'a' <= name[i] <= 'z' && s[i] as int == name[i] as int - 32)
}

/// A name made of lower-case ASCII letters and `_` only.
pub open spec fn plain_name(name: Seq<char>) -> bool {
    forall|i: int| 0 <= i < name.len() ==> ('a' <= #[trigger] name[i] <= 'z' || name[i] == '_')
}

/// For a plain name, normalizing `s` gives the name exactly when `s` spells it.
proof fn lemma_normalized_is_spelling(s: Seq<char>, name: Seq<char>)
    requires
        plain_name(name),
    ensures
        ascii_normalized(s) == name <==> spells(s, name),
{
    if ascii_normalized(s) == name {
        assert forall|i: int| 0 <= i < s.len() implies #[trigger] s[i] == name[i] || (name[i]
            == '_' && s[i] == '-') || ('a' <= name[i] <= 'z' && s[i] as int == name[i] as int
            - 32) by {
            assert(ascii_normalized(s)[i] == name[i]);
            let c = s[i];
            if 'A' <= c <= 'Z' {
                assert((((c as u32) + 32) as char) as u32 == (c as u32) + 32);
            }
        }
    }
    if spells(s, name) {
        assert forall|i: int| 0 <= i < s.len() implies #[trigger] ascii_normalized(s)[i]
            == name[i] by {
            let c = s[i];
            assert(s[i] == name[i] || (name[i] == '_' && s[i] == '-') || ('a' <= name[i] <= 'z'
                && s[i] as int == name[i] as int - 32));
            assert('a' <= name[i] <= 'z' || name[i] == '_');
            if 'A' <= c <= 'Z' {
                assert((((c as u32) + 32) as char) as u32 == (c as u32) + 32);
            }
        }
        assert(ascii_normalized(s) =~= name);
    }
}

/// Parsing reads names up to ASCII letter case and `-`/`_`: the parse of
/// `s` is the two-sided test exactly when `s` spells `two_sided`,
/// `twosided` or `two`; the lower tail exactly when it spells `less`,
/// `left` or `lower`; the upper tail exactly when it spells `greater`,
/// `right` or `upper` (so `TWO-SIDED` and `Left` are accepted, `one-sided`
/// and `lesser` are not).
pub proof fn law_names_read_up_to_case_and_separator(s: Seq<char>)
    ensures
        parse_normalized(ascii_normalized(s)) == Ok::<Alternative, Seq<char>>(
            Alternative::TwoSided,
        ) <==> (spells(s, seq!['t', 'w', 'o', '_', 's', 'i', 'd', 'e', 'd']) || spells(
            s,
            seq!['t', 'w', 'o', 's', 'i', 'd', 'e', 'd'],
        ) || spells(s, seq!['t', 'w', 'o'])),
        parse_normalized(ascii_normalized(s)) == Ok::<Alternative, Seq<char>>(Alternative::Less)
            <==> (spells(s, seq!['l', 'e', 's', 's']) || spells(s, seq!['l', 'e', 'f', 't'])
            || spells(s, seq!['l', 'o', 'w', 'e', 'r'])),
        parse_normalized(ascii_normalized(s)) == Ok::<Alternative, Seq<char>>(
            Alternative::Greater,
        ) <==> (spells(s, seq!['g', 'r', 'e', 'a', 't', 'e', 'r']) || spells(
            s,
            seq!['r', 'i', 'g', 'h', 't'],
        ) || spells(s, seq!['u', 'p', 'p', 'e', 'r'])),
{
    law_accepted_names(ascii_normalized(s));
    let names = seq![
        seq!['t', 'w', 'o', '_', 's', 'i', 'd', 'e', 'd'],
        seq!['t', 'w', 'o', 's', 'i', 'd', 'e', 'd'],
        seq!['t', 'w', 'o'],
        seq!['l', 'e', 's', 's'],
        seq!['l', 'e', 'f', 't'],
        seq!['l', 'o', 'w', 'e', 'r'],
        seq!['g', 'r', 'e', 'a', 't', 'e', 'r'],
        seq!['r', 'i', 'g', 'h', 't'],
        seq!['u', 'p', 'p', 'e', 'r'],
    ];
    assert forall|k: int| 0 <= k < names.len() implies plain_name(#[trigger] names[k]) by {
        assert forall|i: int| 0 <= i < names[k].len() implies ('a' <= #[trigger] names[k][i] <= 'z'
            || names[k][i] == '_') by {}
    }
    lemma_normalized_is_spelling(s, names[0]);
    lemma_normalized_is_spelling(s, names[1]);
    lemma_normalized_is_spelling(s, names[2]);
    lemma_normalized_is_spelling(s, names[3]);
    lemma_normalized_is_spelling(s, names[4]);
    lemma_normalized_is_spelling(s, names[5]);
    lemma_normalized_is_spelling(s, names[6]);
    lemma_normalized_is_spelling(s, names[7]);
    lemma_normalized_is_spelling(s, names[8]);
}

} // verus!
