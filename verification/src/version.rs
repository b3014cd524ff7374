//! Versions of the framework, and the lowest one that is supported.

use vstd::prelude::*;

use crate::text::{decimal, trim_leading, without_leading};

verus! {

/// The lowest version of the framework that is supported.
pub const MIN_MAAFW_VERSION: &'static str = "5.5.0-beta.1";

/// The text of a release.
pub open spec fn release_text(major: nat, minor: nat, patch: nat) -> Seq<char> {
    decimal(major) + "."@ + decimal(minor) + "."@ + decimal(patch)
}

/// The text of a numbered pre-release, such as the first beta.
pub open spec fn prerelease_text(
    major: nat,
    minor: nat,
    patch: nat,
    word: Seq<char>,
    number: nat,
) -> Seq<char> {
    word_text(major, minor, patch, word) + "."@ + decimal(number)
}

/// Whether a text is made of small letters, at least one.
pub open spec fn is_word(text: Seq<char>) -> bool {
    text.len() > 0 && forall|i: int| 0 <= i < text.len() ==> 'a' <= #[trigger] text[i] <= 'z'
}

/// Whether a version is a release.
pub open spec fn is_release(text: Seq<char>) -> bool {
    exists|a: u64, b: u64, c: u64| text == #[trigger] release_text(a as nat, b as nat, c as nat)
}

/// The text of a pre-release that is a word alone.
pub open spec fn word_text(major: nat, minor: nat, patch: nat, word: Seq<char>) -> Seq<char> {
    release_text(major, minor, patch) + "-"@ + word
}

/// Whether a version is a pre-release of a word, with or without a number.
pub open spec fn is_prerelease(text: Seq<char>) -> bool {
    ||| exists|a: u64, b: u64, c: u64, word: Seq<char>|
        is_word(word) && text == #[trigger] word_text(a as nat, b as nat, c as nat, word)
    ||| exists|a: u64, b: u64, c: u64, word: Seq<char>, n: nat|
        is_word(word) && text == #[trigger] prerelease_text(a as nat, b as nat, c as nat, word, n)
}

/// Whether the three numbers of a version are these.
pub open spec fn has_numbers(text: Seq<char>, major: nat, minor: nat, patch: nat) -> bool {
    let release = release_text(major, minor, patch);
    release.is_prefix_of(text) && (text.len() > release.len() ==> (text[release.len() as int] == '-'
        || text[release.len() as int] == '+'))
}

/// Whether the first three numbers are those of a later version.
pub open spec fn later(a: nat, b: nat, c: nat, x: nat, y: nat, z: nat) -> bool {
    a > x || (a == x && (b > y || (b == y && c > z)))
}

/// Whether a version with these numbers is a pre-release.
pub open spec fn has_dash(text: Seq<char>, major: nat, minor: nat, patch: nat) -> bool {
    let release = release_text(major, minor, patch);
    text.len() > release.len() && text[release.len() as int] == '-'
}

/// Whether a version is a pre-release of these numbers whose first part is
/// this word.
pub open spec fn has_word(
    text: Seq<char>,
    major: nat,
    minor: nat,
    patch: nat,
    word: Seq<char>,
) -> bool {
    let start = word_text(major, minor, patch, word);
    is_word(word) && start.is_prefix_of(text) && (text.len() > start.len() ==> (
    text[start.len() as int] == '.' || text[start.len() as int] == '+'))
}

/// Whether a text comes after another in the order of a dictionary.
pub open spec fn comes_after(text: Seq<char>, other: Seq<char>) -> bool
    decreases text.len(),
{
    if text.len() == 0 {
        false
    } else if other.len() == 0 {
        true
    } else if text[0] != other[0] {
        text[0] > other[0]
    } else {
        comes_after(text.skip(1), other.skip(1))
    }
}

/// What the order of versions settles of two texts, where `at_least` says
/// that the first is no earlier than the second: equal texts are equal
/// versions, the numbers decide first, a release comes after its
/// pre-releases, those go by their word, and those of one word by their
/// number, one without a number first.
pub open spec fn order_settled(v: Seq<char>, w: Seq<char>, at_least: bool) -> bool {
    &&& v == w ==> at_least
    &&& forall|a: nat, b: nat, c: nat, x: nat, y: nat, z: nat|
        #![trigger has_numbers(v, a, b, c), has_numbers(w, x, y, z)]
        has_numbers(v, a, b, c) && has_numbers(w, x, y, z) ==> {
            &&& later(a, b, c, x, y, z) ==> at_least
            &&& later(x, y, z, a, b, c) ==> !at_least
        }
    &&& forall|a: nat, b: nat, c: nat|
        #![trigger has_numbers(v, a, b, c), has_numbers(w, a, b, c)]
        has_numbers(v, a, b, c) && has_numbers(w, a, b, c) ==> {
            &&& !has_dash(v, a, b, c) && has_dash(w, a, b, c) ==> at_least
            &&& has_dash(v, a, b, c) && !has_dash(w, a, b, c) ==> !at_least
        }
    &&& forall|a: nat, b: nat, c: nat, word: Seq<char>, other: Seq<char>|
        #![trigger has_word(v, a, b, c, word), has_word(w, a, b, c, other)]
        has_word(v, a, b, c, word) && has_word(w, a, b, c, other) && word != other ==> at_least
            == comes_after(word, other)
    &&& forall|a: nat, b: nat, c: nat, word: Seq<char>, n: nat|
        #![trigger prerelease_text(a, b, c, word, n)]
        is_word(word) ==> {
            &&& v == prerelease_text(a, b, c, word, n) && w == word_text(a, b, c, word) ==> at_least
            &&& v == word_text(a, b, c, word) && w == prerelease_text(a, b, c, word, n)
                ==> !at_least
        }
    &&& forall|a: nat, b: nat, c: nat, word: Seq<char>, n: nat, m: nat|
        #![trigger prerelease_text(a, b, c, word, n), prerelease_text(a, b, c, word, m)]
        is_word(word) && v == prerelease_text(a, b, c, word, n) && w == prerelease_text(
            a,
            b,
            c,
            word,
            m,
        ) ==> at_least == (n >= m)
}

/// Whether a text begins with a digit.
pub open spec fn begins_with_digit(text: Seq<char>) -> bool {
    text.len() > 0 && '0' <= text[0] <= '9'
}

#[verifier::external_type_specification]
#[verifier::external_body]
pub struct ExVersion(semver::Version);

/// The text of a version, as its `Display` writes it.
pub uninterp spec fn version_text(version: semver::Version) -> Seq<char>;

/// What `Version::parse` says of a text: that it is a version, or the words
/// of its error.
pub uninterp spec fn version_parse(text: Seq<char>) -> Result<(), Seq<char>>;

/// What `>=` says of the versions that two texts write.
pub uninterp spec fn version_at_least(v: Seq<char>, w: Seq<char>) -> bool;

/// Whether a text is a version. Every version begins with a digit.
pub open spec fn is_version(text: Seq<char>) -> bool {
    begins_with_digit(text) && version_parse(text) is Ok
}

/// What the order of versions passes on: a version that is no earlier than
/// `v` is no earlier than `w` either.
pub open spec fn passes_on(v: Seq<char>, w: Seq<char>) -> bool {
    forall|u: Seq<char>|
        is_version(u) && #[trigger] version_at_least(u, v) ==> version_at_least(u, w)
}

/// `semver::Version::parse`. Which texts are versions, and what the error
/// says of the others, is a function of the text; of the texts that are
/// versions only releases and pre-releases of a word, with or without a
/// number, are described, and of those that are none the ones that do not
/// begin with a digit. A version
/// that was parsed has the text it was parsed from.
#[verifier::external_body]
fn parse_version(text: &str) -> (parsed: Result<semver::Version, String>)
    ensures
        match parsed {
            Ok(version) => version_parse(text@) == Ok::<(), Seq<char>>(()) && version_text(version)
                == text@,
            Err(e) => version_parse(text@) == Err::<(), Seq<char>>(e@),
        },
        is_release(text@) ==> parsed is Ok,
        is_prerelease(text@) ==> parsed is Ok,
        parsed is Ok ==> begins_with_digit(text@),
{
    match semver::Version::parse(text) {
        Ok(version) => Ok(version),
        Err(e) => Err(e.to_string()),
    }
}

/// `>=` on `semver::Version`: a function of the two texts, of which
/// [`order_settled`] says what it is on the common ones. The order is total,
/// so what is no earlier than the one is no earlier than the other, where the
/// one is no earlier than the other.
#[verifier::external_body]
fn is_at_least(version: &semver::Version, minimum: &semver::Version) -> (at_least: bool)
    ensures
        at_least == version_at_least(version_text(*version), version_text(*minimum)),
        order_settled(version_text(*version), version_text(*minimum), at_least),
        at_least ==> passes_on(version_text(*version), version_text(*minimum)),
{
    version >= minimum
}

/// The outcome of a version check.
#[derive(Debug, PartialEq, Eq)]
pub struct VersionCheckResult {
    pub current: String,
    pub minimum: String,
    pub is_compatible: bool,
}

/// Whether a version, written with or without a leading `v`, is no earlier
/// than the minimum. A text that is no version is not compatible.
pub open spec fn is_compatible(current: Seq<char>, minimum: Seq<char>) -> bool {
    let current = without_leading(current, 'v');
    is_version(current) && version_at_least(current, without_leading(minimum, 'v'))
}

/// What is said of a minimum that is no version.
pub open spec fn bad_minimum(minimum: Seq<char>) -> Seq<char> {
    "Failed to parse minimum version '"@ + minimum + "': "@ + version_parse(minimum)->Err_0
}

/// Checks a version against a minimum.
pub fn check_version(current: String, minimum: &str) -> (result: Result<VersionCheckResult, String>)
    ensures
        match result {
            Ok(check) => {
                let current_clean = without_leading(current@, 'v');
                let min_clean = without_leading(minimum@, 'v');
                &&& is_version(min_clean)
                &&& check.current@ == current@
                &&& check.minimum@ == "v"@ + minimum@
                &&& check.is_compatible == is_compatible(current@, minimum@)
                &&& is_version(current_clean) ==> order_settled(
                    current_clean,
                    min_clean,
                    check.is_compatible,
                )
                &&& check.is_compatible ==> passes_on(current_clean, min_clean)
                &&& is_release(current_clean) || is_prerelease(current_clean) ==> is_version(
                    current_clean,
                )
            },
            Err(e) => {
                let min_clean = without_leading(minimum@, 'v');
                &&& !is_version(min_clean)
                &&& !is_release(min_clean) && !is_prerelease(min_clean)
                &&& e@ == bad_minimum(min_clean)
            },
        },
{
    let min_clean = trim_leading(minimum, 'v');
    match parse_version(min_clean) {
        Ok(required) => {
            let is_compatible = match parse_version(trim_leading(current.as_str(), 'v')) {
                Ok(version) => is_at_least(&version, &required),
                Err(_) => false,
            };
            Ok(
                VersionCheckResult {
                    current,
                    minimum: "v".to_string().concat(minimum),
                    is_compatible,
                },
            )
        },
        Err(e) => Err(
            "Failed to parse minimum version '".to_string().concat(min_clean).concat("': ").concat(
                e.as_str(),
            ),
        ),
    }
}

/// The minimum is the first beta of 5.5.0, and is written without a `v`.
pub proof fn lemma_minimum()
    ensures
        without_leading(MIN_MAAFW_VERSION@, 'v') == MIN_MAAFW_VERSION@,
        MIN_MAAFW_VERSION@ == prerelease_text(5, 5, 0, "beta"@, 1),
        has_numbers(MIN_MAAFW_VERSION@, 5, 5, 0),
        has_dash(MIN_MAAFW_VERSION@, 5, 5, 0),
        has_word(MIN_MAAFW_VERSION@, 5, 5, 0, "beta"@),
        is_prerelease(MIN_MAAFW_VERSION@),
{
    reveal_strlit("5.5.0-beta.1");
    reveal_strlit(".");
    reveal_strlit("-");
    reveal_strlit("beta");
    assert(decimal(5) =~= seq!['5']);
    assert(decimal(0) =~= seq!['0']);
    assert(decimal(1) =~= seq!['1']);
    assert(release_text(5, 5, 0) =~= seq!['5', '.', '5', '.', '0']);
    assert(MIN_MAAFW_VERSION@ =~= prerelease_text(5, 5, 0, "beta"@, 1));
    assert(is_word("beta"@));
    lemma_prerelease(5, 5, 0, "beta"@, 1);
    assert(MIN_MAAFW_VERSION@ == prerelease_text(5u64 as nat, 5u64 as nat, 0u64 as nat, "beta"@, 1));
}

/// What a numbered pre-release is made of.
proof fn lemma_prerelease(a: nat, b: nat, c: nat, word: Seq<char>, n: nat)
    requires
        is_word(word),
    ensures
        has_numbers(prerelease_text(a, b, c, word, n), a, b, c),
        has_dash(prerelease_text(a, b, c, word, n), a, b, c),
        has_word(prerelease_text(a, b, c, word, n), a, b, c, word),
{
    reveal_strlit("-");
    reveal_strlit(".");
}

/// What a pre-release of a word alone is made of.
proof fn lemma_word_text(a: nat, b: nat, c: nat, word: Seq<char>)
    requires
        is_word(word),
    ensures
        has_numbers(word_text(a, b, c, word), a, b, c),
        has_dash(word_text(a, b, c, word), a, b, c),
        has_word(word_text(a, b, c, word), a, b, c, word),
{
    reveal_strlit("-");
}

/// Whether a pre-release of these numbers and this word is no earlier than
/// the lowest version that is supported, where `numbered` says so of a
/// pre-release of the same word.
pub open spec fn is_supported(a: nat, b: nat, c: nat, word: Seq<char>, numbered: bool) -> bool {
    if a == 5 && b == 5 && c == 0 {
        comes_after(word, "beta"@) || (word == "beta"@ && numbered)
    } else {
        later(a, b, c, 5, 5, 0)
    }
}

/// What a check of a version finds: releases and pre-releases by their
/// numbers and words, all others as the order of versions has it, and a
/// version that is no earlier than a compatible one compatible, too.
pub open spec fn is_check_of(check: VersionCheckResult, version: Seq<char>) -> bool {
    let clean = without_leading(version, 'v');
    &&& check.current@ == version
    &&& check.minimum@ == "v"@ + MIN_MAAFW_VERSION@
    &&& check.is_compatible == is_compatible(version, MIN_MAAFW_VERSION@)
    &&& is_version(clean) ==> order_settled(clean, MIN_MAAFW_VERSION@, check.is_compatible)
    &&& is_release(clean) || is_prerelease(clean) ==> is_version(clean)
    &&& check.is_compatible ==> passes_on(clean, MIN_MAAFW_VERSION@)
    &&& forall|a: u64, b: u64, c: u64|
        clean == #[trigger] release_text(a as nat, b as nat, c as nat) ==> check.is_compatible
            == !later(5, 5, 0, a as nat, b as nat, c as nat)
    &&& forall|a: u64, b: u64, c: u64, word: Seq<char>|
        is_word(word) && clean == #[trigger] word_text(a as nat, b as nat, c as nat, word)
            ==> check.is_compatible == is_supported(a as nat, b as nat, c as nat, word, false)
    &&& forall|a: u64, b: u64, c: u64, word: Seq<char>, n: nat|
        is_word(word) && clean == #[trigger] prerelease_text(
            a as nat,
            b as nat,
            c as nat,
            word,
            n,
        ) ==> check.is_compatible == is_supported(a as nat, b as nat, c as nat, word, n >= 1)
}

proof fn lemma_not_after_itself(text: Seq<char>)
    ensures
        !comes_after(text, text),
    decreases text.len(),
{
    if text.len() > 0 {
        lemma_not_after_itself(text.skip(1));
    }
}

/// What the order of versions settles of a release against the minimum.
proof fn lemma_release_supported(clean: Seq<char>, at_least: bool, a: nat, b: nat, c: nat)
    requires
        order_settled(clean, MIN_MAAFW_VERSION@, at_least),
        clean == release_text(a, b, c),
    ensures
        at_least == !later(5, 5, 0, a, b, c),
{
    lemma_minimum();
    assert(has_numbers(clean, a, b, c));
    assert(!has_dash(clean, a, b, c));
}

/// What the order of versions settles of a pre-release against the minimum.
proof fn lemma_prerelease_supported(
    clean: Seq<char>,
    at_least: bool,
    a: nat,
    b: nat,
    c: nat,
    word: Seq<char>,
    n: Option<nat>,
)
    requires
        order_settled(clean, MIN_MAAFW_VERSION@, at_least),
        is_word(word),
        clean == (match n {
            Some(n) => prerelease_text(a, b, c, word, n),
            None => word_text(a, b, c, word),
        }),
    ensures
        at_least == is_supported(a, b, c, word, n matches Some(n) && n >= 1),
{
    lemma_minimum();
    match n {
        Some(n) => lemma_prerelease(a, b, c, word, n),
        None => lemma_word_text(a, b, c, word),
    }
    lemma_not_after_itself(word);
    assert(has_numbers(clean, a, b, c));
    assert(has_word(clean, a, b, c, word));
}

/// Checks a version of the framework against the lowest that is supported.
///
/// The check itself always succeeds. A release is compatible from 5.5.0 on,
/// and a pre-release of 5.5.0 from the first beta on.
pub fn check_supported(current: String) -> (result: Result<VersionCheckResult, String>)
    ensures
        match result {
            Ok(check) => is_check_of(check, current@),
            Err(_) => false,
        },
{
    proof {
        lemma_minimum();
    }
    let ghost clean = without_leading(current@, 'v');
    let result = check_version(current, MIN_MAAFW_VERSION);
    proof {
        let compatible = result->Ok_0.is_compatible;
        assert forall|a: u64, b: u64, c: u64|
            clean == #[trigger] release_text(a as nat, b as nat, c as nat) implies compatible
            == !later(5, 5, 0, a as nat, b as nat, c as nat) by {
            lemma_release_supported(clean, compatible, a as nat, b as nat, c as nat);
        }
        assert forall|a: u64, b: u64, c: u64, word: Seq<char>|
            is_word(word) && clean == #[trigger] word_text(
                a as nat,
                b as nat,
                c as nat,
                word,
            ) implies compatible == is_supported(a as nat, b as nat, c as nat, word, false) by {
            lemma_prerelease_supported(
                clean,
                compatible,
                a as nat,
                b as nat,
                c as nat,
                word,
                None,
            );
        }
        assert forall|a: u64, b: u64, c: u64, word: Seq<char>, n: nat|
            is_word(word) && clean == #[trigger] prerelease_text(
                a as nat,
                b as nat,
                c as nat,
                word,
                n,
            ) implies compatible == is_supported(
            a as nat,
            b as nat,
            c as nat,
            word,
            n >= 1,
        ) by {
            lemma_prerelease_supported(
                clean,
                compatible,
                a as nat,
                b as nat,
                c as nat,
                word,
                Some(n),
            );
        }
    }
    result
}

} // verus!
