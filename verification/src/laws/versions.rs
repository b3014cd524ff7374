//! Which versions are compatible.

use vstd::prelude::*;

use crate::laws::numbers::law_leading_letters_are_dropped;
use crate::library::{check_step, CheckAction, CheckEvent, Platform};
use crate::text::{decimal, without_leading};
use crate::version::{
    comes_after, is_version, is_word, prerelease_text, release_text, word_text,
};

verus! {

/// Whether a text is another, with any number of `v`s before it.
pub open spec fn writes(text: Seq<char>, version: Seq<char>) -> bool {
    without_leading(text, 'v') == version
}

/// A version check that gets a version to look at.
pub open spec fn checks(
    lib_dir: Option<Seq<char>>,
    platform: Platform,
    version: String,
    action: CheckAction,
) -> bool {
    &&& check_step(lib_dir, platform, CheckEvent::Version(Some(version)), action)
    &&& version@.len() > 0
    &&& version@ != "unknown"@
}

/// A check names the version as it was given, with any `v`, and the lowest
/// supported one.
pub proof fn law_checks_name_both_versions(
    lib_dir: Option<Seq<char>>,
    platform: Platform,
    version: String,
    action: CheckAction,
)
    requires
        checks(lib_dir, platform, version, action),
    ensures
        action matches CheckAction::Finish(Ok(check)) && check.current@ == version@
            && check.minimum@ == "v5.5.0-beta.1"@,
{
    reveal_strlit("v");
    reveal_strlit("5.5.0-beta.1");
    reveal_strlit("v5.5.0-beta.1");
    assert("v"@ + "5.5.0-beta.1"@ =~= "v5.5.0-beta.1"@);
}

/// A release is compatible exactly when it is 5.5.0 or a later one.
pub proof fn law_releases_from_the_minimum_on(
    lib_dir: Option<Seq<char>>,
    platform: Platform,
    version: String,
    action: CheckAction,
    major: u64,
    minor: u64,
    patch: u64,
)
    requires
        checks(lib_dir, platform, version, action),
        writes(
            version@,
            decimal(major as nat) + "."@ + decimal(minor as nat) + "."@ + decimal(patch as nat),
        ),
    ensures
        action matches CheckAction::Finish(Ok(check)) && (check.is_compatible <==> major > 5 || (
        major == 5 && minor >= 5)),
{
    assert(without_leading(version@, 'v') == release_text(
        major as nat,
        minor as nat,
        patch as nat,
    ));
}

/// Whether a word comes behind `beta` in a dictionary: it goes on where `beta`
/// ends, or has a later letter where they first differ.
pub open spec fn is_behind_beta(word: Seq<char>) -> bool {
    exists|i: int|
        0 <= i <= 4 && i < word.len() && #[trigger] word.take(i) == "beta"@.take(i) && (i == 4
            || word[i] > "beta"@[i])
}

/// A numbered pre-release is compatible exactly when its numbers are later
/// than 5.5.0, or are these and its word is behind `beta`, or is `beta` with a
/// number from one on.
pub proof fn law_prereleases_from_the_first_beta_on(
    lib_dir: Option<Seq<char>>,
    platform: Platform,
    version: String,
    action: CheckAction,
    major: u64,
    minor: u64,
    patch: u64,
    word: Seq<char>,
    number: nat,
)
    requires
        checks(lib_dir, platform, version, action),
        is_word(word),
        writes(
            version@,
            decimal(major as nat) + "."@ + decimal(minor as nat) + "."@ + decimal(patch as nat)
                + "-"@ + word + "."@ + decimal(number),
        ),
    ensures
        action matches CheckAction::Finish(Ok(check)) && (check.is_compatible <==> {
            ||| major > 5
            ||| major == 5 && minor > 5
            ||| major == 5 && minor == 5 && patch > 0
            ||| major == 5 && minor == 5 && patch == 0 && (is_behind_beta(word) || (word == "beta"@
                && number >= 1))
        }),
{
    assert(without_leading(version@, 'v') == prerelease_text(
        major as nat,
        minor as nat,
        patch as nat,
        word,
        number,
    ));
    reveal_strlit("beta");
    lemma_comes_after(word, "beta"@);
    lemma_behind_beta(word);
}

/// A pre-release of a word alone is compatible exactly when its numbers are
/// later than 5.5.0, or are these and its word is behind `beta`.
pub proof fn law_words_alone(
    lib_dir: Option<Seq<char>>,
    platform: Platform,
    version: String,
    action: CheckAction,
    major: u64,
    minor: u64,
    patch: u64,
    word: Seq<char>,
)
    requires
        checks(lib_dir, platform, version, action),
        is_word(word),
        writes(
            version@,
            decimal(major as nat) + "."@ + decimal(minor as nat) + "."@ + decimal(patch as nat)
                + "-"@ + word,
        ),
    ensures
        action matches CheckAction::Finish(Ok(check)) && (check.is_compatible <==> {
            ||| major > 5
            ||| major == 5 && minor > 5
            ||| major == 5 && minor == 5 && patch > 0
            ||| major == 5 && minor == 5 && patch == 0 && is_behind_beta(word)
        }),
{
    assert(without_leading(version@, 'v') == word_text(
        major as nat,
        minor as nat,
        patch as nat,
        word,
    ));
    lemma_comes_after(word, "beta"@);
    lemma_behind_beta(word);
}

/// What does not begin with a digit, past any `v`s, is checked without an
/// error and is not compatible.
pub proof fn law_other_texts_are_not_compatible(
    lib_dir: Option<Seq<char>>,
    platform: Platform,
    version: String,
    action: CheckAction,
)
    requires
        checks(lib_dir, platform, version, action),
        ({
            let clean = without_leading(version@, 'v');
            clean.len() == 0 || !('0' <= clean[0] <= '9')
        }),
    ensures
        action matches CheckAction::Finish(Ok(check)) && !check.is_compatible,
{
}

/// What is compatible is a version, past any `v`s.
pub proof fn law_only_versions_are_compatible(
    lib_dir: Option<Seq<char>>,
    platform: Platform,
    version: String,
    action: CheckAction,
)
    requires
        checks(lib_dir, platform, version, action),
    ensures
        action matches CheckAction::Finish(Ok(check)) && (check.is_compatible ==> is_version(
            without_leading(version@, 'v'),
        )),
{
}

/// Two texts that differ in the number of `v`s before them are both compatible
/// or neither is.
pub proof fn law_leading_vs_make_no_difference(
    lib_dir: Option<Seq<char>>,
    platform: Platform,
    one: String,
    two: String,
    one_action: CheckAction,
    two_action: CheckAction,
)
    requires
        checks(lib_dir, platform, one, one_action),
        checks(lib_dir, platform, two, two_action),
        two@ == seq!['v'] + one@,
    ensures
        one_action matches CheckAction::Finish(Ok(a)) && two_action matches CheckAction::Finish(
            Ok(b),
        ) && a.is_compatible == b.is_compatible,
{
    assert(two@.skip(1) =~= one@);
    law_leading_letters_are_dropped(two@, 'v');
}

/// One text comes after another in a dictionary exactly when there is a place
/// up to which they agree, and at which the other ends or has the earlier
/// letter.
pub open spec fn differs_upwards(text: Seq<char>, other: Seq<char>, i: int) -> bool {
    &&& 0 <= i < text.len()
    &&& i <= other.len()
    &&& text.take(i) == other.take(i)
    &&& i == other.len() || text[i] > other[i]
}

proof fn lemma_comes_after(text: Seq<char>, other: Seq<char>)
    ensures
        comes_after(text, other) <==> exists|i: int| differs_upwards(text, other, i),
    decreases text.len(),
{
    if text.len() == 0 {
    } else if other.len() == 0 {
        assert(text.take(0) =~= other.take(0));
        assert(differs_upwards(text, other, 0));
    } else if text[0] != other[0] {
        if text[0] > other[0] {
            assert(text.take(0) =~= other.take(0));
            assert(differs_upwards(text, other, 0));
        }
        assert forall|i: int| differs_upwards(text, other, i) implies text[0] > other[0] by {
            if i > 0 {
                assert(text.take(i)[0] == other.take(i)[0]);
            }
        }
    } else {
        let t = text.skip(1);
        let o = other.skip(1);
        lemma_comes_after(t, o);
        assert forall|i: int| differs_upwards(t, o, i) implies differs_upwards(
            text,
            other,
            i + 1,
        ) by {
            assert forall|j: int| 0 <= j < i + 1 implies text[j] == other[j] by {
                if j > 0 {
                    assert(t.take(i)[j - 1] == o.take(i)[j - 1]);
                }
            }
            assert(text.take(i + 1) =~= other.take(i + 1));
        }
        assert forall|i: int| differs_upwards(text, other, i) implies differs_upwards(
            t,
            o,
            i - 1,
        ) by {
            assert forall|j: int| 0 <= j < i - 1 implies t[j] == o[j] by {
                assert(text.take(i)[j + 1] == other.take(i)[j + 1]);
            }
            assert(t.take(i - 1) =~= o.take(i - 1));
        }
        if exists|i: int| differs_upwards(t, o, i) {
            let i = choose|i: int| differs_upwards(t, o, i);
            assert(differs_upwards(text, other, i + 1));
        }
        if exists|i: int| differs_upwards(text, other, i) {
            let i = choose|i: int| differs_upwards(text, other, i);
            assert(differs_upwards(t, o, i - 1));
        }
    }
}

proof fn lemma_behind_beta(word: Seq<char>)
    ensures
        is_behind_beta(word) <==> exists|i: int| differs_upwards(word, "beta"@, i),
{
    reveal_strlit("beta");
    if is_behind_beta(word) {
        let i = choose|i: int|
            0 <= i <= 4 && i < word.len() && #[trigger] word.take(i) == "beta"@.take(i) && (i == 4
                || word[i] > "beta"@[i]);
        assert(differs_upwards(word, "beta"@, i));
    }
}

} // verus!
