//! The name of a subscriber.

use crate::domain::ValidationError;
use crate::text::control;
use crate::text::is_control;
use crate::text::lemma_trimmed_shape;
use crate::text::trim;
use crate::text::trimmed;
use unicode_segmentation::UnicodeSegmentation;
use vstd::prelude::*;

verus! {

/// The most extended grapheme clusters that a name may have.
pub const MAX_NAME_GRAPHEMES: usize = 256;

/// Whether `c` is one of the characters that no name may hold:
/// `/ ( ) " < > \ { }`.
pub open spec fn is_forbidden(c: char) -> bool {
    ||| c == '/'
    ||| c == '('
    ||| c == ')'
    ||| c == '"'
    ||| c == '<'
    ||| c == '>'
    ||| c == '\\'
    ||| c == '{'
    ||| c == '}'
}

/// Whether every character of `text` is neither forbidden nor a control
/// character.
pub open spec fn is_clean(text: Seq<char>) -> bool {
    forall|i: int| 0 <= i < text.len() ==> !is_forbidden(#[trigger] text[i]) && !is_control(text[i])
}

/// The number of extended grapheme clusters of a text, as Unicode Standard
/// Annex 29 divides it.
pub uninterp spec fn grapheme_count(text: Seq<char>) -> nat;

/// The rule for names, for a text of which `graphemes` is the number of
/// grapheme clusters: something is left after trimming, the text is not too
/// long, and it is clean.
pub open spec fn name_rule(raw: Seq<char>, graphemes: nat) -> bool {
    &&& trimmed(raw).len() > 0
    &&& graphemes <= MAX_NAME_GRAPHEMES
    &&& is_clean(raw)
}

/// Whether `raw` can be parsed into a name.
pub open spec fn acceptable_name(raw: Seq<char>) -> bool {
    name_rule(raw, grapheme_count(raw))
}

/// Whether `text` is what parsing makes of some acceptable input.
pub open spec fn is_parsed_name(text: Seq<char>) -> bool {
    exists|raw: Seq<char>| #[trigger] acceptable_name(raw) && text == trimmed(raw)
}

/// What can be seen in the text of every name: it is not empty, neither
/// begins nor ends with whitespace, and is clean.
pub open spec fn is_name_text(text: Seq<char>) -> bool {
    &&& text.len() > 0
    &&& trimmed(text) == text
    &&& is_clean(text)
}

/// What parsing makes of an acceptable input is not empty, has no whitespace
/// around it, and is clean.
pub proof fn lemma_parsed_name_is_name_text(text: Seq<char>)
    requires
        is_parsed_name(text),
    ensures
        is_name_text(text),
{
    let raw = choose|raw: Seq<char>| #[trigger] acceptable_name(raw) && text == trimmed(raw);
    let (a, b) = lemma_trimmed_shape(raw);
    assert forall|i: int| 0 <= i < text.len() implies !is_forbidden(#[trigger] text[i])
        && !is_control(text[i]) by {
        assert(text[i] == raw[a + i]);
    }
}

/// Counts the extended grapheme clusters of `text` by walking
/// `unicode_segmentation::UnicodeSegmentation::graphemes(text, true)`.
#[verifier::external_body]
fn count_graphemes(text: &str) -> (n: usize)
    ensures
        n == grapheme_count(text@),
{
    text.graphemes(true).count()
}

/// Decides [`is_forbidden`].
pub fn forbidden(c: char) -> (b: bool)
    ensures
        b == is_forbidden(c),
{
    c == '/' || c == '(' || c == ')' || c == '"' || c == '<' || c == '>' || c == '\\' || c == '{'
        || c == '}'
}

/// Decides [`is_clean`].
pub fn clean(text: &str) -> (b: bool)
    ensures
        b == is_clean(text@),
{
    let mut b = true;
    for c in it: text.chars()
        invariant
            it.seq() == text@,
            b == is_clean(text@.take(it.index())),
    {
        let ghost k = it.index();
        if forbidden(c) || control(c) {
            b = false;
        }
        proof {
            let before = text@.take(k);
            let after = text@.take(k + 1);
            assert(after[k] == c);
            if is_clean(before) {
                assert forall|i: int| 0 <= i < k implies !is_forbidden(#[trigger] after[i])
                    && !is_control(after[i]) by {
                    assert(after[i] == before[i]);
                }
            } else {
                let i = choose|i: int|
                    0 <= i < before.len() && !(!is_forbidden(#[trigger] before[i]) && !is_control(
                        before[i],
                    ));
                assert(after[i] == before[i]);
            }
        }
    }
    proof {
        assert(text@.take(text@.len() as int) =~= text@);
    }
    b
}

/// A subscriber's name, as it is stored and shown: what parsing made of an
/// acceptable input.
#[derive(Debug, PartialEq, Eq)]
pub struct SubscriberName {
    text: String,
}

impl View for SubscriberName {
    type V = Seq<char>;

    closed spec fn view(&self) -> Seq<char> {
        self.text@
    }
}

impl SubscriberName {
    #[verifier::type_invariant]
    spec fn well_formed(self) -> bool {
        is_parsed_name(self.text@)
    }

    /// Applies the rule for names to `raw`, given the number of its grapheme
    /// clusters.
    pub fn check(raw: &str, graphemes: usize) -> (ok: bool)
        ensures
            ok == name_rule(raw@, graphemes as nat),
    {
        !trim(raw).is_empty() && graphemes <= MAX_NAME_GRAPHEMES && clean(raw)
    }

    /// Parses a name out of untrusted input. The name is the input without
    /// the whitespace around it.
    ///
    /// Input of more than 256 grapheme clusters is refused, and so is input
    /// that holds a forbidden character, a control character, or nothing but
    /// whitespace.
    pub fn parse(s: String) -> (r: Result<SubscriberName, ValidationError>)
        ensures
            r is Ok <==> acceptable_name(s@),
            r matches Ok(name) ==> name@ == trimmed(s@),
            grapheme_count(s@) > MAX_NAME_GRAPHEMES ==> r is Err,
            (exists|i: int| 0 <= i < s@.len() && is_forbidden(#[trigger] s@[i])) ==> r is Err,
    {
        let graphemes = count_graphemes(s.as_str());
        if SubscriberName::check(s.as_str(), graphemes) {
            let text = String::from_str(trim(s.as_str()));
            proof {
                // the input itself is the acceptable text that `text` was made of
                assert(acceptable_name(s@) && text@ == trimmed(s@));
            }
            Ok(SubscriberName { text })
        } else {
            Err(ValidationError)
        }
    }

    /// The name's text.
    pub fn as_ref(&self) -> (text: &str)
        ensures
            text@ == self@,
            is_parsed_name(text@),
            is_name_text(text@),
    {
        proof {
            use_type_invariant(self);
            lemma_parsed_name_is_name_text(self.text@);
        }
        self.text.as_str()
    }
}

impl Clone for SubscriberName {
    fn clone(&self) -> (copy: Self)
        ensures
            copy@ == self@,
    {
        proof {
            use_type_invariant(self);
        }
        SubscriberName { text: self.text.clone() }
    }
}

} // verus!
