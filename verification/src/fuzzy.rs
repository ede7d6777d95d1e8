//! Fuzzy matching of option lists, used to narrow modal choices and the
//! package search. The score itself comes from an outside matcher; the
//! filtering around it is verified.

use vstd::prelude::*;
use fuzzy_matcher::FuzzyMatcher;
use crate::text::lemma_filter_step;

verus! {

pub uninterp spec fn fuzzy_score(choice: Seq<char>, pattern: Seq<char>) -> Option<i64>;

/// Relies on fuzzy_matcher's `SkimMatcherV2::fuzzy_match`: a deterministic
/// subsequence score, a function of the two strings alone.
#[verifier::external_body]
pub(crate) fn fuzzy_match(choice: &str, pattern: &str) -> (r: Option<i64>)
    ensures
        r == fuzzy_score(choice@, pattern@),
{
    fuzzy_matcher::skim::SkimMatcherV2::default().fuzzy_match(choice, pattern)
}

/// Whether the choice counts as a hit for the pattern.
pub open spec fn fuzzy_hit(choice: Seq<char>, pattern: Seq<char>) -> bool {
    fuzzy_score(choice, pattern) is Some
}

/// The options, in order, whose score against the pattern is a hit.
pub open spec fn spec_fuzzy_filter(options: Seq<Seq<char>>, pattern: Seq<char>) -> Seq<Seq<char>> {
    options.filter(|o: Seq<char>| fuzzy_hit(o, pattern))
}

/// Keeps, in their order, the options that fuzzy-match the pattern.
pub fn fuzzy_filter(options: &Vec<String>, pattern: &str) -> (r: Vec<String>)
    ensures
        r.deep_view() == spec_fuzzy_filter(options.deep_view(), pattern@),
{
    let ghost pred = |o: Seq<char>| fuzzy_hit(o, pattern@);
    let mut out: Vec<String> = Vec::new();
    proof {
        assert(options.deep_view().take(0).filter(pred) =~= Seq::<Seq<char>>::empty());
        reveal(Seq::filter);
    }
    let mut i: usize = 0;
    while i < options.len()
        invariant
            i <= options.len(),
            options.deep_view().len() == options.len(),
            out.deep_view() == options.deep_view().take(i as int).filter(pred),
            pred == (|o: Seq<char>| fuzzy_hit(o, pattern@)),
        decreases options.len() - i,
    {
        let score = fuzzy_match(options[i].as_str(), pattern);
        proof {
            lemma_filter_step(options.deep_view(), pred, i as int);
            assert(options.deep_view()[i as int] == options[i as int]@);
        }
        if score.is_some() {
            out.push(options[i].clone());
            proof {
                assert(out.deep_view() =~= options.deep_view().take(i + 1).filter(pred));
            }
        }
        i = i + 1;
    }
    proof {
        assert(options.deep_view().take(options.deep_view().len() as int) =~= options.deep_view());
    }
    out
}

} // verus!
