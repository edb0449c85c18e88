//! Protection rules: a repository-scoped configuration value holds a
//! comma-separated list of pattern expressions; each token that compiles
//! becomes a matcher, and a branch name is protected when it matches at
//! least one of them. Tokens that fail to compile are dropped silently.

use vstd::prelude::*;

use crate::text::{split_on, split_on_char, views_of};

verus! {

#[verifier::external_type_specification]
#[verifier::external_body]
pub struct ExRegex(regex::Regex);

/// Whether `regex::Regex::new` accepts `pattern`; compilation succeeds or
/// fails on the pattern text alone.
pub uninterp spec fn regex_compiles(pattern: Seq<char>) -> bool;

/// Whether the expression compiled from `pattern` matches somewhere in
/// `text`; the result depends on the two character sequences alone.
pub uninterp spec fn regex_matches(pattern: Seq<char>, text: Seq<char>) -> bool;

/// One compiled protection pattern together with the text it was compiled
/// from. Values exist only through [`ProtectionPattern::compile`], so the
/// matcher always belongs to the recorded source text.
pub struct ProtectionPattern {
    source: String,
    matcher: regex::Regex,
}

impl ProtectionPattern {
    /// The pattern text this matcher was compiled from.
    pub closed spec fn source(&self) -> Seq<char> {
        self.source@
    }

    /// Relies on `regex::Regex::new`: it returns `Ok` exactly when it
    /// accepts the pattern text (a valid expression within the default
    /// size limit), and the compiled matcher is determined by the pattern
    /// text alone.
    #[verifier::external_body]
    fn compile(token: &str) -> (r: Option<ProtectionPattern>)
        ensures
            r is Some <==> regex_compiles(token@),
            (r matches Some(p) ==> p.source() == token@),
    {
        match regex::Regex::new(token) {
            Ok(matcher) => Some(ProtectionPattern { source: token.to_owned(), matcher }),
            Err(_) => None,
        }
    }

    /// Relies on `regex::Regex::is_match`: whether the expression matches
    /// anywhere in `text`, a function of the pattern and `text` alone.
    #[verifier::external_body]
    pub(crate) fn is_match(&self, text: &str) -> (r: bool)
        ensures
            r == regex_matches(self.source(), text@),
    {
        self.matcher.is_match(text)
    }
}

/// The sources of a protection pattern list.
pub open spec fn sources_of(patterns: Seq<ProtectionPattern>) -> Seq<Seq<char>> {
    patterns.map_values(|p: ProtectionPattern| p.source())
}

pub proof fn lemma_sources_of_push(patterns: Seq<ProtectionPattern>, p: ProtectionPattern)
    ensures
        sources_of(patterns.push(p)) =~= sources_of(patterns).push(p.source()),
{
}

/// The tokens of `tokens` that compile, in order.
pub open spec fn compiling_tokens(tokens: Seq<Seq<char>>) -> Seq<Seq<char>>
    decreases tokens.len(),
{
    if tokens.len() == 0 {
        Seq::empty()
    } else {
        let rest = compiling_tokens(tokens.drop_last());
        if regex_compiles(tokens.last()) {
            rest.push(tokens.last())
        } else {
            rest
        }
    }
}

/// The protection sources drawn from a configuration value: the value is
/// split on commas and every token that compiles contributes, in order;
/// an absent value contributes nothing.
pub open spec fn protection_sources(value: Option<Seq<char>>) -> Seq<Seq<char>> {
    match value {
        Some(v) => compiling_tokens(split_on(v, ',')),
        None => Seq::empty(),
    }
}

/// Builds the protection pattern list from the raw configuration value:
/// the value is split on `,`, each token is compiled, and tokens that do
/// not compile are dropped without failing the run. An absent value yields
/// no patterns.
pub fn load_protection_patterns(value: &Option<String>) -> (r: Vec<ProtectionPattern>)
    ensures
        (value matches Some(v) ==> sources_of(r@) == protection_sources(Some(v@))),
        value is None ==> r@.len() == 0,
{
    match value {
        None => Vec::new(),
        Some(v) => {
            let tokens = split_on_char(v.as_str(), ',');
            let mut r: Vec<ProtectionPattern> = Vec::new();
            let ghost tokviews: Seq<Seq<char>> = views_of(tokens@);
            let mut i: usize = 0;
            proof {
                assert(compiling_tokens(tokviews.take(0)) =~= Seq::<Seq<char>>::empty());
                assert(sources_of(r@) =~= Seq::<Seq<char>>::empty());
            }
            while i < tokens.len()
                invariant
                    i <= tokens.len(),
                    tokviews == views_of(tokens@),
                    tokviews.len() == tokens@.len(),
                    forall|k: int| 0 <= k < tokens@.len() ==> tokviews[k] == tokens@[k]@,
                    sources_of(r@) == compiling_tokens(tokviews.take(i as int)),
                decreases tokens.len() - i,
            {
                proof {
                    assert(tokviews.take(i + 1).drop_last() =~= tokviews.take(i as int));
                    assert(tokviews.take(i + 1).last() == tokviews[i as int]);
                }
                match ProtectionPattern::compile(tokens[i].as_str()) {
                    Some(p) => {
                        proof {
                            lemma_sources_of_push(r@, p);
                        }
                        r.push(p);
                    },
                    None => {},
                }
                i = i + 1;
            }
            proof {
                assert(tokviews.take(tokens@.len() as int) =~= tokviews);
            }
            r
        },
    }
}

/// A name is protected when it matches at least one of the pattern sources.
pub open spec fn name_is_protected(name: Seq<char>, sources: Seq<Seq<char>>) -> bool {
    exists|j: int| 0 <= j < sources.len() && regex_matches(sources[j], name)
}

/// Whether `name` matches any pattern of the list; the first match decides.
pub fn is_protected_name(name: &str, patterns: &Vec<ProtectionPattern>) -> (r: bool)
    ensures
        r == name_is_protected(name@, sources_of(patterns@)),
{
    let mut j: usize = 0;
    while j < patterns.len()
        invariant
            j <= patterns@.len(),
            forall|k: int| 0 <= k < j ==> !regex_matches(
                #[trigger] sources_of(patterns@)[k],
                name@,
            ),
        decreases patterns@.len() - j,
    {
        if patterns[j].is_match(name) {
            proof {
                assert(sources_of(patterns@)[j as int] == patterns@[j as int].source());
            }
            return true;
        }
        j = j + 1;
    }
    false
}

} // verus!
