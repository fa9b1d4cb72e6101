//! Keyword routing: the registered keywords are compiled once into one
//! multi-pattern automaton, and a text selects at most one handler.
use vstd::prelude::*;
use aho_corasick::{AhoCorasick, BuildError, MatchKind};

verus! {

#[verifier::external_type_specification]
#[verifier::external_body]
pub struct ExAhoCorasick(AhoCorasick);

#[verifier::external_type_specification]
#[verifier::external_body]
pub struct ExBuildError(BuildError);

/// The patterns that an automaton was built from, in order.
pub uninterp spec fn matcher_patterns(a: AhoCorasick) -> Seq<Seq<char>>;

/// The patterns fit within the automaton builder's size limits; building
/// depends on the patterns and the builder's settings alone.
pub uninterp spec fn automaton_builds(patterns: Seq<Seq<char>>) -> bool;

/// The automaton reports leftmost-first matches.
pub uninterp spec fn matcher_leftmost_first(a: AhoCorasick) -> bool;

/// Pattern `p` occurs in `text` at offset `i`.
pub open spec fn occurs_at(p: Seq<char>, text: Seq<char>, i: int) -> bool {
    0 <= i && i + p.len() <= text.len() && text.subrange(i, i + p.len()) == p
}

/// Some pattern of `ps` occurs in `text` at offset `i`.
pub open spec fn some_occurs_at(ps: Seq<Seq<char>>, text: Seq<char>, i: int) -> bool {
    exists|k: int| 0 <= k < ps.len() && #[trigger] occurs_at(ps[k], text, i)
}

/// `r` is the leftmost-first match of the patterns `ps` in `text`: the
/// pattern whose occurrence starts first, and among those that start there,
/// the one that comes first in `ps`; `None` where no pattern occurs.
pub open spec fn leftmost_first(ps: Seq<Seq<char>>, text: Seq<char>, r: Option<usize>) -> bool {
    match r {
        None => forall|i: int| !#[trigger] some_occurs_at(ps, text, i),
        Some(k) => {
            &&& k < ps.len()
            &&& exists|i: int|
                {
                    &&& #[trigger] occurs_at(ps[k as int], text, i)
                    &&& forall|j: int| j < i ==> !#[trigger] some_occurs_at(ps, text, j)
                    &&& forall|k2: int| 0 <= k2 < k ==> !#[trigger] occurs_at(ps[k2], text, i)
                }
        },
    }
}

/// The leftmost-first match is unique: a contract that states it pins the
/// result down.
pub proof fn leftmost_first_unique(ps: Seq<Seq<char>>, text: Seq<char>, r1: Option<usize>, r2: Option<usize>)
    requires
        leftmost_first(ps, text, r1),
        leftmost_first(ps, text, r2),
    ensures
        r1 == r2,
{
    if let Some(k1) = r1 {
        let i1 = choose|i: int|
            {
                &&& #[trigger] occurs_at(ps[k1 as int], text, i)
                &&& forall|j: int| j < i ==> !#[trigger] some_occurs_at(ps, text, j)
                &&& forall|k2: int| 0 <= k2 < k1 ==> !#[trigger] occurs_at(ps[k2], text, i)
            };
        assert(some_occurs_at(ps, text, i1));
        if let Some(k2) = r2 {
            let i2 = choose|i: int|
                {
                    &&& #[trigger] occurs_at(ps[k2 as int], text, i)
                    &&& forall|j: int| j < i ==> !#[trigger] some_occurs_at(ps, text, j)
                    &&& forall|k: int| 0 <= k < k2 ==> !#[trigger] occurs_at(ps[k], text, i)
                };
            assert(some_occurs_at(ps, text, i2));
            assert(i1 == i2);
        }
    } else if let Some(k2) = r2 {
        let i2 = choose|i: int| #[trigger] occurs_at(ps[k2 as int], text, i);
        assert(some_occurs_at(ps, text, i2));
    }
}

/// Where no keyword occurs in the text, no keyword matches.
pub proof fn no_keyword_no_match(ps: Seq<Seq<char>>, text: Seq<char>, r: Option<usize>)
    requires
        forall|k: int, i: int| 0 <= k < ps.len() ==> !#[trigger] occurs_at(ps[k], text, i),
        leftmost_first(ps, text, r),
    ensures
        r is None,
{
    if let Some(k) = r {
        let i = choose|i: int| #[trigger] occurs_at(ps[k as int], text, i);
        assert(occurs_at(ps[k as int], text, i));
    }
}

/// Relies on `AhoCorasickBuilder::build` with `MatchKind::LeftmostFirst`:
/// on success the automaton searches for exactly the given patterns, in the
/// given order, with leftmost-first semantics; whether it succeeds depends
/// on the patterns alone.
#[verifier::external_body]
fn compile(patterns: &Vec<String>) -> (r: Result<AhoCorasick, BuildError>)
    ensures
        r is Ok <==> automaton_builds(patterns@.map_values(|p: String| p@)),
        r matches Ok(a) ==> matcher_patterns(a) == patterns@.map_values(|p: String| p@)
            && matcher_leftmost_first(a),
{
    AhoCorasick::builder().match_kind(MatchKind::LeftmostFirst).build(patterns)
}

/// Relies on `AhoCorasick::find` on an unanchored search, which does not
/// fail: under leftmost-first semantics it reports the match that starts
/// first and, of those, the pattern given first. A pattern of valid UTF-8
/// starts and ends on character boundaries, so byte offsets order matches
/// as character offsets do.
#[verifier::external_body]
fn matcher_find(a: &AhoCorasick, text: &str) -> (r: Option<usize>)
    ensures
        matcher_leftmost_first(*a) ==> leftmost_first(matcher_patterns(*a), text@, r),
{
    a.find(text).map(|m| m.pattern().as_usize())
}

/// The keyword table could not be compiled: it is over the automaton's
/// size limits.
#[derive(Clone, Copy, Debug, PartialEq, Eq, Structural)]
pub enum RouterError {
    TooLarge,
}

/// Keywords and their handlers, collected in registration order.
pub struct KeywordRuleBuilder<H> {
    keywords: Vec<String>,
    handlers: Vec<H>,
}

impl<H> KeywordRuleBuilder<H> {
    pub closed spec fn keywords(&self) -> Seq<Seq<char>> {
        self.keywords@.map_values(|p: String| p@)
    }

    pub closed spec fn handlers(&self) -> Seq<H> {
        self.handlers@
    }

    pub closed spec fn wf(&self) -> bool {
        self.keywords@.len() == self.handlers@.len()
    }

    pub fn new() -> (r: Self)
        ensures
            r.wf(),
            r.keywords() == Seq::<Seq<char>>::empty(),
            r.handlers() == Seq::<H>::empty(),
    {
        let r = KeywordRuleBuilder { keywords: Vec::new(), handlers: Vec::new() };
        assert(r.keywords() =~= Seq::<Seq<char>>::empty());
        r
    }

    pub fn insert(&mut self, keyword: &str, handler: H)
        requires
            old(self).wf(),
        ensures
            final(self).wf(),
            final(self).keywords() == old(self).keywords().push(keyword@),
            final(self).handlers() == old(self).handlers().push(handler),
    {
        self.keywords.push(keyword.to_owned());
        self.handlers.push(handler);
        assert(self.keywords() =~= old(self).keywords().push(keyword@));
    }

    /// Compiles the keywords into one automaton.
    pub fn build(self) -> (r: Result<KeywordRule<H>, RouterError>)
        requires
            self.wf(),
        ensures
            r is Ok <==> automaton_builds(self.keywords()),
            r matches Ok(rule) ==> rule.wf() && rule.keywords() == self.keywords()
                && rule.handlers() == self.handlers(),
            r matches Err(e) ==> e == RouterError::TooLarge,
    {
        match compile(&self.keywords) {
            Ok(matcher) => Ok(KeywordRule { matcher, handlers: self.handlers }),
            Err(_) => Err(RouterError::TooLarge),
        }
    }
}

/// A compiled keyword table; it does not change after it is built.
pub struct KeywordRule<H> {
    matcher: AhoCorasick,
    handlers: Vec<H>,
}

impl<H> KeywordRule<H> {
    pub closed spec fn keywords(&self) -> Seq<Seq<char>> {
        matcher_patterns(self.matcher)
    }

    pub closed spec fn handlers(&self) -> Seq<H> {
        self.handlers@
    }

    pub closed spec fn wf(&self) -> bool {
        &&& matcher_leftmost_first(self.matcher)
        &&& matcher_patterns(self.matcher).len() == self.handlers@.len()
    }

    /// The index of the keyword that selects a handler for `text`.
    pub fn find_index(&self, text: &str) -> (r: Option<usize>)
        requires
            self.wf(),
        ensures
            leftmost_first(self.keywords(), text@, r),
    {
        matcher_find(&self.matcher, text)
    }

    /// The handler registered with the `k`-th keyword.
    pub fn handler(&self, k: usize) -> (r: Option<&H>)
        ensures
            match r {
                Some(h) => k < self.handlers().len() && *h == self.handlers()[k as int],
                None => k >= self.handlers().len(),
            },
    {
        if k < self.handlers.len() {
            Some(&self.handlers[k])
        } else {
            None
        }
    }

    /// The handler of the leftmost-first keyword in `text`, if any occurs.
    pub fn find(&self, text: &str) -> (r: Option<&H>)
        requires
            self.wf(),
        ensures
            match r {
                Some(h) => exists|k: usize|
                    leftmost_first(self.keywords(), text@, Some(k)) && *h == self.handlers()[k as int],
                None => leftmost_first(self.keywords(), text@, None),
            },
    {
        match self.find_index(text) {
            Some(k) => {
                let h = &self.handlers[k];
                assert(leftmost_first(self.keywords(), text@, Some(k)) && *h == self.handlers()[k as int]);
                Some(h)
            },
            None => None,
        }
    }
}

} // verus!
