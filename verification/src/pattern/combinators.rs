// Core pattern-matching combinators: composable "attempt to produce an
// output from an input" primitives over a plain no-match result. Every
// combinator is relationally specified: `accepts` bounds its possible
// successes, `fails` its possible no-match outcomes, and `wf` says when it
// may be run at all.

use core::marker::PhantomData;

use vstd::prelude::*;

verus! {

/// Result of a pattern match: the output, or an uninformative no-match
/// signal.
pub type MatchResult<T> = Result<T, ()>;

/// A pattern matcher that matches against a node of type `I` and produces
/// a result of type `O`.
pub trait Pattern<I, O> {
    /// When the pattern may be run.
    spec fn wf(&self) -> bool;

    /// The outputs the pattern can succeed with on an input.
    spec fn accepts(&self, input: I, output: O) -> bool;

    /// Whether the pattern can signal no-match on an input.
    spec fn fails(&self, input: I) -> bool;

    /// Try to match the input and produce an output.
    fn match_pattern(&self, input: &I) -> (r: MatchResult<O>)
        requires
            self.wf(),
        ensures
            match r {
                Ok(o) => self.accepts(*input, o),
                Err(_) => self.fails(*input),
            },
    ;
}

/// Maps the result of a successful pattern match.
pub struct MapPattern<P, F, I, O, R> {
    pub pattern: P,
    pub f: F,
    pub _marker: PhantomData<(I, O, R)>,
}

impl<P, F, I, O, R> Pattern<I, R> for MapPattern<P, F, I, O, R> where
    P: Pattern<I, O>,
    F: Fn(O) -> R,
 {
    open spec fn wf(&self) -> bool {
        self.pattern.wf() && forall|o: O| #[trigger] self.f.requires((o,))
    }

    open spec fn accepts(&self, input: I, output: R) -> bool {
        exists|o: O| self.pattern.accepts(input, o) && #[trigger] self.f.ensures((o,), output)
    }

    open spec fn fails(&self, input: I) -> bool {
        self.pattern.fails(input)
    }

    fn match_pattern(&self, input: &I) -> (r: MatchResult<R>) {
        match self.pattern.match_pattern(input) {
            Ok(o) => Ok((self.f)(o)),
            Err(_) => Err(()),
        }
    }
}

/// Creates a new pattern that maps the result of a successful match.
pub fn map<P, F, I, O, R>(pattern: P, f: F) -> (r: MapPattern<P, F, I, O, R>)
    where
        P: Pattern<I, O>,
        F: Fn(O) -> R,
    ensures
        r.pattern == pattern,
        r.f == f,
{
    MapPattern { pattern, f, _marker: PhantomData }
}

/// Chains two patterns, passing the output of the first to the second; it
/// fails as soon as the first fails.
pub struct AndThen<P1, P2, I, O1, O2> {
    pub first: P1,
    pub second: P2,
    pub _marker: PhantomData<(I, O1, O2)>,
}

impl<P1, P2, I, O1, O2> Pattern<I, O2> for AndThen<P1, P2, I, O1, O2> where
    P1: Pattern<I, O1>,
    P2: Pattern<O1, O2>,
 {
    open spec fn wf(&self) -> bool {
        self.first.wf() && self.second.wf()
    }

    open spec fn accepts(&self, input: I, output: O2) -> bool {
        exists|mid: O1| self.first.accepts(input, mid) && #[trigger] self.second.accepts(
            mid,
            output,
        )
    }

    open spec fn fails(&self, input: I) -> bool {
        self.first.fails(input) || exists|mid: O1|
            #[trigger] self.first.accepts(input, mid) && self.second.fails(mid)
    }

    fn match_pattern(&self, input: &I) -> (r: MatchResult<O2>) {
        match self.first.match_pattern(input) {
            Ok(mid) => self.second.match_pattern(&mid),
            Err(_) => Err(()),
        }
    }
}

/// Creates a new pattern that chains two patterns.
pub fn and_then<P1, P2, I, O1, O2>(first: P1, second: P2) -> (r: AndThen<P1, P2, I, O1, O2>)
    where
        P1: Pattern<I, O1>,
        P2: Pattern<O1, O2>,
    ensures
        r.first == first,
        r.second == second,
{
    AndThen { first, second, _marker: PhantomData }
}

/// Tries the first pattern, and only on failure the second, against the
/// same, unconsumed input.
pub struct Or<P1, P2, I, O> {
    pub first: P1,
    pub second: P2,
    pub _marker: PhantomData<(I, O)>,
}

impl<P1, P2, I, O> Pattern<I, O> for Or<P1, P2, I, O> where
    P1: Pattern<I, O>,
    P2: Pattern<I, O>,
 {
    open spec fn wf(&self) -> bool {
        self.first.wf() && self.second.wf()
    }

    open spec fn accepts(&self, input: I, output: O) -> bool {
        self.first.accepts(input, output) || (self.first.fails(input) && self.second.accepts(
            input,
            output,
        ))
    }

    open spec fn fails(&self, input: I) -> bool {
        self.first.fails(input) && self.second.fails(input)
    }

    fn match_pattern(&self, input: &I) -> (r: MatchResult<O>) {
        match self.first.match_pattern(input) {
            Ok(o) => Ok(o),
            Err(_) => self.second.match_pattern(input),
        }
    }
}

/// Creates a new pattern that tries two patterns, first match winning.
pub fn or<P1, P2, I, O>(first: P1, second: P2) -> (r: Or<P1, P2, I, O>)
    where
        P1: Pattern<I, O>,
        P2: Pattern<I, O>,
    ensures
        r.first == first,
        r.second == second,
{
    Or { first, second, _marker: PhantomData }
}

/// Optionally matches a pattern; it never fails, wrapping success or
/// absence.
pub struct Optional<P, I, O> {
    pub pattern: P,
    pub _marker: PhantomData<(I, O)>,
}

impl<P, I, O> Pattern<I, Option<O>> for Optional<P, I, O> where P: Pattern<I, O> {
    open spec fn wf(&self) -> bool {
        self.pattern.wf()
    }

    open spec fn accepts(&self, input: I, output: Option<O>) -> bool {
        match output {
            Some(o) => self.pattern.accepts(input, o),
            None => self.pattern.fails(input),
        }
    }

    open spec fn fails(&self, input: I) -> bool {
        false
    }

    fn match_pattern(&self, input: &I) -> (r: MatchResult<Option<O>>) {
        match self.pattern.match_pattern(input) {
            Ok(o) => Ok(Some(o)),
            Err(_) => Ok(None),
        }
    }
}

/// Creates a new pattern that optionally matches.
pub fn optional<P, I, O>(pattern: P) -> (r: Optional<P, I, O>)
    where
        P: Pattern<I, O>,
    ensures
        r.pattern == pattern,
{
    Optional { pattern, _marker: PhantomData }
}

/// Matches two patterns against the same input; both must succeed.
pub struct Pair<P1, P2, I, O1, O2> {
    pub first: P1,
    pub second: P2,
    pub _marker: PhantomData<(I, O1, O2)>,
}

impl<P1, P2, I, O1, O2> Pattern<I, (O1, O2)> for Pair<P1, P2, I, O1, O2> where
    P1: Pattern<I, O1>,
    P2: Pattern<I, O2>,
 {
    open spec fn wf(&self) -> bool {
        self.first.wf() && self.second.wf()
    }

    open spec fn accepts(&self, input: I, output: (O1, O2)) -> bool {
        self.first.accepts(input, output.0) && self.second.accepts(input, output.1)
    }

    open spec fn fails(&self, input: I) -> bool {
        self.first.fails(input) || self.second.fails(input)
    }

    fn match_pattern(&self, input: &I) -> (r: MatchResult<(O1, O2)>) {
        let first_result = match self.first.match_pattern(input) {
            Ok(o) => o,
            Err(_) => { return Err(()) },
        };
        match self.second.match_pattern(input) {
            Ok(o) => Ok((first_result, o)),
            Err(_) => Err(()),
        }
    }
}

/// Creates a new pattern that matches against a pair of patterns.
pub fn pair<P1, P2, I, O1, O2>(first: P1, second: P2) -> (r: Pair<P1, P2, I, O1, O2>)
    where
        P1: Pattern<I, O1>,
        P2: Pattern<I, O2>,
    ensures
        r.first == first,
        r.second == second,
{
    Pair { first, second, _marker: PhantomData }
}

/// A pattern that always matches, ignoring its input and yielding a clone
/// of its value.
pub struct Always<I, O> {
    pub value: O,
    pub _marker: PhantomData<I>,
}

impl<I, O: Clone> Pattern<I, O> for Always<I, O> {
    open spec fn wf(&self) -> bool {
        true
    }

    open spec fn accepts(&self, input: I, output: O) -> bool {
        cloned::<O>(self.value, output)
    }

    open spec fn fails(&self, input: I) -> bool {
        false
    }

    fn match_pattern(&self, input: &I) -> (r: MatchResult<O>) {
        Ok(self.value.clone())
    }
}

/// Creates a pattern that always matches with a given value.
pub fn always<I, O: Clone>(value: O) -> (r: Always<I, O>)
    ensures
        r.value == value,
{
    Always { value, _marker: PhantomData }
}

/// A pattern that never matches.
pub struct Never<I, O> {
    pub _marker: PhantomData<(I, O)>,
}

impl<I, O> Pattern<I, O> for Never<I, O> {
    open spec fn wf(&self) -> bool {
        true
    }

    open spec fn accepts(&self, input: I, output: O) -> bool {
        false
    }

    open spec fn fails(&self, input: I) -> bool {
        true
    }

    fn match_pattern(&self, input: &I) -> (r: MatchResult<O>) {
        Err(())
    }
}

/// Creates a pattern that never matches.
pub fn never<I, O>() -> (r: Never<I, O>) {
    Never { _marker: PhantomData }
}

/// Matches when a boolean test of the input holds.
pub struct Predicate<F, I> {
    pub predicate: F,
    pub _marker: PhantomData<I>,
}

impl<F, I> Pattern<I, ()> for Predicate<F, I> where F: Fn(&I) -> bool {
    open spec fn wf(&self) -> bool {
        forall|i: &I| #[trigger] self.predicate.requires((i,))
    }

    open spec fn accepts(&self, input: I, output: ()) -> bool {
        self.predicate.ensures((&input,), true)
    }

    open spec fn fails(&self, input: I) -> bool {
        self.predicate.ensures((&input,), false)
    }

    fn match_pattern(&self, input: &I) -> (r: MatchResult<()>) {
        if (self.predicate)(input) {
            Ok(())
        } else {
            Err(())
        }
    }
}

/// Creates a pattern that matches if a predicate is true.
pub fn predicate<F, I>(test: F) -> (r: Predicate<F, I>)
    where
        F: Fn(&I) -> bool,
    ensures
        r.predicate == test,
{
    Predicate { predicate: test, _marker: PhantomData }
}

/// Lifts a partial function into a pattern; its failure case drops all
/// information.
pub struct Extract<F, I, O> {
    pub extract: F,
    pub _marker: PhantomData<(I, O)>,
}

impl<F, I, O> Pattern<I, O> for Extract<F, I, O> where F: Fn(&I) -> Option<O> {
    open spec fn wf(&self) -> bool {
        forall|i: &I| #[trigger] self.extract.requires((i,))
    }

    open spec fn accepts(&self, input: I, output: O) -> bool {
        self.extract.ensures((&input,), Some(output))
    }

    open spec fn fails(&self, input: I) -> bool {
        self.extract.ensures((&input,), None)
    }

    fn match_pattern(&self, input: &I) -> (r: MatchResult<O>) {
        match (self.extract)(input) {
            Some(o) => Ok(o),
            None => Err(()),
        }
    }
}

/// Creates a pattern that extracts a value.
pub fn extract<F, I, O>(f: F) -> (r: Extract<F, I, O>)
    where
        F: Fn(&I) -> Option<O>,
    ensures
        r.extract == f,
{
    Extract { extract: f, _marker: PhantomData }
}

/// `or` is associative: grouping three alternatives either way yields the
/// same possible successes and the same failures on every input.
pub proof fn lemma_or_associative<P1, P2, P3, I, O>(
    a: Or<Or<P1, P2, I, O>, P3, I, O>,
    b: Or<P1, Or<P2, P3, I, O>, I, O>,
    input: I,
    output: O,
)
    where
        P1: Pattern<I, O>,
        P2: Pattern<I, O>,
        P3: Pattern<I, O>,
    requires
        a.first.first == b.first,
        a.first.second == b.second.first,
        a.second == b.second.second,
    ensures
        a.accepts(input, output) == b.accepts(input, output),
        a.fails(input) == b.fails(input),
{
}

/// `never` is a left and right identity for `or`: the possible successes
/// and failures are those of the other pattern alone.
pub proof fn lemma_never_identity_for_or<P, I, O>(
    left: Or<Never<I, O>, P, I, O>,
    right: Or<P, Never<I, O>, I, O>,
    input: I,
    output: O,
)
    where P: Pattern<I, O>,
    requires
        left.second == right.first,
    ensures
        left.accepts(input, output) == left.second.accepts(input, output),
        left.fails(input) == left.second.fails(input),
        right.accepts(input, output) == right.first.accepts(input, output),
        right.fails(input) == right.first.fails(input),
{
}

} // verus!
