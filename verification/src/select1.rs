//! The memoizing node of one input.
use crate::alike;
use crate::clone_is_exact;
use crate::Selector1;
use vstd::laws_eq::obeys_eq;
use vstd::laws_eq::obeys_eq_spec_properties;
use vstd::prelude::*;
use vstd::std_specs::cmp::PartialEqSpec;

verus! {

/// A memoizing selector over one input selector.
///
/// `A1` is the argument, `I1` the input selector, `O1` the input's output,
/// `F` the combining function and `R` the node's own output.
pub struct Select1<A1, I1, O1, F, R> {
    selector: F,
    value: Option<R>,
    input1: I1,
    output1: Option<O1>,
    recomputed: Ghost<nat>,
    arguments: core::marker::PhantomData<A1>,
}

impl<A1, I1, O1, F, R> Select1<A1, I1, O1, F, R> {
    /// The input selector, in its present state.
    pub closed spec fn input1(&self) -> I1 {
        self.input1
    }

    /// The combining function.
    pub closed spec fn combine(&self) -> F {
        self.selector
    }

    /// The input output that the cached result was computed from, if there is one.
    pub closed spec fn last_input1(&self) -> Option<O1> {
        self.output1
    }

    /// The cached result, if there is one.
    pub closed spec fn last_output(&self) -> Option<R> {
        self.value
    }

    /// How many times the node has run its combining function.
    pub closed spec fn recomputations(&self) -> nat {
        self.recomputed@
    }

    /// What the node remembers: the input output seen last, the result kept
    /// for it, and how often the combining function has run.
    pub open spec fn cache(&self) -> (Option<O1>, Option<R>, nat) {
        (self.last_input1(), self.last_output(), self.recomputations())
    }
}

/// Creates a new memoizing selector with a single input function.
///
/// If the return value of `input1` doesn't change, `selector` will not be reinvoked
/// and a cached copy of the result will be returned instead.
pub fn new<A1, I1, O1, F, R>(input1: I1, selector: F) -> (node: Select1<A1, I1, O1, F, R>) where
    F: FnMut(&O1) -> R,
    I1: Selector1<A1, Output = O1>,
    O1: Clone + Eq,
    R: Clone,

    ensures
        node.input1() == input1,
        node.combine() == selector,
        node.cache() == (None::<O1>, None::<R>, 0nat),
        node.wf(),
{
    Select1 {
        selector,
        value: None,
        input1,
        output1: None,
        recomputed: Ghost(0),
        arguments: core::marker::PhantomData,
    }
}

impl<A1, F, I1, O1, R> Select1<A1, I1, O1, F, R> where
    F: FnMut(&O1) -> R,
    I1: Selector1<A1, Output = O1>,
    O1: Clone + Eq,
    R: Clone,
 {
    /// The cache is empty and nothing was computed yet, or it holds an input
    /// output together with a result that the combining function gave for it.
    pub open spec fn wf(&self) -> bool {
        match (self.last_input1(), self.last_output()) {
            (None, None) => self.recomputations() == 0,
            (Some(seen1), Some(kept)) => {
                &&& self.recomputations() > 0
                &&& call_ensures(self.combine(), (&seen1,), kept)
            },
            _ => false,
        }
    }

    /// Whether the fresh input output equals the one in the cache. An empty
    /// cache equals nothing.
    pub open spec fn hit(&self, fresh1: O1) -> bool {
        match self.last_input1() {
            Some(seen1) => fresh1.eq_spec(&seen1),
            None => false,
        }
    }

    /// Whether `==` on input outputs is known to compute `eq_spec`, so that
    /// `hit` decides whether the cache is used.
    pub open spec fn comparable() -> bool {
        O1::obeys_eq_spec()
    }

    /// Whether the node may be queried with `arg1`: the input accepts the
    /// argument, and the combining function accepts whatever the input may
    /// return and the cache does not answer.
    pub open spec fn accepts(&self, arg1: A1) -> bool {
        &&& self.wf()
        &&& self.input1().accepts(arg1)
        &&& forall|after1: I1, fresh1: O1| #[trigger]
            self.input1().yields(arg1, &after1, fresh1) && !(Self::comparable() && self.hit(
                fresh1,
            )) ==> call_requires(self.combine(), (&fresh1,))
    }

    /// One query, with the input output `fresh1` that it saw.
    ///
    /// The input is queried once. Where its output equals the cached one the
    /// cache stays and the combining function does not run. Otherwise the
    /// combining function runs once on the fresh output, and its result and
    /// that output replace the cache together. Either way the caller gets a
    /// duplicate of the cached result, which stays in the node.
    pub open spec fn query(&self, arg1: A1, fresh1: O1, next: &Self, out: R) -> bool {
        let reused = next.recomputations() == self.recomputations();
        &&& self.wf()
        &&& next.wf()
        &&& self.input1().yields(arg1, &next.input1(), fresh1)
        &&& next.combine() == self.combine()
        &&& Self::comparable() ==> (reused <==> self.hit(fresh1))
        &&& if reused {
            &&& next.last_input1() == self.last_input1()
            &&& next.last_output() == self.last_output()
        } else {
            &&& next.recomputations() == self.recomputations() + 1
            &&& next.last_input1() == Some(fresh1)
            &&& call_ensures(self.combine(), (&fresh1,), next.last_output().unwrap())
        }
        &&& next.last_output() is Some
        &&& cloned(next.last_output().unwrap(), out)
    }

    /// Whether a query with `arg1` may return `out` and leave the node as
    /// `next`: `query`, for some output of the input.
    pub open spec fn yields(&self, arg1: A1, next: &Self, out: R) -> bool {
        exists|fresh1: O1| self.query(arg1, fresh1, next, out)
    }

    /// Whether the node computes a function of its argument: the input is
    /// deterministic, the equality of input outputs is an equivalence, the
    /// combining function gives one result for all input outputs that are
    /// alike, and a duplicate of a result is that result.
    pub open spec fn deterministic(&self) -> bool {
        &&& self.input1().deterministic()
        &&& obeys_eq::<O1>()
        &&& forall|v1: O1, w1: O1, r: R, s: R|
            alike(v1, w1) && #[trigger] call_ensures(self.combine(), (&v1,), r)
                && #[trigger] call_ensures(self.combine(), (&w1,), s) ==> r == s
        &&& clone_is_exact::<R>()
    }

    /// What the combining function gives for the input's value, or for an
    /// output alike it.
    pub open spec fn value(&self, arg1: A1) -> R {
        let v1 = self.input1().value(arg1);
        (choose|r: R, w1: O1| alike(v1, w1) && call_ensures(self.combine(), (&w1,), r)).0
    }

    /// Computes the value based on argument arg1.
    pub fn select(&mut self, arg1: A1) -> (out: R)
        requires
            old(self).accepts(arg1),
        ensures
            old(self).yields(arg1, final(self), out),
    {
        let fresh1 = self.input1.select(arg1);
        let ghost seen1 = fresh1;
        let reuse = match &self.output1 {
            Some(cached1) => fresh1 == *cached1,
            None => false,
        };
        if !reuse {
            self.value = Some((self.selector)(&fresh1));
            self.output1 = Some(fresh1);
            proof {
                self.recomputed@ = self.recomputed@ + 1;
            }
        }
        let out = self.value.as_ref().unwrap().clone();
        assert(old(self).query(arg1, seen1, self, out));
        out
    }

    /// Seen through the selector trait, a node is what it is by itself. For
    /// callers that hold a node of known type as the input of another, where
    /// the trait's functions do not unfold by themselves.
    pub proof fn lemma_as_selector(&self)
        ensures
            forall|arg1: A1| #[trigger] Selector1::accepts(self, arg1) == self.accepts(arg1),
            forall|arg1: A1, next: Self, out: R| #[trigger]
                Selector1::yields(self, arg1, &next, out) == self.yields(arg1, &next, out),
            Selector1::deterministic(self) == self.deterministic(),
            forall|arg1: A1| #[trigger] Selector1::value(self, arg1) == self.value(arg1),
    {
    }

    /// Memoization. Of two queries in a row whose input outputs are equal,
    /// the second never runs the combining function: it answers from the
    /// cache that the first left. Over both queries the function runs at most
    /// once, and exactly once where it had never run before.
    pub proof fn lemma_memoized(
        &self,
        arg_a: A1,
        fresh_a: O1,
        mid: &Self,
        out_a: R,
        arg_b: A1,
        fresh_b: O1,
        end: &Self,
        out_b: R,
    )
        requires
            obeys_eq::<O1>(),
            self.query(arg_a, fresh_a, mid, out_a),
            mid.query(arg_b, fresh_b, end, out_b),
            fresh_b.eq_spec(&fresh_a),
        ensures
            end.cache() == mid.cache(),
            end.recomputations() <= self.recomputations() + 1,
            self.recomputations() == 0 ==> end.recomputations() == 1,
    {
        reveal(obeys_eq_spec_properties);
    }

    /// Recomputation on change. Of two queries in a row whose input outputs
    /// differ, the second runs the combining function once more, on the
    /// fresh output, and caches that output with the new result.
    pub proof fn lemma_recomputed(
        &self,
        arg_a: A1,
        fresh_a: O1,
        mid: &Self,
        out_a: R,
        arg_b: A1,
        fresh_b: O1,
        end: &Self,
        out_b: R,
    )
        requires
            obeys_eq::<O1>(),
            self.query(arg_a, fresh_a, mid, out_a),
            mid.query(arg_b, fresh_b, end, out_b),
            !fresh_b.eq_spec(&fresh_a),
        ensures
            end.recomputations() == mid.recomputations() + 1,
            end.last_input1() == Some(fresh_b),
            end.last_output() is Some,
            call_ensures(self.combine(), (&fresh_b,), end.last_output().unwrap()),
    {
        reveal(obeys_eq_spec_properties);
    }

    /// Independence of the returned duplicate. What a query leaves in the
    /// node does not depend on the value handed to the caller: the same step
    /// holds with any other duplicate of the cached result in its place.
    pub proof fn lemma_result_independent(
        &self,
        arg1: A1,
        fresh1: O1,
        next: &Self,
        out: R,
        other: R,
    )
        requires
            self.query(arg1, fresh1, next, out),
            cloned(next.last_output().unwrap(), other),
        ensures
            self.query(arg1, fresh1, next, other),
    {
    }

    /// Determinism. A deterministic node returns `value(arg1)` from any
    /// cache, and stays deterministic with the same values.
    pub proof fn lemma_deterministic(&self, arg1: A1, next: &Self, out: R)
        requires
            self.deterministic(),
            self.yields(arg1, next, out),
        ensures
            out == self.value(arg1),
            next.deterministic(),
            forall|a1: A1| next.value(a1) == self.value(a1),
    {
        reveal(obeys_eq_spec_properties);
        let fresh1 = choose|fresh1: O1| self.query(arg1, fresh1, next, out);
        self.input1().lemma_deterministic(arg1, &next.input1(), fresh1);
        let seen1 = next.last_input1().unwrap();
        let kept = next.last_output().unwrap();
        assert(alike(fresh1, seen1) && call_ensures(self.combine(), (&seen1,), kept));
    }

    /// The value of a deterministic node is what the combining function gives
    /// for the input's value, or for any output alike it.
    pub proof fn lemma_value(&self, arg1: A1, like1: O1, result: R)
        requires
            self.deterministic(),
            alike(self.input1().value(arg1), like1),
            call_ensures(self.combine(), (&like1,), result),
        ensures
            self.value(arg1) == result,
    {
        reveal(obeys_eq_spec_properties);
        let v1 = self.input1().value(arg1);
        let (r, w1) = choose|r: R, w1: O1|
            alike(v1, w1) && call_ensures(self.combine(), (&w1,), r);
        assert(alike(w1, like1));
    }

    /// Transparency of composition. Two deterministic nodes with the same
    /// combining function, over inputs of any two kinds that have the same
    /// value for `arg1`, return the same output, and from equal caches they
    /// come to equal caches: whether an input is a plain function or a node
    /// with a cache of its own cannot be told from outside.
    pub proof fn lemma_transparent<J1>(
        &self,
        arg1: A1,
        next: &Self,
        out: R,
        twin: &Select1<A1, J1, O1, F, R>,
        twin_next: &Select1<A1, J1, O1, F, R>,
        twin_out: R,
    ) where J1: Selector1<A1, Output = O1>
        requires
            self.deterministic(),
            twin.deterministic(),
            twin.combine() == self.combine(),
            twin.input1().value(arg1) == self.input1().value(arg1),
            self.yields(arg1, next, out),
            twin.yields(arg1, twin_next, twin_out),
        ensures
            twin_out == out,
            twin.cache() == self.cache() ==> twin_next.cache() == next.cache(),
    {
        reveal(obeys_eq_spec_properties);
        self.lemma_deterministic(arg1, next, out);
        twin.lemma_deterministic(arg1, twin_next, twin_out);
        let fresh1 = choose|fresh1: O1| self.query(arg1, fresh1, next, out);
        let twin_fresh1 = choose|fresh1: O1| twin.query(arg1, fresh1, twin_next, twin_out);
        self.input1().lemma_deterministic(arg1, &next.input1(), fresh1);
        twin.input1().lemma_deterministic(arg1, &twin_next.input1(), twin_fresh1);
    }
}

/// A node is a selector of one argument, and so can be the input of another node.
impl<A1, F, I1, O1, R> Selector1<A1> for Select1<A1, I1, O1, F, R> where
    F: FnMut(&O1) -> R,
    I1: Selector1<A1, Output = O1>,
    O1: Clone + Eq,
    R: Clone,
 {
    type Output = R;

    open spec fn accepts(&self, arg: A1) -> bool {
        Select1::accepts(self, arg)
    }

    open spec fn yields(&self, arg: A1, next: &Self, out: R) -> bool {
        Select1::yields(self, arg, next, out)
    }

    open spec fn deterministic(&self) -> bool {
        Select1::deterministic(self)
    }

    open spec fn value(&self, arg: A1) -> R {
        Select1::value(self, arg)
    }

    fn select(&mut self, arg1: A1) -> (out: R) {
        Select1::select(self, arg1)
    }

    proof fn lemma_deterministic(&self, arg: A1, next: &Self, out: R) {
        Select1::lemma_deterministic(self, arg, next, out);
    }
}

} // verus!
