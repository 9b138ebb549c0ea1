//! The memoizing node of three inputs.
use crate::alike;
use crate::clone_is_exact;
use crate::Selector1;
use crate::Selector3;
use vstd::laws_eq::obeys_eq;
use vstd::laws_eq::obeys_eq_spec_properties;
use vstd::prelude::*;
use vstd::std_specs::cmp::PartialEqSpec;

verus! {

/// A memoizing selector over three input selectors.
///
/// `A1` to `A3` are the arguments, `I1` to `I3` the input selectors, `O1` to
/// `O3` their outputs, `F` the combining function and `R` the node's own
/// output. Argument `k` goes to input `k` and to no other.
pub struct Select3<A1, A2, A3, I1, I2, I3, O1, O2, O3, F, R> {
    selector: F,
    value: Option<R>,
    input1: I1,
    output1: Option<O1>,
    input2: I2,
    output2: Option<O2>,
    input3: I3,
    output3: Option<O3>,
    recomputed: Ghost<nat>,
    arguments: core::marker::PhantomData<(A1, A2, A3)>,
}

impl<A1, A2, A3, I1, I2, I3, O1, O2, O3, F, R> Select3<A1, A2, A3, I1, I2, I3, O1, O2, O3, F, R> {
    /// The first input selector, in its present state.
    pub closed spec fn input1(&self) -> I1 {
        self.input1
    }

    /// The second input selector, in its present state.
    pub closed spec fn input2(&self) -> I2 {
        self.input2
    }

    /// The third input selector, in its present state.
    pub closed spec fn input3(&self) -> I3 {
        self.input3
    }

    /// The combining function.
    pub closed spec fn combine(&self) -> F {
        self.selector
    }

    /// The first input's output that the cached result was computed from, if there is one.
    pub closed spec fn last_input1(&self) -> Option<O1> {
        self.output1
    }

    /// The second input's output that the cached result was computed from, if there is one.
    pub closed spec fn last_input2(&self) -> Option<O2> {
        self.output2
    }

    /// The third input's output that the cached result was computed from, if there is one.
    pub closed spec fn last_input3(&self) -> Option<O3> {
        self.output3
    }

    /// The cached result, if there is one.
    pub closed spec fn last_output(&self) -> Option<R> {
        self.value
    }

    /// How many times the node has run its combining function.
    pub closed spec fn recomputations(&self) -> nat {
        self.recomputed@
    }

    /// What the node remembers: the input outputs seen last, the result kept
    /// for them, and how often the combining function has run.
    pub open spec fn cache(&self) -> (Option<O1>, Option<O2>, Option<O3>, Option<R>, nat) {
        (
            self.last_input1(),
            self.last_input2(),
            self.last_input3(),
            self.last_output(),
            self.recomputations(),
        )
    }
}

/// Creates a new memoizing selector with a three input functions.
///
/// If the return value of `input1`, `input2` and `input3` doesn't change, `selector`
/// will not be reinvoked and a cached copy of the result will be returned instead.
pub fn new<A1, A2, A3, I1, I2, I3, O1, O2, O3, F, R>(
    input1: I1,
    input2: I2,
    input3: I3,
    selector: F,
) -> (node: Select3<A1, A2, A3, I1, I2, I3, O1, O2, O3, F, R>) where
    F: FnMut(&O1, &O2, &O3) -> R,
    I1: Selector1<A1, Output = O1>,
    O1: Clone + Eq,
    I2: Selector1<A2, Output = O2>,
    O2: Clone + Eq,
    I3: Selector1<A3, Output = O3>,
    O3: Clone + Eq,
    R: Clone,

    ensures
        node.input1() == input1,
        node.input2() == input2,
        node.input3() == input3,
        node.combine() == selector,
        node.cache() == (None::<O1>, None::<O2>, None::<O3>, None::<R>, 0nat),
        node.wf(),
{
    Select3 {
        selector,
        value: None,
        input1,
        output1: None,
        input2,
        output2: None,
        input3,
        output3: None,
        recomputed: Ghost(0),
        arguments: core::marker::PhantomData,
    }
}

impl<A1, A2, A3, F, I1, I2, I3, O1, O2, O3, R> Select3<
    A1,
    A2,
    A3,
    I1,
    I2,
    I3,
    O1,
    O2,
    O3,
    F,
    R,
> where
    F: FnMut(&O1, &O2, &O3) -> R,
    I1: Selector1<A1, Output = O1>,
    O1: Clone + Eq,
    I2: Selector1<A2, Output = O2>,
    O2: Clone + Eq,
    I3: Selector1<A3, Output = O3>,
    O3: Clone + Eq,
    R: Clone,
 {
    /// The cache is empty and nothing was computed yet, or it holds one
    /// output of each input together with a result that the combining
    /// function gave for them. No part of the cache is there without the others.
    pub open spec fn wf(&self) -> bool {
        match (self.last_input1(), self.last_input2(), self.last_input3(), self.last_output()) {
            (None, None, None, None) => self.recomputations() == 0,
            (Some(seen1), Some(seen2), Some(seen3), Some(kept)) => {
                &&& self.recomputations() > 0
                &&& call_ensures(self.combine(), (&seen1, &seen2, &seen3), kept)
            },
            _ => false,
        }
    }

    /// Whether each fresh input output equals the one in the cache. An empty
    /// cache equals nothing.
    pub open spec fn hit(&self, fresh1: O1, fresh2: O2, fresh3: O3) -> bool {
        match (self.last_input1(), self.last_input2(), self.last_input3()) {
            (Some(seen1), Some(seen2), Some(seen3)) => {
                &&& fresh1.eq_spec(&seen1)
                &&& fresh2.eq_spec(&seen2)
                &&& fresh3.eq_spec(&seen3)
            },
            _ => false,
        }
    }

    /// Whether `==` on input outputs is known to compute `eq_spec`, so that
    /// `hit` decides whether the cache is used.
    pub open spec fn comparable() -> bool {
        O1::obeys_eq_spec() && O2::obeys_eq_spec() && O3::obeys_eq_spec()
    }

    /// Whether the node may be queried with the arguments: each input accepts
    /// its argument, and the combining function accepts whatever the inputs
    /// may return and the cache does not answer.
    pub open spec fn accepts(&self, arg1: A1, arg2: A2, arg3: A3) -> bool {
        &&& self.wf()
        &&& self.input1().accepts(arg1)
        &&& self.input2().accepts(arg2)
        &&& self.input3().accepts(arg3)
        &&& forall|after1: I1, fresh1: O1, after2: I2, fresh2: O2, after3: I3, fresh3: O3|
            #![trigger
                self.input1().yields(arg1, &after1, fresh1),
                self.input2().yields(arg2, &after2, fresh2),
                self.input3().yields(arg3, &after3, fresh3),
            ]
            {
                &&& self.input1().yields(arg1, &after1, fresh1)
                &&& self.input2().yields(arg2, &after2, fresh2)
                &&& self.input3().yields(arg3, &after3, fresh3)
                &&& !(Self::comparable() && self.hit(fresh1, fresh2, fresh3))
            } ==> call_requires(self.combine(), (&fresh1, &fresh2, &fresh3))
    }

    /// One query, with the input outputs `fresh1`, `fresh2` and `fresh3`
    /// that it saw.
    ///
    /// All three inputs are queried once, each with its own argument. Where
    /// all outputs equal the cached ones the cache stays and the combining
    /// function does not run. Where any differs, the combining function runs
    /// once on the fresh outputs, and its result and all three outputs replace
    /// the cache together. Either way the caller gets a duplicate of the
    /// cached result, which stays in the node.
    pub open spec fn query(
        &self,
        arg1: A1,
        arg2: A2,
        arg3: A3,
        fresh1: O1,
        fresh2: O2,
        fresh3: O3,
        next: &Self,
        out: R,
    ) -> bool {
        let reused = next.recomputations() == self.recomputations();
        &&& self.wf()
        &&& next.wf()
        &&& self.input1().yields(arg1, &next.input1(), fresh1)
        &&& self.input2().yields(arg2, &next.input2(), fresh2)
        &&& self.input3().yields(arg3, &next.input3(), fresh3)
        &&& next.combine() == self.combine()
        &&& Self::comparable() ==> (reused <==> self.hit(fresh1, fresh2, fresh3))
        &&& if reused {
            &&& next.last_input1() == self.last_input1()
            &&& next.last_input2() == self.last_input2()
            &&& next.last_input3() == self.last_input3()
            &&& next.last_output() == self.last_output()
        } else {
            &&& next.recomputations() == self.recomputations() + 1
            &&& next.last_input1() == Some(fresh1)
            &&& next.last_input2() == Some(fresh2)
            &&& next.last_input3() == Some(fresh3)
            &&& call_ensures(self.combine(), (&fresh1, &fresh2, &fresh3), next.last_output().unwrap())
        }
        &&& next.last_output() is Some
        &&& cloned(next.last_output().unwrap(), out)
    }

    /// Whether a query with the arguments may return `out` and leave the node
    /// as `next`: `query`, for some outputs of the inputs.
    pub open spec fn yields(&self, arg1: A1, arg2: A2, arg3: A3, next: &Self, out: R) -> bool {
        exists|fresh1: O1, fresh2: O2, fresh3: O3|
            self.query(arg1, arg2, arg3, fresh1, fresh2, fresh3, next, out)
    }

    /// Whether the node computes a function of its arguments: the inputs are
    /// deterministic, the equality of input outputs is an equivalence, the
    /// combining function gives one result for all input outputs that are
    /// alike, and a duplicate of a result is that result.
    pub open spec fn deterministic(&self) -> bool {
        &&& self.input1().deterministic()
        &&& self.input2().deterministic()
        &&& self.input3().deterministic()
        &&& obeys_eq::<O1>()
        &&& obeys_eq::<O2>()
        &&& obeys_eq::<O3>()
        &&& forall|v1: O1, v2: O2, v3: O3, w1: O1, w2: O2, w3: O3, r: R, s: R|
            alike(v1, w1) && alike(v2, w2) && alike(v3, w3) && #[trigger] call_ensures(
                self.combine(),
                (&v1, &v2, &v3),
                r,
            ) && #[trigger] call_ensures(self.combine(), (&w1, &w2, &w3), s) ==> r == s
        &&& clone_is_exact::<R>()
    }

    /// What the combining function gives for the inputs' values, or for
    /// outputs alike them.
    pub open spec fn value(&self, arg1: A1, arg2: A2, arg3: A3) -> R {
        let v1 = self.input1().value(arg1);
        let v2 = self.input2().value(arg2);
        let v3 = self.input3().value(arg3);
        (choose|r: R, w1: O1, w2: O2, w3: O3|
            alike(v1, w1) && alike(v2, w2) && alike(v3, w3) && call_ensures(
                self.combine(),
                (&w1, &w2, &w3),
                r,
            )).0
    }

    /// Computes the value based on arguments arg1, arg2 and arg3.
    pub fn select(&mut self, arg1: A1, arg2: A2, arg3: A3) -> (out: R)
        requires
            old(self).accepts(arg1, arg2, arg3),
        ensures
            old(self).yields(arg1, arg2, arg3, final(self), out),
    {
        let fresh1 = self.input1.select(arg1);
        let fresh2 = self.input2.select(arg2);
        let fresh3 = self.input3.select(arg3);
        let ghost seen1 = fresh1;
        let ghost seen2 = fresh2;
        let ghost seen3 = fresh3;
        let reuse = match (&self.output1, &self.output2, &self.output3) {
            (Some(cached1), Some(cached2), Some(cached3)) => {
                fresh1 == *cached1 && fresh2 == *cached2 && fresh3 == *cached3
            },
            _ => false,
        };
        if !reuse {
            self.value = Some((self.selector)(&fresh1, &fresh2, &fresh3));
            self.output1 = Some(fresh1);
            self.output2 = Some(fresh2);
            self.output3 = Some(fresh3);
            proof {
                self.recomputed@ = self.recomputed@ + 1;
            }
        }
        let out = self.value.as_ref().unwrap().clone();
        assert(old(self).query(arg1, arg2, arg3, seen1, seen2, seen3, self, out));
        out
    }

    /// Seen through the selector trait, a node is what it is by itself. For
    /// callers that hold a node of known type, where the trait's functions do
    /// not unfold by themselves.
    pub proof fn lemma_as_selector(&self)
        ensures
            forall|arg1: A1, arg2: A2, arg3: A3| #[trigger]
                Selector3::accepts(self, arg1, arg2, arg3) == self.accepts(arg1, arg2, arg3),
            forall|arg1: A1, arg2: A2, arg3: A3, next: Self, out: R| #[trigger]
                Selector3::yields(self, arg1, arg2, arg3, &next, out) == self.yields(
                    arg1,
                    arg2,
                    arg3,
                    &next,
                    out,
                ),
            Selector3::deterministic(self) == self.deterministic(),
            forall|arg1: A1, arg2: A2, arg3: A3| #[trigger]
                Selector3::value(self, arg1, arg2, arg3) == self.value(arg1, arg2, arg3),
    {
    }

    /// Memoization. Of two queries in a row in which every input returns
    /// equal outputs, the second never runs the combining function: it
    /// answers from the cache that the first left. Over both queries the
    /// function runs at most once, and exactly once where it had never run
    /// before.
    pub proof fn lemma_memoized(
        &self,
        args_a: (A1, A2, A3),
        fresh_a: (O1, O2, O3),
        mid: &Self,
        out_a: R,
        args_b: (A1, A2, A3),
        fresh_b: (O1, O2, O3),
        end: &Self,
        out_b: R,
    )
        requires
            obeys_eq::<O1>(),
            obeys_eq::<O2>(),
            obeys_eq::<O3>(),
            self.query(args_a.0, args_a.1, args_a.2, fresh_a.0, fresh_a.1, fresh_a.2, mid, out_a),
            mid.query(args_b.0, args_b.1, args_b.2, fresh_b.0, fresh_b.1, fresh_b.2, end, out_b),
            fresh_b.0.eq_spec(&fresh_a.0),
            fresh_b.1.eq_spec(&fresh_a.1),
            fresh_b.2.eq_spec(&fresh_a.2),
        ensures
            end.cache() == mid.cache(),
            end.recomputations() <= self.recomputations() + 1,
            self.recomputations() == 0 ==> end.recomputations() == 1,
    {
        reveal(obeys_eq_spec_properties);
    }

    /// Recomputation on change. Of two queries in a row in which the outputs
    /// of at least one input differ, the second runs the combining function
    /// once more, on the fresh outputs, and caches them with the new result.
    pub proof fn lemma_recomputed(
        &self,
        args_a: (A1, A2, A3),
        fresh_a: (O1, O2, O3),
        mid: &Self,
        out_a: R,
        args_b: (A1, A2, A3),
        fresh_b: (O1, O2, O3),
        end: &Self,
        out_b: R,
    )
        requires
            obeys_eq::<O1>(),
            obeys_eq::<O2>(),
            obeys_eq::<O3>(),
            self.query(args_a.0, args_a.1, args_a.2, fresh_a.0, fresh_a.1, fresh_a.2, mid, out_a),
            mid.query(args_b.0, args_b.1, args_b.2, fresh_b.0, fresh_b.1, fresh_b.2, end, out_b),
            !fresh_b.0.eq_spec(&fresh_a.0) || !fresh_b.1.eq_spec(&fresh_a.1) || !fresh_b.2.eq_spec(
                &fresh_a.2,
            ),
        ensures
            end.recomputations() == mid.recomputations() + 1,
            end.last_input1() == Some(fresh_b.0),
            end.last_input2() == Some(fresh_b.1),
            end.last_input3() == Some(fresh_b.2),
            end.last_output() is Some,
            call_ensures(
                self.combine(),
                (&fresh_b.0, &fresh_b.1, &fresh_b.2),
                end.last_output().unwrap(),
            ),
    {
        reveal(obeys_eq_spec_properties);
    }

    /// Independence of the returned duplicate. What a query leaves in the
    /// node does not depend on the value handed to the caller: the same step
    /// holds with any other duplicate of the cached result in its place.
    pub proof fn lemma_result_independent(
        &self,
        args: (A1, A2, A3),
        fresh: (O1, O2, O3),
        next: &Self,
        out: R,
        other: R,
    )
        requires
            self.query(args.0, args.1, args.2, fresh.0, fresh.1, fresh.2, next, out),
            cloned(next.last_output().unwrap(), other),
        ensures
            self.query(args.0, args.1, args.2, fresh.0, fresh.1, fresh.2, next, other),
    {
    }

    /// Determinism. A deterministic node returns `value(arg1, arg2, arg3)`
    /// from any cache, and stays deterministic with the same values.
    pub proof fn lemma_deterministic(
        &self,
        arg1: A1,
        arg2: A2,
        arg3: A3,
        next: &Self,
        out: R,
    )
        requires
            self.deterministic(),
            self.yields(arg1, arg2, arg3, next, out),
        ensures
            out == self.value(arg1, arg2, arg3),
            next.deterministic(),
            forall|a1: A1, a2: A2, a3: A3| next.value(a1, a2, a3) == self.value(a1, a2, a3),
    {
        reveal(obeys_eq_spec_properties);
        let (fresh1, fresh2, fresh3) = choose|fresh1: O1, fresh2: O2, fresh3: O3|
            self.query(arg1, arg2, arg3, fresh1, fresh2, fresh3, next, out);
        self.input1().lemma_deterministic(arg1, &next.input1(), fresh1);
        self.input2().lemma_deterministic(arg2, &next.input2(), fresh2);
        self.input3().lemma_deterministic(arg3, &next.input3(), fresh3);
        let seen1 = next.last_input1().unwrap();
        let seen2 = next.last_input2().unwrap();
        let seen3 = next.last_input3().unwrap();
        let kept = next.last_output().unwrap();
        assert(alike(fresh1, seen1) && alike(fresh2, seen2) && alike(fresh3, seen3)
            && call_ensures(self.combine(), (&seen1, &seen2, &seen3), kept));
    }

    /// The value of a deterministic node is what the combining function gives
    /// for the inputs' values, or for any outputs alike them.
    pub proof fn lemma_value(&self, args: (A1, A2, A3), like: (O1, O2, O3), result: R)
        requires
            self.deterministic(),
            alike(self.input1().value(args.0), like.0),
            alike(self.input2().value(args.1), like.1),
            alike(self.input3().value(args.2), like.2),
            call_ensures(self.combine(), (&like.0, &like.1, &like.2), result),
        ensures
            self.value(args.0, args.1, args.2) == result,
    {
        reveal(obeys_eq_spec_properties);
        let v1 = self.input1().value(args.0);
        let v2 = self.input2().value(args.1);
        let v3 = self.input3().value(args.2);
        let (r, w1, w2, w3) = choose|r: R, w1: O1, w2: O2, w3: O3|
            alike(v1, w1) && alike(v2, w2) && alike(v3, w3) && call_ensures(
                self.combine(),
                (&w1, &w2, &w3),
                r,
            );
        assert(alike(w1, like.0) && alike(w2, like.1) && alike(w3, like.2));
    }

    /// Transparency of composition. Two deterministic nodes with the same
    /// combining function, over inputs of any kinds that have the same values
    /// for the arguments, return the same output, and from equal caches they
    /// come to equal caches: whether an input is a plain function or a node
    /// with a cache of its own cannot be told from outside.
    pub proof fn lemma_transparent<J1, J2, J3>(
        &self,
        args: (A1, A2, A3),
        next: &Self,
        out: R,
        twin: &Select3<A1, A2, A3, J1, J2, J3, O1, O2, O3, F, R>,
        twin_next: &Select3<A1, A2, A3, J1, J2, J3, O1, O2, O3, F, R>,
        twin_out: R,
    ) where
        J1: Selector1<A1, Output = O1>,
        J2: Selector1<A2, Output = O2>,
        J3: Selector1<A3, Output = O3>,

        requires
            self.deterministic(),
            twin.deterministic(),
            twin.combine() == self.combine(),
            twin.input1().value(args.0) == self.input1().value(args.0),
            twin.input2().value(args.1) == self.input2().value(args.1),
            twin.input3().value(args.2) == self.input3().value(args.2),
            self.yields(args.0, args.1, args.2, next, out),
            twin.yields(args.0, args.1, args.2, twin_next, twin_out),
        ensures
            twin_out == out,
            twin.cache() == self.cache() ==> twin_next.cache() == next.cache(),
    {
        reveal(obeys_eq_spec_properties);
        self.lemma_deterministic(args.0, args.1, args.2, next, out);
        twin.lemma_deterministic(args.0, args.1, args.2, twin_next, twin_out);
        let (fresh1, fresh2, fresh3) = choose|fresh1: O1, fresh2: O2, fresh3: O3|
            self.query(args.0, args.1, args.2, fresh1, fresh2, fresh3, next, out);
        let (twin_fresh1, twin_fresh2, twin_fresh3) = choose|fresh1: O1, fresh2: O2, fresh3: O3|
            twin.query(args.0, args.1, args.2, fresh1, fresh2, fresh3, twin_next, twin_out);
        self.input1().lemma_deterministic(args.0, &next.input1(), fresh1);
        self.input2().lemma_deterministic(args.1, &next.input2(), fresh2);
        self.input3().lemma_deterministic(args.2, &next.input3(), fresh3);
        twin.input1().lemma_deterministic(args.0, &twin_next.input1(), twin_fresh1);
        twin.input2().lemma_deterministic(args.1, &twin_next.input2(), twin_fresh2);
        twin.input3().lemma_deterministic(args.2, &twin_next.input3(), twin_fresh3);
    }
}

/// A node is a selector of three arguments.
impl<A1, A2, A3, F, I1, I2, I3, O1, O2, O3, R> Selector3<A1, A2, A3> for Select3<
    A1,
    A2,
    A3,
    I1,
    I2,
    I3,
    O1,
    O2,
    O3,
    F,
    R,
> where
    F: FnMut(&O1, &O2, &O3) -> R,
    I1: Selector1<A1, Output = O1>,
    O1: Clone + Eq,
    I2: Selector1<A2, Output = O2>,
    O2: Clone + Eq,
    I3: Selector1<A3, Output = O3>,
    O3: Clone + Eq,
    R: Clone,
 {
    type Output = R;

    open spec fn accepts(&self, arg1: A1, arg2: A2, arg3: A3) -> bool {
        Select3::accepts(self, arg1, arg2, arg3)
    }

    open spec fn yields(&self, arg1: A1, arg2: A2, arg3: A3, next: &Self, out: R) -> bool {
        Select3::yields(self, arg1, arg2, arg3, next, out)
    }

    open spec fn deterministic(&self) -> bool {
        Select3::deterministic(self)
    }

    open spec fn value(&self, arg1: A1, arg2: A2, arg3: A3) -> R {
        Select3::value(self, arg1, arg2, arg3)
    }

    fn select(&mut self, arg1: A1, arg2: A2, arg3: A3) -> (out: R) {
        Select3::select(self, arg1, arg2, arg3)
    }

    proof fn lemma_deterministic(
        &self,
        arg1: A1,
        arg2: A2,
        arg3: A3,
        next: &Self,
        out: R,
    ) {
        Select3::lemma_deterministic(self, arg1, arg2, arg3, next, out);
    }
}

} // verus!
