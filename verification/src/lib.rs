//! Composable memoizing selectors.
//!
//! A selector maps a fixed tuple of arguments to one output. Plain callables
//! are selectors, and so are the memoizing nodes built by [`new1`], [`new2`]
//! and [`new3`]: a node owns its input selectors and a combining function,
//! keeps the input outputs it saw last together with the result computed from
//! them, and runs the combining function again only when an input output has
//! changed. Nodes nest: a node of one argument can feed any other node.
//!
//! Every selector carries two descriptions of itself. The relational one
//! (`accepts`, `yields`) says which queries are allowed and what a query may
//! return and leave behind; it holds of every selector, pure or not. The
//! functional one (`deterministic`, `value`) singles out the selectors whose
//! result depends on the arguments alone, and names that result.
//!
//! ## Example
//! ```rust
//! use memselect::{new1, new2};
//!
//! let mut computations = 0;
//!
//! {
//!     let base = new1(|num: u32| num, |num: &u32| num * 2);
//!
//!     let mut selector = new2(
//!         base, // a node is an input like any other
//!         |num: u32| num * 3,
//!         |num1: &u32, num2: &u32| {
//!             computations += 1;
//!             (*num1, *num2)
//!         },
//!     );
//!
//!     assert_eq!(selector.select(2, 3), (4, 9));
//!     assert_eq!(selector.select(2, 3), (4, 9));
//! }
//!
//! // The pair was put together once.
//! assert_eq!(computations, 1);
//! ```
use vstd::prelude::*;

mod laws;
mod select1;
mod select2;
mod select3;

pub use laws::{
    alike, clone_is_exact, is_run1, is_run2, is_run3, lemma_function1, lemma_function2,
    lemma_function3, lemma_repeatable1, lemma_repeatable2, lemma_repeatable3,
    lemma_run_keeps_values1, lemma_run_keeps_values2, lemma_run_keeps_values3,
};
pub use select1::{new as new1, Select1};
pub use select2::{new as new2, Select2};
pub use select3::{new as new3, Select3};

verus! {

/// A selector accepting a single parameter.
pub trait Selector1<A> {
    /// The type of the computed value.
    type Output;

    /// Whether the selector may be queried with `arg` in its present state.
    spec fn accepts(&self, arg: A) -> bool;

    /// Whether a query with `arg` may return `out` and leave the selector as `next`.
    spec fn yields(&self, arg: A, next: &Self, out: Self::Output) -> bool;

    /// Whether what a query returns depends on the argument alone, now and
    /// after any number of queries.
    spec fn deterministic(&self) -> bool;

    /// The output for `arg`, meaningful where the selector is `deterministic`.
    spec fn value(&self, arg: A) -> Self::Output;

    /// Computes the value based on argument arg1.
    fn select(&mut self, arg1: A) -> (out: Self::Output)
        requires
            old(self).accepts(arg1),
        ensures
            old(self).yields(arg1, final(self), out),
    ;

    /// A deterministic selector returns `value(arg)` and stays deterministic
    /// with the same values, whatever the query did to its state.
    proof fn lemma_deterministic(&self, arg: A, next: &Self, out: Self::Output)
        requires
            self.deterministic(),
            self.yields(arg, next, out),
        ensures
            out == self.value(arg),
            next.deterministic(),
            forall|a: A| next.value(a) == self.value(a),
    ;
}

/// A selector accepting two parameters.
pub trait Selector2<A1, A2> {
    /// The type of the computed value.
    type Output;

    /// Whether the selector may be queried with the arguments in its present state.
    spec fn accepts(&self, arg1: A1, arg2: A2) -> bool;

    /// Whether a query with the arguments may return `out` and leave the selector as `next`.
    spec fn yields(&self, arg1: A1, arg2: A2, next: &Self, out: Self::Output) -> bool;

    /// Whether what a query returns depends on the arguments alone, now and
    /// after any number of queries.
    spec fn deterministic(&self) -> bool;

    /// The output for the arguments, meaningful where the selector is `deterministic`.
    spec fn value(&self, arg1: A1, arg2: A2) -> Self::Output;

    /// Computes the value based on arguments arg1 and arg2.
    fn select(&mut self, arg1: A1, arg2: A2) -> (out: Self::Output)
        requires
            old(self).accepts(arg1, arg2),
        ensures
            old(self).yields(arg1, arg2, final(self), out),
    ;

    /// A deterministic selector returns `value(arg1, arg2)` and stays
    /// deterministic with the same values, whatever the query did to its state.
    proof fn lemma_deterministic(&self, arg1: A1, arg2: A2, next: &Self, out: Self::Output)
        requires
            self.deterministic(),
            self.yields(arg1, arg2, next, out),
        ensures
            out == self.value(arg1, arg2),
            next.deterministic(),
            forall|a1: A1, a2: A2| next.value(a1, a2) == self.value(a1, a2),
    ;
}

/// A selector accepting three parameters.
pub trait Selector3<A1, A2, A3> {
    /// The type of the computed value.
    type Output;

    /// Whether the selector may be queried with the arguments in its present state.
    spec fn accepts(&self, arg1: A1, arg2: A2, arg3: A3) -> bool;

    /// Whether a query with the arguments may return `out` and leave the selector as `next`.
    spec fn yields(&self, arg1: A1, arg2: A2, arg3: A3, next: &Self, out: Self::Output) -> bool;

    /// Whether what a query returns depends on the arguments alone, now and
    /// after any number of queries.
    spec fn deterministic(&self) -> bool;

    /// The output for the arguments, meaningful where the selector is `deterministic`.
    spec fn value(&self, arg1: A1, arg2: A2, arg3: A3) -> Self::Output;

    /// Computes the value based on arguments arg1, arg2 and arg3.
    fn select(&mut self, arg1: A1, arg2: A2, arg3: A3) -> (out: Self::Output)
        requires
            old(self).accepts(arg1, arg2, arg3),
        ensures
            old(self).yields(arg1, arg2, arg3, final(self), out),
    ;

    /// A deterministic selector returns `value(arg1, arg2, arg3)` and stays
    /// deterministic with the same values, whatever the query did to its state.
    proof fn lemma_deterministic(
        &self,
        arg1: A1,
        arg2: A2,
        arg3: A3,
        next: &Self,
        out: Self::Output,
    )
        requires
            self.deterministic(),
            self.yields(arg1, arg2, arg3, next, out),
        ensures
            out == self.value(arg1, arg2, arg3),
            next.deterministic(),
            forall|a1: A1, a2: A2, a3: A3| next.value(a1, a2, a3) == self.value(a1, a2, a3),
    ;
}

/// Any callable of one argument is a selector: a query is one call, which
/// leaves the callable as it was.
impl<A1, R, T: FnMut(A1) -> R> Selector1<A1> for T {
    type Output = R;

    open spec fn accepts(&self, arg: A1) -> bool {
        call_requires(*self, (arg,))
    }

    open spec fn yields(&self, arg: A1, next: &Self, out: R) -> bool {
        &&& call_ensures(*self, (arg,), out)
        &&& *next == *self
    }

    open spec fn deterministic(&self) -> bool {
        forall|a: A1, r1: R, r2: R|
            call_ensures(*self, (a,), r1) && call_ensures(*self, (a,), r2) ==> r1 == r2
    }

    open spec fn value(&self, arg: A1) -> R {
        choose|r: R| call_ensures(*self, (arg,), r)
    }

    #[inline]
    fn select(&mut self, arg1: A1) -> (out: R) {
        (self)(arg1)
    }

    proof fn lemma_deterministic(&self, arg: A1, next: &Self, out: R) {
    }
}

/// Any callable of two arguments is a selector: a query is one call, which
/// leaves the callable as it was.
impl<A1, A2, R, T: FnMut(A1, A2) -> R> Selector2<A1, A2> for T {
    type Output = R;

    open spec fn accepts(&self, arg1: A1, arg2: A2) -> bool {
        call_requires(*self, (arg1, arg2))
    }

    open spec fn yields(&self, arg1: A1, arg2: A2, next: &Self, out: R) -> bool {
        &&& call_ensures(*self, (arg1, arg2), out)
        &&& *next == *self
    }

    open spec fn deterministic(&self) -> bool {
        forall|a1: A1, a2: A2, r1: R, r2: R|
            call_ensures(*self, (a1, a2), r1) && call_ensures(*self, (a1, a2), r2) ==> r1 == r2
    }

    open spec fn value(&self, arg1: A1, arg2: A2) -> R {
        choose|r: R| call_ensures(*self, (arg1, arg2), r)
    }

    #[inline]
    fn select(&mut self, arg1: A1, arg2: A2) -> (out: R) {
        (self)(arg1, arg2)
    }

    proof fn lemma_deterministic(&self, arg1: A1, arg2: A2, next: &Self, out: R) {
    }
}

/// Any callable of three arguments is a selector: a query is one call, which
/// leaves the callable as it was.
impl<A1, A2, A3, R, T: FnMut(A1, A2, A3) -> R> Selector3<A1, A2, A3> for T {
    type Output = R;

    open spec fn accepts(&self, arg1: A1, arg2: A2, arg3: A3) -> bool {
        call_requires(*self, (arg1, arg2, arg3))
    }

    open spec fn yields(&self, arg1: A1, arg2: A2, arg3: A3, next: &Self, out: R) -> bool {
        &&& call_ensures(*self, (arg1, arg2, arg3), out)
        &&& *next == *self
    }

    open spec fn deterministic(&self) -> bool {
        forall|a1: A1, a2: A2, a3: A3, r1: R, r2: R|
            call_ensures(*self, (a1, a2, a3), r1) && call_ensures(*self, (a1, a2, a3), r2)
                ==> r1 == r2
    }

    open spec fn value(&self, arg1: A1, arg2: A2, arg3: A3) -> R {
        choose|r: R| call_ensures(*self, (arg1, arg2, arg3), r)
    }

    #[inline]
    fn select(&mut self, arg1: A1, arg2: A2, arg3: A3) -> (out: R) {
        (self)(arg1, arg2, arg3)
    }

    proof fn lemma_deterministic(
        &self,
        arg1: A1,
        arg2: A2,
        arg3: A3,
        next: &Self,
        out: R,
    ) {
    }
}

} // verus!
