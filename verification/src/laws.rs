//! What holds of every selector: when a selector computes a function of its
//! arguments, and that such a selector answers equal queries equally.
use crate::Selector1;
use crate::Selector2;
use crate::Selector3;
use vstd::prelude::*;
use vstd::std_specs::cmp::PartialEqSpec;

verus! {

/// Whether duplicating a value of `R` gives back that very value.
pub open spec fn clone_is_exact<R: Clone>() -> bool {
    forall|a: R, b: R| cloned(a, b) ==> a == b
}

/// Whether `a` is `b`, or the equality of `T` takes `a` for `b`.
pub open spec fn alike<T: PartialEq>(a: T, b: T) -> bool {
    a == b || a.eq_spec(&b)
}

/// A callable of one argument seen as a selector: it is deterministic where
/// no argument has two results, and its value for an argument is any result
/// that a call may give. For callers that hold a callable of known type,
/// where the trait's functions do not unfold by themselves.
pub proof fn lemma_function1<A1, R, T: FnMut(A1) -> R>(f: T)
    ensures
        f.deterministic() <==> (forall|a1: A1, r1: R, r2: R|
            call_ensures(f, (a1,), r1) && call_ensures(f, (a1,), r2) ==> r1 == r2),
        forall|a1: A1, r: R|
            f.deterministic() && #[trigger] call_ensures(f, (a1,), r) ==> f.value(a1) == r,
{
}

/// A callable of two arguments seen as a selector: it is deterministic where
/// no arguments have two results, and its value for the arguments is any
/// result that a call may give. For callers that hold a callable of known
/// type, where the trait's functions do not unfold by themselves.
pub proof fn lemma_function2<A1, A2, R, T: FnMut(A1, A2) -> R>(f: T)
    ensures
        f.deterministic() <==> (forall|a1: A1, a2: A2, r1: R, r2: R|
            call_ensures(f, (a1, a2), r1) && call_ensures(f, (a1, a2), r2) ==> r1 == r2),
        forall|a1: A1, a2: A2, r: R|
            f.deterministic() && #[trigger] call_ensures(f, (a1, a2), r) ==> f.value(a1, a2)
                == r,
{
}

/// A callable of three arguments seen as a selector: it is deterministic
/// where no arguments have two results, and its value for the arguments is
/// any result that a call may give. For callers that hold a callable of known
/// type, where the trait's functions do not unfold by themselves.
pub proof fn lemma_function3<A1, A2, A3, R, T: FnMut(A1, A2, A3) -> R>(f: T)
    ensures
        f.deterministic() <==> (forall|a1: A1, a2: A2, a3: A3, r1: R, r2: R|
            call_ensures(f, (a1, a2, a3), r1) && call_ensures(f, (a1, a2, a3), r2) ==> r1
                == r2),
        forall|a1: A1, a2: A2, a3: A3, r: R|
            f.deterministic() && #[trigger] call_ensures(f, (a1, a2, a3), r) ==> f.value(
                a1,
                a2,
                a3,
            ) == r,
{
}

/// Whether `outs` are the outputs of a selector of one argument that is
/// queried with `args` one after the other, and passes through `states`.
pub open spec fn is_run1<A, S: Selector1<A>>(
    states: Seq<S>,
    args: Seq<A>,
    outs: Seq<S::Output>,
) -> bool {
    &&& states.len() == args.len() + 1
    &&& outs.len() == args.len()
    &&& forall|i: int|
        #![trigger args[i]]
        0 <= i < args.len() ==> states[i].yields(args[i], &states[i + 1], outs[i])
}

/// Whether `outs` are the outputs of a selector of two arguments that is
/// queried with `args` one after the other, and passes through `states`.
pub open spec fn is_run2<A1, A2, S: Selector2<A1, A2>>(
    states: Seq<S>,
    args: Seq<(A1, A2)>,
    outs: Seq<S::Output>,
) -> bool {
    &&& states.len() == args.len() + 1
    &&& outs.len() == args.len()
    &&& forall|i: int|
        #![trigger args[i]]
        0 <= i < args.len() ==> states[i].yields(args[i].0, args[i].1, &states[i + 1], outs[i])
}

/// Whether `outs` are the outputs of a selector of three arguments that is
/// queried with `args` one after the other, and passes through `states`.
pub open spec fn is_run3<A1, A2, A3, S: Selector3<A1, A2, A3>>(
    states: Seq<S>,
    args: Seq<(A1, A2, A3)>,
    outs: Seq<S::Output>,
) -> bool {
    &&& states.len() == args.len() + 1
    &&& outs.len() == args.len()
    &&& forall|i: int|
        #![trigger args[i]]
        0 <= i < args.len() ==> states[i].yields(
            args[i].0,
            args[i].1,
            args[i].2,
            &states[i + 1],
            outs[i],
        )
}

/// A deterministic selector of one argument stays deterministic through any
/// run of queries, with the values it had at the start.
pub proof fn lemma_run_keeps_values1<A, S: Selector1<A>>(
    states: Seq<S>,
    args: Seq<A>,
    outs: Seq<S::Output>,
    k: int,
)
    requires
        is_run1(states, args, outs),
        states[0].deterministic(),
        0 <= k <= args.len(),
    ensures
        states[k].deterministic(),
        forall|a: A| states[k].value(a) == states[0].value(a),
    decreases k,
{
    if k > 0 {
        lemma_run_keeps_values1(states, args, outs, k - 1);
        let arg = args[k - 1];
        states[k - 1].lemma_deterministic(arg, &states[k], outs[k - 1]);
    }
}

/// A deterministic selector of two arguments stays deterministic through any
/// run of queries, with the values it had at the start.
pub proof fn lemma_run_keeps_values2<A1, A2, S: Selector2<A1, A2>>(
    states: Seq<S>,
    args: Seq<(A1, A2)>,
    outs: Seq<S::Output>,
    k: int,
)
    requires
        is_run2(states, args, outs),
        states[0].deterministic(),
        0 <= k <= args.len(),
    ensures
        states[k].deterministic(),
        forall|a1: A1, a2: A2| states[k].value(a1, a2) == states[0].value(a1, a2),
    decreases k,
{
    if k > 0 {
        lemma_run_keeps_values2(states, args, outs, k - 1);
        let arg = args[k - 1];
        states[k - 1].lemma_deterministic(arg.0, arg.1, &states[k], outs[k - 1]);
    }
}

/// A deterministic selector of three arguments stays deterministic through
/// any run of queries, with the values it had at the start.
pub proof fn lemma_run_keeps_values3<A1, A2, A3, S: Selector3<A1, A2, A3>>(
    states: Seq<S>,
    args: Seq<(A1, A2, A3)>,
    outs: Seq<S::Output>,
    k: int,
)
    requires
        is_run3(states, args, outs),
        states[0].deterministic(),
        0 <= k <= args.len(),
    ensures
        states[k].deterministic(),
        forall|a1: A1, a2: A2, a3: A3| states[k].value(a1, a2, a3) == states[0].value(a1, a2, a3),
    decreases k,
{
    if k > 0 {
        lemma_run_keeps_values3(states, args, outs, k - 1);
        let arg = args[k - 1];
        states[k - 1].lemma_deterministic(arg.0, arg.1, arg.2, &states[k], outs[k - 1]);
    }
}

/// Determinism. In any run of queries to a deterministic selector of one
/// argument, from whatever state, two queries with the same argument return
/// the same output: the selector's value for that argument.
pub proof fn lemma_repeatable1<A, S: Selector1<A>>(
    states: Seq<S>,
    args: Seq<A>,
    outs: Seq<S::Output>,
    i: int,
    j: int,
)
    requires
        is_run1(states, args, outs),
        states[0].deterministic(),
        0 <= i < args.len(),
        0 <= j < args.len(),
        args[i] == args[j],
    ensures
        outs[i] == outs[j],
        outs[i] == states[0].value(args[i]),
{
    lemma_run_keeps_values1(states, args, outs, i);
    lemma_run_keeps_values1(states, args, outs, j);
    states[i].lemma_deterministic(args[i], &states[i + 1], outs[i]);
    states[j].lemma_deterministic(args[j], &states[j + 1], outs[j]);
}

/// Determinism. In any run of queries to a deterministic selector of two
/// arguments, from whatever state, two queries with the same arguments
/// return the same output: the selector's value for those arguments.
pub proof fn lemma_repeatable2<A1, A2, S: Selector2<A1, A2>>(
    states: Seq<S>,
    args: Seq<(A1, A2)>,
    outs: Seq<S::Output>,
    i: int,
    j: int,
)
    requires
        is_run2(states, args, outs),
        states[0].deterministic(),
        0 <= i < args.len(),
        0 <= j < args.len(),
        args[i] == args[j],
    ensures
        outs[i] == outs[j],
        outs[i] == states[0].value(args[i].0, args[i].1),
{
    lemma_run_keeps_values2(states, args, outs, i);
    lemma_run_keeps_values2(states, args, outs, j);
    states[i].lemma_deterministic(args[i].0, args[i].1, &states[i + 1], outs[i]);
    states[j].lemma_deterministic(args[j].0, args[j].1, &states[j + 1], outs[j]);
}

/// Determinism. In any run of queries to a deterministic selector of three
/// arguments, from whatever state, two queries with the same arguments
/// return the same output: the selector's value for those arguments.
pub proof fn lemma_repeatable3<A1, A2, A3, S: Selector3<A1, A2, A3>>(
    states: Seq<S>,
    args: Seq<(A1, A2, A3)>,
    outs: Seq<S::Output>,
    i: int,
    j: int,
)
    requires
        is_run3(states, args, outs),
        states[0].deterministic(),
        0 <= i < args.len(),
        0 <= j < args.len(),
        args[i] == args[j],
    ensures
        outs[i] == outs[j],
        outs[i] == states[0].value(args[i].0, args[i].1, args[i].2),
{
    lemma_run_keeps_values3(states, args, outs, i);
    lemma_run_keeps_values3(states, args, outs, j);
    states[i].lemma_deterministic(args[i].0, args[i].1, args[i].2, &states[i + 1], outs[i]);
    states[j].lemma_deterministic(args[j].0, args[j].1, args[j].2, &states[j + 1], outs[j]);
}

} // verus!
