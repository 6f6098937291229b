use crate::bindings::{bind_all, forwarded, lemma_bind_all, Bindings};
use crate::host::{callable_eq_answers, callv_returns, host_callv, takes_at_most, variant_eq_answers};
use godot::builtin::{Callable, Variant};
use vstd::prelude::*;

verus! {

/// A callable that takes a known number of arguments, `ARGC`.
///
/// It pairs a host callable with the trailing arguments that binding has fixed on it. Invoking
/// it with `ARGC` arguments invokes the host callable once, with those arguments followed by
/// the bound ones.
#[derive(Clone, Debug)]
pub struct CallableStatic<const ARGC: usize> {
    /// The host callable that every invocation reaches.
    pub callable: Callable,
    /// The trailing arguments appended to every invocation.
    pub bindings: Bindings<Variant>,
}

/// That `r` may be what the host returns when a handle on `callable` with bindings `bound` is
/// invoked with `args`: one host call whose arguments are, one by one, clones of `args`
/// followed by `bound`.
pub open spec fn host_result(
    callable: Callable,
    args: Seq<Variant>,
    bound: Seq<Variant>,
    r: Variant,
) -> bool {
    exists|all: Seq<Variant>|
        all.len() == forwarded(args, bound).len() && (forall|i: int|
            0 <= i < all.len() ==> vstd::pervasive::cloned(forwarded(args, bound)[i], #[trigger] all[i]))
            && #[trigger] callv_returns(callable, all, r)
}

/// That every comparison made by `==` on two handles answered "equal": the host callables,
/// then the bound values one by one.
pub open spec fn compared_equal<const ARGC: usize>(
    a: &CallableStatic<ARGC>,
    b: &CallableStatic<ARGC>,
) -> bool {
    &&& callable_eq_answers(a.callable, b.callable, true)
    &&& a.bindings@.len() == b.bindings@.len()
    &&& forall|i: int|
        0 <= i < a.bindings@.len() ==> #[trigger] variant_eq_answers(
            a.bindings@[i],
            b.bindings@[i],
            true,
        )
}

/// That some comparison made by `==` on two handles answered "different", or the numbers of
/// bound values differ.
pub open spec fn compared_different<const ARGC: usize>(
    a: &CallableStatic<ARGC>,
    b: &CallableStatic<ARGC>,
) -> bool {
    ||| callable_eq_answers(a.callable, b.callable, false)
    ||| a.bindings@.len() != b.bindings@.len()
    ||| exists|i: int|
        0 <= i < a.bindings@.len() && #[trigger] variant_eq_answers(
            a.bindings@[i],
            b.bindings@[i],
            false,
        )
}

impl<const ARGC: usize> CallableStatic<ARGC> {
    /// The handle's invariant: its host callable expects no more arguments than it receives
    /// from an invocation, the `ARGC` open ones and the bound ones.
    pub open spec fn wf(&self) -> bool {
        takes_at_most(self.callable, ARGC + self.bindings@.len())
    }

    /// A handle on `callable`, taken to accept exactly `ARGC` arguments, with nothing bound.
    pub fn from_callable(callable: Callable) -> (r: Self)
        ensures
            r.callable == callable,
            r.bindings@ == Seq::<Variant>::empty(),
            r.wf() == takes_at_most(callable, ARGC as int),
    {
        CallableStatic { callable, bindings: Bindings::new() }
    }

    /// The arguments that the host callable receives when this handle is invoked with `args`.
    pub fn arguments(&self, args: Vec<Variant>) -> (r: Vec<Variant>)
        ensures
            r@.len() == forwarded(args@, self.bindings@).len(),
            forall|i: int|
                0 <= i < r@.len() ==> vstd::pervasive::cloned(
                    forwarded(args@, self.bindings@)[i],
                    #[trigger] r@[i],
                ),
    {
        self.bindings.forward(args)
    }

    /// One host call with `args` followed by the bound arguments; its result is returned.
    fn invoke(&self, args: Vec<Variant>) -> (r: Variant)
        requires
            self.wf(),
            args@.len() == ARGC,
        ensures
            host_result(self.callable, args@, self.bindings@, r),
    {
        let ghost open_args = args@;
        let all = self.arguments(args);
        let r = host_callv(&self.callable, all);
        assert(all@.len() == forwarded(open_args, self.bindings@).len() && (forall|i: int|
            0 <= i < all@.len() ==> vstd::pervasive::cloned(
                forwarded(open_args, self.bindings@)[i],
                #[trigger] all@[i],
            )) && callv_returns(self.callable, all@, r));
        r
    }

    /// The handle of one arity less whose invocations pass `arg` in this handle's last slot.
    pub(crate) fn bind_last<const REST: usize>(self, arg: Variant) -> (r: CallableStatic<REST>)
        requires
            REST + 1 == ARGC,
        ensures
            r.callable == self.callable,
            r.bindings@ == seq![arg] + self.bindings@,
            r.wf() == self.wf(),
    {
        CallableStatic { callable: self.callable, bindings: self.bindings.bind(arg) }
    }
}

impl<const ARGC: usize> From<Callable> for CallableStatic<ARGC> {
    fn from(callable: Callable) -> (r: Self)
        ensures
            r.callable == callable,
            r.bindings@ == Seq::<Variant>::empty(),
    {
        CallableStatic::from_callable(callable)
    }
}

impl<const ARGC: usize> vstd::std_specs::convert::FromSpecImpl<Callable> for CallableStatic<ARGC> {
    // Two handles with equal views may still differ in the vector that holds their bindings,
    // so the conversion is described by the ensures of `from` alone.
    open spec fn obeys_from_spec() -> bool {
        false
    }

    open spec fn from_spec(callable: Callable) -> Self {
        vstd::pervasive::arbitrary()
    }
}

impl CallableStatic<0> {
    /// Call the underlying callable with no argument of its own.
    pub fn call(&self) -> (r: Variant)
        requires
            self.wf(),
        ensures
            host_result(self.callable, Seq::empty(), self.bindings@, r),
    {
        self.invoke(Vec::new())
    }
}

impl CallableStatic<1> {
    /// A copy of this callable with its last argument bound to `arg`.
    pub fn bind(self, arg: Variant) -> (r: CallableStatic<0>)
        ensures
            r.callable == self.callable,
            r.bindings@ == seq![arg] + self.bindings@,
            r.wf() == self.wf(),
    {
        self.bind_last(arg)
    }

    /// Call the underlying callable with 1 argument.
    pub fn call(&self, arg1: Variant) -> (r: Variant)
        requires
            self.wf(),
        ensures
            host_result(self.callable, seq![arg1], self.bindings@, r),
    {
        self.invoke(vec![arg1])
    }
}

impl CallableStatic<2> {
    /// A copy of this callable with its last argument bound to `arg`.
    pub fn bind(self, arg: Variant) -> (r: CallableStatic<1>)
        ensures
            r.callable == self.callable,
            r.bindings@ == seq![arg] + self.bindings@,
            r.wf() == self.wf(),
    {
        self.bind_last(arg)
    }

    /// Call the underlying callable with 2 arguments.
    pub fn call(&self, arg1: Variant, arg2: Variant) -> (r: Variant)
        requires
            self.wf(),
        ensures
            host_result(self.callable, seq![arg1, arg2], self.bindings@, r),
    {
        self.invoke(vec![arg1, arg2])
    }
}

impl CallableStatic<3> {
    /// A copy of this callable with its last argument bound to `arg`.
    pub fn bind(self, arg: Variant) -> (r: CallableStatic<2>)
        ensures
            r.callable == self.callable,
            r.bindings@ == seq![arg] + self.bindings@,
            r.wf() == self.wf(),
    {
        self.bind_last(arg)
    }

    /// Call the underlying callable with 3 arguments.
    pub fn call(&self, arg1: Variant, arg2: Variant, arg3: Variant) -> (r: Variant)
        requires
            self.wf(),
        ensures
            host_result(self.callable, seq![arg1, arg2, arg3], self.bindings@, r),
    {
        self.invoke(vec![arg1, arg2, arg3])
    }
}

impl CallableStatic<4> {
    /// A copy of this callable with its last argument bound to `arg`.
    pub fn bind(self, arg: Variant) -> (r: CallableStatic<3>)
        ensures
            r.callable == self.callable,
            r.bindings@ == seq![arg] + self.bindings@,
            r.wf() == self.wf(),
    {
        self.bind_last(arg)
    }

    /// Call the underlying callable with 4 arguments.
    pub fn call(&self, arg1: Variant, arg2: Variant, arg3: Variant, arg4: Variant) -> (r: Variant)
        requires
            self.wf(),
        ensures
            host_result(self.callable, seq![arg1, arg2, arg3, arg4], self.bindings@, r),
    {
        self.invoke(vec![arg1, arg2, arg3, arg4])
    }
}

impl CallableStatic<5> {
    /// A copy of this callable with its last argument bound to `arg`.
    pub fn bind(self, arg: Variant) -> (r: CallableStatic<4>)
        ensures
            r.callable == self.callable,
            r.bindings@ == seq![arg] + self.bindings@,
            r.wf() == self.wf(),
    {
        self.bind_last(arg)
    }

    /// Call the underlying callable with 5 arguments.
    pub fn call(&self, arg1: Variant, arg2: Variant, arg3: Variant, arg4: Variant, arg5: Variant) -> (r: Variant)
        requires
            self.wf(),
        ensures
            host_result(self.callable, seq![arg1, arg2, arg3, arg4, arg5], self.bindings@, r),
    {
        self.invoke(vec![arg1, arg2, arg3, arg4, arg5])
    }
}

impl CallableStatic<6> {
    /// A copy of this callable with its last argument bound to `arg`.
    pub fn bind(self, arg: Variant) -> (r: CallableStatic<5>)
        ensures
            r.callable == self.callable,
            r.bindings@ == seq![arg] + self.bindings@,
            r.wf() == self.wf(),
    {
        self.bind_last(arg)
    }

    /// Call the underlying callable with 6 arguments.
    pub fn call(&self, arg1: Variant, arg2: Variant, arg3: Variant, arg4: Variant, arg5: Variant, arg6: Variant) -> (r: Variant)
        requires
            self.wf(),
        ensures
            host_result(self.callable, seq![arg1, arg2, arg3, arg4, arg5, arg6], self.bindings@, r),
    {
        self.invoke(vec![arg1, arg2, arg3, arg4, arg5, arg6])
    }
}

impl CallableStatic<7> {
    /// A copy of this callable with its last argument bound to `arg`.
    pub fn bind(self, arg: Variant) -> (r: CallableStatic<6>)
        ensures
            r.callable == self.callable,
            r.bindings@ == seq![arg] + self.bindings@,
            r.wf() == self.wf(),
    {
        self.bind_last(arg)
    }

    /// Call the underlying callable with 7 arguments.
    pub fn call(&self, arg1: Variant, arg2: Variant, arg3: Variant, arg4: Variant, arg5: Variant, arg6: Variant, arg7: Variant) -> (r: Variant)
        requires
            self.wf(),
        ensures
            host_result(self.callable, seq![arg1, arg2, arg3, arg4, arg5, arg6, arg7], self.bindings@, r),
    {
        self.invoke(vec![arg1, arg2, arg3, arg4, arg5, arg6, arg7])
    }
}

impl CallableStatic<8> {
    /// A copy of this callable with its last argument bound to `arg`.
    pub fn bind(self, arg: Variant) -> (r: CallableStatic<7>)
        ensures
            r.callable == self.callable,
            r.bindings@ == seq![arg] + self.bindings@,
            r.wf() == self.wf(),
    {
        self.bind_last(arg)
    }

    /// Call the underlying callable with 8 arguments.
    pub fn call(&self, arg1: Variant, arg2: Variant, arg3: Variant, arg4: Variant, arg5: Variant, arg6: Variant, arg7: Variant, arg8: Variant) -> (r: Variant)
        requires
            self.wf(),
        ensures
            host_result(self.callable, seq![arg1, arg2, arg3, arg4, arg5, arg6, arg7, arg8], self.bindings@, r),
    {
        self.invoke(vec![arg1, arg2, arg3, arg4, arg5, arg6, arg7, arg8])
    }
}

impl CallableStatic<9> {
    /// A copy of this callable with its last argument bound to `arg`.
    pub fn bind(self, arg: Variant) -> (r: CallableStatic<8>)
        ensures
            r.callable == self.callable,
            r.bindings@ == seq![arg] + self.bindings@,
            r.wf() == self.wf(),
    {
        self.bind_last(arg)
    }

    /// Call the underlying callable with 9 arguments.
    pub fn call(&self, arg1: Variant, arg2: Variant, arg3: Variant, arg4: Variant, arg5: Variant, arg6: Variant, arg7: Variant, arg8: Variant, arg9: Variant) -> (r: Variant)
        requires
            self.wf(),
        ensures
            host_result(self.callable, seq![arg1, arg2, arg3, arg4, arg5, arg6, arg7, arg8, arg9], self.bindings@, r),
    {
        self.invoke(vec![arg1, arg2, arg3, arg4, arg5, arg6, arg7, arg8, arg9])
    }
}

impl CallableStatic<10> {
    /// A copy of this callable with its last argument bound to `arg`.
    pub fn bind(self, arg: Variant) -> (r: CallableStatic<9>)
        ensures
            r.callable == self.callable,
            r.bindings@ == seq![arg] + self.bindings@,
            r.wf() == self.wf(),
    {
        self.bind_last(arg)
    }

    /// Call the underlying callable with 10 arguments.
    pub fn call(&self, arg1: Variant, arg2: Variant, arg3: Variant, arg4: Variant, arg5: Variant, arg6: Variant, arg7: Variant, arg8: Variant, arg9: Variant, arg10: Variant) -> (r: Variant)
        requires
            self.wf(),
        ensures
            host_result(self.callable, seq![arg1, arg2, arg3, arg4, arg5, arg6, arg7, arg8, arg9, arg10], self.bindings@, r),
    {
        self.invoke(vec![arg1, arg2, arg3, arg4, arg5, arg6, arg7, arg8, arg9, arg10])
    }
}

impl<const ARGC: usize> PartialEq for CallableStatic<ARGC> {
    /// Equal when the host callables compare equal and so do the bound values, one by one.
    fn eq(&self, other: &Self) -> (r: bool)
        ensures
            r ==> compared_equal(self, other),
            !r ==> compared_different(self, other),
    {
        if !self.callable.eq(&other.callable) {
            return false;
        }
        let n = self.bindings.values.len();
        if n != other.bindings.values.len() {
            return false;
        }
        let mut i: usize = 0;
        while i < n
            invariant
                n == self.bindings@.len(),
                n == other.bindings@.len(),
                i <= n,
                callable_eq_answers(self.callable, other.callable, true),
                forall|j: int|
                    0 <= j < i ==> #[trigger] variant_eq_answers(
                        self.bindings@[j],
                        other.bindings@[j],
                        true,
                    ),
            decreases n - i,
        {
            if !self.bindings.values[i].eq(&other.bindings.values[i]) {
                assert(variant_eq_answers(self.bindings@[i as int], other.bindings@[i as int], false));
                return false;
            }
            i = i + 1;
        }
        true
    }
}

impl<const ARGC: usize> vstd::std_specs::cmp::PartialEqSpecImpl for CallableStatic<ARGC> {
    // The host answers comparisons as a relation, so `==` is described by the ensures of
    // `eq` alone.
    open spec fn obeys_eq_spec() -> bool {
        false
    }

    open spec fn eq_spec(&self, other: &Self) -> bool {
        vstd::pervasive::arbitrary()
    }
}

/// Invoking a handle made by `bind(v)` with `args` is invoking the original handle with `args`
/// followed by `v`: any result of the one is a result of the other.
pub proof fn lemma_bound_call(
    callable: Callable,
    bound: Seq<Variant>,
    v: Variant,
    args: Seq<Variant>,
    r: Variant,
)
    ensures
        host_result(callable, args, seq![v] + bound, r) == host_result(
            callable,
            args.push(v),
            bound,
            r,
        ),
{
    assert(forwarded(args, seq![v] + bound) =~= forwarded(args.push(v), bound));
}

/// Binding `v1 .. vk` in sequence on a handle with bindings `bound`, then invoking the result
/// with `args`, is invoking the original handle with `args` followed by `vk .. v1`.
pub proof fn lemma_bound_call_sequence(
    callable: Callable,
    bound: Seq<Variant>,
    vs: Seq<Variant>,
    args: Seq<Variant>,
    r: Variant,
)
    ensures
        host_result(callable, args, bind_all(bound, vs), r) == host_result(
            callable,
            args + vs.reverse(),
            bound,
            r,
        ),
{
    lemma_bind_all(bound, vs);
    assert(forwarded(args, vs.reverse() + bound) =~= forwarded(args + vs.reverse(), bound));
}

} // verus!
