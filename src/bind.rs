use crate::callable_static::CallableStatic;
use crate::host::takes_at_most;
use godot::builtin::{Callable, Variant};
use vstd::prelude::*;

verus! {

/// Binding the last argument of a bare host callable, whose arity the caller states by the
/// method it picks: `bindN` takes a callable of arity `N` and gives a handle of arity `N - 1`
/// that passes `arg` in the last slot. A `CallableStatic` carries its arity in its type and
/// binds through its own `bind`.
pub trait Bind: Sized {
    /// The host callable that the result of a bind reaches.
    spec fn bind_target(&self) -> Callable;

    /// A copy of this callable, which takes 1 argument, with the last one bound to `arg`.
    fn bind1(self, arg: Variant) -> (r: CallableStatic<0>)
        ensures
            r.callable == self.bind_target(),
            r.bindings@ == seq![arg],
            r.wf() == takes_at_most(self.bind_target(), 1),
    ;

    /// A copy of this callable, which takes 2 arguments, with the last one bound to `arg`.
    fn bind2(self, arg: Variant) -> (r: CallableStatic<1>)
        ensures
            r.callable == self.bind_target(),
            r.bindings@ == seq![arg],
            r.wf() == takes_at_most(self.bind_target(), 2),
    ;

    /// A copy of this callable, which takes 3 arguments, with the last one bound to `arg`.
    fn bind3(self, arg: Variant) -> (r: CallableStatic<2>)
        ensures
            r.callable == self.bind_target(),
            r.bindings@ == seq![arg],
            r.wf() == takes_at_most(self.bind_target(), 3),
    ;

    /// A copy of this callable, which takes 4 arguments, with the last one bound to `arg`.
    fn bind4(self, arg: Variant) -> (r: CallableStatic<3>)
        ensures
            r.callable == self.bind_target(),
            r.bindings@ == seq![arg],
            r.wf() == takes_at_most(self.bind_target(), 4),
    ;

    /// A copy of this callable, which takes 5 arguments, with the last one bound to `arg`.
    fn bind5(self, arg: Variant) -> (r: CallableStatic<4>)
        ensures
            r.callable == self.bind_target(),
            r.bindings@ == seq![arg],
            r.wf() == takes_at_most(self.bind_target(), 5),
    ;

    /// A copy of this callable, which takes 6 arguments, with the last one bound to `arg`.
    fn bind6(self, arg: Variant) -> (r: CallableStatic<5>)
        ensures
            r.callable == self.bind_target(),
            r.bindings@ == seq![arg],
            r.wf() == takes_at_most(self.bind_target(), 6),
    ;

    /// A copy of this callable, which takes 7 arguments, with the last one bound to `arg`.
    fn bind7(self, arg: Variant) -> (r: CallableStatic<6>)
        ensures
            r.callable == self.bind_target(),
            r.bindings@ == seq![arg],
            r.wf() == takes_at_most(self.bind_target(), 7),
    ;

    /// A copy of this callable, which takes 8 arguments, with the last one bound to `arg`.
    fn bind8(self, arg: Variant) -> (r: CallableStatic<7>)
        ensures
            r.callable == self.bind_target(),
            r.bindings@ == seq![arg],
            r.wf() == takes_at_most(self.bind_target(), 8),
    ;

    /// A copy of this callable, which takes 9 arguments, with the last one bound to `arg`.
    fn bind9(self, arg: Variant) -> (r: CallableStatic<8>)
        ensures
            r.callable == self.bind_target(),
            r.bindings@ == seq![arg],
            r.wf() == takes_at_most(self.bind_target(), 9),
    ;

    /// A copy of this callable, which takes 10 arguments, with the last one bound to `arg`.
    fn bind10(self, arg: Variant) -> (r: CallableStatic<9>)
        ensures
            r.callable == self.bind_target(),
            r.bindings@ == seq![arg],
            r.wf() == takes_at_most(self.bind_target(), 10),
    ;
}

impl Bind for Callable {
    open spec fn bind_target(&self) -> Callable {
        *self
    }

    fn bind1(self, arg: Variant) -> (r: CallableStatic<0>) {
        CallableStatic::<1>::from_callable(self).bind(arg)
    }

    fn bind2(self, arg: Variant) -> (r: CallableStatic<1>) {
        CallableStatic::<2>::from_callable(self).bind(arg)
    }

    fn bind3(self, arg: Variant) -> (r: CallableStatic<2>) {
        CallableStatic::<3>::from_callable(self).bind(arg)
    }

    fn bind4(self, arg: Variant) -> (r: CallableStatic<3>) {
        CallableStatic::<4>::from_callable(self).bind(arg)
    }

    fn bind5(self, arg: Variant) -> (r: CallableStatic<4>) {
        CallableStatic::<5>::from_callable(self).bind(arg)
    }

    fn bind6(self, arg: Variant) -> (r: CallableStatic<5>) {
        CallableStatic::<6>::from_callable(self).bind(arg)
    }

    fn bind7(self, arg: Variant) -> (r: CallableStatic<6>) {
        CallableStatic::<7>::from_callable(self).bind(arg)
    }

    fn bind8(self, arg: Variant) -> (r: CallableStatic<7>) {
        CallableStatic::<8>::from_callable(self).bind(arg)
    }

    fn bind9(self, arg: Variant) -> (r: CallableStatic<8>) {
        CallableStatic::<9>::from_callable(self).bind(arg)
    }

    fn bind10(self, arg: Variant) -> (r: CallableStatic<9>) {
        CallableStatic::<10>::from_callable(self).bind(arg)
    }
}

} // verus!
