use crate::signal::{error_code, variant_type_code};
use godot::builtin::{Callable, Variant, VariantArray, VariantType};
use godot::global::Error;
use godot::obj::EngineEnum;
use vstd::prelude::*;

verus! {

/// The host's dynamic callable: an object and a method name, or a custom callable. Opaque here.
#[verifier::external_type_specification]
#[verifier::external_body]
pub struct ExCallable(Callable);

/// The host's dynamic value. Opaque here.
#[verifier::external_type_specification]
#[verifier::external_body]
pub struct ExVariant(Variant);

/// That the target of `c` expects no more than `n` arguments, so that a call with `n`
/// arguments reaches it.
pub uninterp spec fn takes_at_most(c: Callable, n: int) -> bool;

/// That the host's equality operator, asked of callables `a` and `b`, may answer `r`. A
/// relation: a custom callable decides equality itself and may answer differently over time.
pub uninterp spec fn callable_eq_answers(a: Callable, b: Callable, r: bool) -> bool;

/// That the host's `EQUAL` operator, asked of values `a` and `b`, may answer `r`. A relation:
/// arrays and dictionaries compare by contents, which may change behind the values.
pub uninterp spec fn variant_eq_answers(a: Variant, b: Variant, r: bool) -> bool;

/// That the host, called through `c` with `args`, may return `r`. A relation, not a function:
/// two calls with the same arguments may return different values.
pub uninterp spec fn callv_returns(c: Callable, args: Seq<Variant>, r: Variant) -> bool;

/// Relies on godot's `Clone` for `Callable` (`callable_construct_copy`): a copy that refers to
/// the same target, so it expects the same arguments.
pub assume_specification[ <Callable as Clone>::clone ](c: &Callable) -> (r: Callable)
    ensures
        forall|n: int| #[trigger] takes_at_most(r, n) == takes_at_most(*c, n),
;

/// Relies on godot's `PartialEq` for `Callable` (`callable_operator_equal`): one answer of the
/// host's equality operator.
pub assume_specification[ <Callable as PartialEq>::eq ](a: &Callable, b: &Callable) -> (r: bool)
    ensures
        callable_eq_answers(*a, *b, r),
;

/// Relies on godot's `PartialEq` for `Variant` (the `EQUAL` operator): one answer of the
/// host's equality operator.
pub assume_specification[ <Variant as PartialEq>::eq ](a: &Variant, b: &Variant) -> (r: bool)
    ensures
        variant_eq_answers(*a, *b, r),
;

/// Relies on the derived `PartialEq` of godot's `Error`, which compares the ordinals.
pub assume_specification[ <Error as PartialEq>::eq ](a: &Error, b: &Error) -> (r: bool)
    ensures
        r == (error_code(*a) == error_code(*b)),
;

/// The host's kind of a dynamic value. Opaque here.
#[verifier::external_type_specification]
#[verifier::external_body]
pub struct ExVariantType(VariantType);

/// The host's status of an operation. Opaque here.
#[verifier::external_type_specification]
#[verifier::external_body]
pub struct ExError(Error);

/// Relies on godot's `EngineEnum::ord` for `VariantType`: it reads the value's ordinal, so
/// the result depends on the value alone.
#[verifier::external_body]
pub(crate) fn variant_type_ord(t: VariantType) -> (r: i32)
    ensures
        r == variant_type_code(t),
{
    t.ord()
}

/// Relies on godot's `Error::OK`, the success status, whose ordinal is 0 in the engine's
/// API description.
#[verifier::external_body]
pub(crate) fn success_status() -> (r: Error)
    ensures
        error_code(r) == 0,
{
    Error::OK
}

/// Relies on godot's `Callable::callv`: one dynamic call with exactly the given arguments,
/// whose result is handed back. A call with fewer arguments than the target expects may bring
/// the engine down, so the target must expect no more than are given. What the host returns depends on the callable's target in
/// the running engine, so only the relation `callv_returns` is claimed of it.
#[verifier::external_body]
pub(crate) fn host_callv(callable: &Callable, args: Vec<Variant>) -> (r: Variant)
    requires
        takes_at_most(*callable, args@.len() as int),
    ensures
        callv_returns(*callable, args@, r),
{
    callable.callv(args.into_iter().collect::<VariantArray>())
}

} // verus!
