use crate::host::{success_status, variant_type_ord};
use godot::builtin::VariantType;
use godot::global::Error;
use vstd::prelude::*;

verus! {

/// The name and type of an argument that a signal takes.
pub struct SignalProperty {
    /// The argument's name.
    pub name: String,
    /// The kind of value the argument carries, one of the host's value kinds.
    pub type_: VariantType,
}

/// The host's code for a value kind.
pub uninterp spec fn variant_type_code(t: VariantType) -> int;

/// The host's code for a status, its ordinal; success, `Error::OK`, is code 0.
pub uninterp spec fn error_code(e: Error) -> int;

impl SignalProperty {
    /// A signal argument called `name` of kind `type_`.
    pub fn new(name: String, type_: VariantType) -> (r: Self)
        ensures
            r.name == name,
            r.type_ == type_,
    {
        SignalProperty { name, type_ }
    }

    /// The host's code for this argument's kind.
    pub fn type_code(&self) -> (r: i64)
        ensures
            r == variant_type_code(self.type_),
    {
        variant_type_ord(self.type_) as i64
    }

    /// The description the host receives for this argument: its name and its kind's code.
    pub fn record(&self) -> (r: (String, i64))
        ensures
            r.0@ == self.name@,
            r.1 == variant_type_code(self.type_),
    {
        (self.name.clone(), self.type_code())
    }
}

impl From<(String, VariantType)> for SignalProperty {
    fn from(pair: (String, VariantType)) -> (r: Self)
        ensures
            r.name == pair.0,
            r.type_ == pair.1,
    {
        let (name, type_) = pair;
        SignalProperty::new(name, type_)
    }
}

impl vstd::std_specs::convert::FromSpecImpl<(String, VariantType)> for SignalProperty {
    open spec fn obeys_from_spec() -> bool {
        true
    }

    open spec fn from_spec(pair: (String, VariantType)) -> Self {
        SignalProperty { name: pair.0, type_: pair.1 }
    }
}

/// The descriptions the host receives when a signal is declared with `properties`, in order.
pub fn signal_records(properties: &Vec<SignalProperty>) -> (r: Vec<(String, i64)>)
    ensures
        r@.len() == properties@.len(),
        forall|i: int|
            0 <= i < r@.len() ==> (#[trigger] r@[i]).0@ == properties@[i].name@ && r@[i].1
                == variant_type_code(properties@[i].type_),
{
    let mut r: Vec<(String, i64)> = Vec::new();
    let mut i: usize = 0;
    while i < properties.len()
        invariant
            i <= properties@.len(),
            r@.len() == i,
            forall|j: int|
                0 <= j < i ==> (#[trigger] r@[j]).0@ == properties@[j].name@ && r@[j].1
                    == variant_type_code(properties@[j].type_),
        decreases properties@.len() - i,
    {
        r.push(properties[i].record());
        i = i + 1;
    }
    r
}

/// The result of a connection given the status the host reported: `Ok` exactly when the
/// status is success (code 0), and otherwise that status unchanged.
pub fn connect_outcome(status: Error) -> (r: Result<(), Error>)
    ensures
        error_code(status) == 0 ==> r == Ok::<(), Error>(()),
        error_code(status) != 0 ==> r == Err::<(), Error>(status),
{
    if status == success_status() {
        Ok(())
    } else {
        Err(status)
    }
}

} // verus!
