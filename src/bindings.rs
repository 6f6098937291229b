use vstd::prelude::*;

verus! {

/// The trailing arguments fixed on a callable by repeated binding, in positional order.
///
/// A callable of arity `n` with bindings `b` is invoked with `n` arguments `a`; the underlying
/// callable then receives `a` followed by `b`. Binding a value places it in front of the
/// values bound before it, since it fixes the last slot that was still open.
#[derive(Clone, Debug, PartialEq)]
pub struct Bindings<V> {
    pub values: Vec<V>,
}

impl<V> View for Bindings<V> {
    type V = Seq<V>;

    open spec fn view(&self) -> Seq<V> {
        self.values@
    }
}

/// What the underlying callable receives when a callable with bindings `bound` is invoked
/// with `args`.
pub open spec fn forwarded<V>(args: Seq<V>, bound: Seq<V>) -> Seq<V> {
    args + bound
}

/// The bindings after binding each value of `vs` in turn, starting from `bound`.
pub open spec fn bind_all<V>(bound: Seq<V>, vs: Seq<V>) -> Seq<V>
    decreases vs.len(),
{
    if vs.len() == 0 {
        bound
    } else {
        bind_all(seq![vs[0]] + bound, vs.drop_first())
    }
}

impl<V> Bindings<V> {
    /// No argument bound.
    pub fn new() -> (r: Self)
        ensures
            r@ == Seq::<V>::empty(),
    {
        Bindings { values: Vec::new() }
    }

    /// The number of arguments bound so far.
    pub fn len(&self) -> (r: usize)
        ensures
            r == self@.len(),
    {
        self.values.len()
    }

    /// Fix one more trailing argument: `value` takes the last slot that was still open.
    pub fn bind(self, value: V) -> (r: Self)
        ensures
            r@ == seq![value] + self@,
            r@ == bind_all(self@, seq![value]),
    {
        assert(seq![value].drop_first() =~= Seq::<V>::empty());
        let mut values: Vec<V> = Vec::new();
        values.push(value);
        let mut rest = self.values;
        values.append(&mut rest);
        assert(values@ =~= seq![value] + self@);
        assert(bind_all(seq![value] + self@, seq![value].drop_first()) == seq![value] + self@);
        Bindings { values }
    }

    /// The argument list that the underlying callable receives for the open arguments `args`:
    /// `args` unchanged, then a clone of each bound value.
    pub fn forward(&self, args: Vec<V>) -> (r: Vec<V>)
        where
            V: Clone,
        ensures
            r@.len() == forwarded(args@, self@).len(),
            forall|i: int| 0 <= i < args@.len() ==> #[trigger] r@[i] == args@[i],
            forall|i: int|
                0 <= i < r@.len() ==> vstd::pervasive::cloned(
                    forwarded(args@, self@)[i],
                    #[trigger] r@[i],
                ),
    {
        let mut r = args;
        r.extend_from_slice(self.values.as_slice());
        assert forall|i: int| 0 <= i < r@.len() implies vstd::pervasive::cloned(
            forwarded(args@, self@)[i],
            #[trigger] r@[i],
        ) by {
            if i < args@.len() {
                assert(forwarded(args@, self@)[i] == args@[i]);
            } else {
                assert(forwarded(args@, self@)[i] == self@[i - args@.len()]);
            }
        }
        r
    }
}

/// Binding values one after another leaves them in reverse order of binding, in front of
/// what was bound before.
pub proof fn lemma_bind_all<V>(bound: Seq<V>, vs: Seq<V>)
    ensures
        bind_all(bound, vs) == vs.reverse() + bound,
    decreases vs.len(),
{
    if vs.len() == 0 {
        assert(vs.reverse() + bound =~= bound);
    } else {
        lemma_bind_all(seq![vs[0]] + bound, vs.drop_first());
        assert(vs.drop_first().reverse() + (seq![vs[0]] + bound) =~= vs.reverse() + bound);
    }
}

/// Binding `v1 .. vk` in sequence on a callable, then invoking the result with the open
/// arguments `args`, hands the underlying callable `args` followed by `vk .. v1`: the first
/// value bound stays in the last slot, and each later one fills the slot just before the
/// previous one.
pub proof fn lemma_bind_composition<V>(args: Seq<V>, vs: Seq<V>)
    ensures
        forwarded(args, bind_all(Seq::empty(), vs)) == args + vs.reverse(),
{
    lemma_bind_all(Seq::empty(), vs);
    assert(vs.reverse() + Seq::<V>::empty() =~= vs.reverse());
}

/// Where the bound values read the same in both directions, the underlying callable receives
/// `args` followed by `v1 .. vk` in the order they were bound.
pub proof fn lemma_bind_composition_in_order<V>(args: Seq<V>, vs: Seq<V>)
    requires
        vs.reverse() == vs,
    ensures
        forwarded(args, bind_all(Seq::empty(), vs)) == args + vs,
{
    lemma_bind_composition(args, vs);
}

} // verus!
