use vstd::prelude::*;

use crate::value::{AnyValue, AnyValueKind, AnyValueModel};

verus! {

/// The capability a value must declare to be bound as a query parameter:
/// how it lowers itself onto the closed logical kind set. This stands in
/// for the per-backend encode contract, which is consumed downstream by the
/// backend encoder and is not this core's logic; once a value is pushed its
/// concrete type is gone, and only the lowered form travels on.
pub trait AnyEncode: Sized {
    /// The lowered form this value erases to.
    spec fn erased(&self) -> AnyValueModel;

    /// Erase this value into its owned, type-erased form.
    fn encode_any(self) -> (r: AnyValue)
        ensures
            r@ == self.erased(),
    ;
}

impl AnyEncode for i16 {
    open spec fn erased(&self) -> AnyValueModel {
        AnyValueModel::SmallInt(*self)
    }

    fn encode_any(self) -> (r: AnyValue) {
        AnyValue { kind: AnyValueKind::SmallInt(self) }
    }
}

impl AnyEncode for i32 {
    open spec fn erased(&self) -> AnyValueModel {
        AnyValueModel::Integer(*self)
    }

    fn encode_any(self) -> (r: AnyValue) {
        AnyValue { kind: AnyValueKind::Integer(self) }
    }
}

impl AnyEncode for i64 {
    open spec fn erased(&self) -> AnyValueModel {
        AnyValueModel::BigInt(*self)
    }

    fn encode_any(self) -> (r: AnyValue) {
        AnyValue { kind: AnyValueKind::BigInt(self) }
    }
}

impl AnyEncode for String {
    open spec fn erased(&self) -> AnyValueModel {
        AnyValueModel::Text(self@)
    }

    fn encode_any(self) -> (r: AnyValue) {
        AnyValue { kind: AnyValueKind::Text(self) }
    }
}

impl AnyEncode for Vec<u8> {
    open spec fn erased(&self) -> AnyValueModel {
        AnyValueModel::Blob(self@)
    }

    fn encode_any(self) -> (r: AnyValue) {
        AnyValue { kind: AnyValueKind::Blob(self) }
    }
}

/// The ordered, type-erased values bound for one query, in positional
/// parameter order.
pub struct AnyArgumentBuffer(pub Vec<AnyValue>);

impl View for AnyArgumentBuffer {
    type V = Seq<AnyValueModel>;

    open spec fn view(&self) -> Seq<AnyValueModel> {
        self.0@.map_values(|v: AnyValue| v@)
    }
}

/// The argument set of one query invocation: values are appended in the
/// order the query binds them, and that order is exactly the order the
/// backend encoder later consumes.
pub struct AnyArguments {
    pub values: AnyArgumentBuffer,
}

impl View for AnyArguments {
    type V = Seq<AnyValueModel>;

    open spec fn view(&self) -> Seq<AnyValueModel> {
        self.values@
    }
}

impl AnyArguments {
    /// Capacity hints for a coming batch of binds: `additional` further
    /// values of roughly `size` bytes together. Hints only — the observable
    /// contents and their order are exactly as before, so a query bound with
    /// or without a prior `reserve` behaves identically.
    pub fn reserve(&mut self, additional: usize, _size: usize)
        ensures
            final(self)@ == old(self)@,
    {
        self.values.0.reserve(additional);
    }

    /// Bind one more parameter: erase the value and append it. The buffer
    /// afterwards holds exactly what it held before, followed by the lowered
    /// value; nothing is reordered or dropped. Appending cannot fail —
    /// any encoding failure surfaces only when the backend consumes the
    /// buffer.
    pub fn add<T: AnyEncode>(&mut self, value: T)
        ensures
            final(self)@ == old(self)@.push(value.erased()),
    {
        let v = value.encode_any();
        proof {
            assert(old(self).values.0@.push(v).map_values(|x: AnyValue| x@)
                =~= old(self).values.0@.map_values(|x: AnyValue| x@).push(v@));
        }
        self.values.0.push(v);
    }

    /// How many parameters are bound.
    pub fn len(&self) -> (r: usize)
        ensures
            r == self@.len(),
    {
        self.values.0.len()
    }

    /// The `i`-th bound parameter, in positional order.
    pub fn get(&self, i: usize) -> (r: &AnyValue)
        requires
            i < self@.len(),
        ensures
            r@ == self@[i as int],
    {
        &self.values.0[i]
    }
}

impl Default for AnyArguments {
    /// The empty argument set: a valid, immediately consumable zero-argument
    /// query.
    fn default() -> (r: Self)
        ensures
            r@ == Seq::<AnyValueModel>::empty(),
    {
        AnyArguments { values: AnyArgumentBuffer(Vec::new()) }
    }
}

/// The buffer contents after appending each value of `vs`, in order, to a
/// buffer holding `init`.
pub open spec fn after_pushes(
    init: Seq<AnyValueModel>,
    vs: Seq<AnyValueModel>,
) -> Seq<AnyValueModel>
    decreases vs.len(),
{
    if vs.len() == 0 {
        init
    } else {
        after_pushes(init.push(vs[0]), vs.drop_first())
    }
}

/// Order preservation: appending the values of `vs`, one at a time, to a
/// buffer holding `init` yields `init` followed by exactly the values of
/// `vs`, in the order given — in particular, pushing N values into an empty
/// buffer reads back those N values unchanged. And since `reserve` leaves
/// the contents untouched, the same holds with any `reserve` calls in
/// between.
pub proof fn lemma_push_order(init: Seq<AnyValueModel>, vs: Seq<AnyValueModel>)
    ensures
        after_pushes(init, vs) == init + vs,
    decreases vs.len(),
{
    if vs.len() == 0 {
        assert(after_pushes(init, vs) =~= init + vs);
    } else {
        lemma_push_order(init.push(vs[0]), vs.drop_first());
        assert(init.push(vs[0]) + vs.drop_first() =~= init + vs);
    }
}

} // verus!
