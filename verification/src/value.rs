use vstd::prelude::*;

verus! {

/// Mathematical model shared by the owned and the borrowed value forms: the
/// logical kind together with its payload. Text carries its characters and
/// Blob its bytes, so payload equality in a contract is byte-for-byte.
pub ghost enum AnyValueModel {
    SmallInt(i16),
    Integer(i32),
    BigInt(i64),
    Real(u32),
    Double(u64),
    Text(Seq<char>),
    Blob(Seq<u8>),
}

/// The tag alone: which of the seven logical kinds a value has, with the
/// payload forgotten. This is what a fully erased value can still report.
#[derive(Clone, Copy, Debug, PartialEq, Eq, Structural)]
pub enum AnyTypeInfoKind {
    SmallInt,
    Integer,
    BigInt,
    Real,
    Double,
    Text,
    Blob,
}

impl AnyValueModel {
    /// The kind tag of a modelled value.
    pub open spec fn kind_of(self) -> AnyTypeInfoKind {
        match self {
            AnyValueModel::SmallInt(_) => AnyTypeInfoKind::SmallInt,
            AnyValueModel::Integer(_) => AnyTypeInfoKind::Integer,
            AnyValueModel::BigInt(_) => AnyTypeInfoKind::BigInt,
            AnyValueModel::Real(_) => AnyTypeInfoKind::Real,
            AnyValueModel::Double(_) => AnyTypeInfoKind::Double,
            AnyValueModel::Text(_) => AnyTypeInfoKind::Text,
            AnyValueModel::Blob(_) => AnyTypeInfoKind::Blob,
        }
    }
}

/// Owned form of a logical value: self-contained data for each of the seven
/// kinds every backend's native column types can be losslessly mapped onto.
/// Backend float columns pass through as their raw IEEE-754 bit patterns
/// (32 and 64 bits wide), which keeps the payload exact and lets the decode
/// boundary reconstitute the number unchanged.
///
/// The enumeration is closed here but open at the boundary: consumers must
/// not match on it without a catch-all, since new backends may need new
/// kinds.
#[non_exhaustive]
pub enum AnyValueKind {
    SmallInt(i16),
    Integer(i32),
    BigInt(i64),
    Real(u32),
    Double(u64),
    Text(String),
    Blob(Vec<u8>),
}

/// Borrowed form of the same kind set: Text and Blob borrow from storage the
/// owner keeps alive, so a reference never outlives the row (or the owned
/// value) it was read from.
#[non_exhaustive]
pub enum AnyValueRefKind<'a> {
    SmallInt(i16),
    Integer(i32),
    BigInt(i64),
    Real(u32),
    Double(u64),
    Text(&'a str),
    Blob(&'a [u8]),
}

impl View for AnyValueKind {
    type V = AnyValueModel;

    open spec fn view(&self) -> AnyValueModel {
        match self {
            AnyValueKind::SmallInt(i) => AnyValueModel::SmallInt(*i),
            AnyValueKind::Integer(i) => AnyValueModel::Integer(*i),
            AnyValueKind::BigInt(i) => AnyValueModel::BigInt(*i),
            AnyValueKind::Real(r) => AnyValueModel::Real(*r),
            AnyValueKind::Double(d) => AnyValueModel::Double(*d),
            AnyValueKind::Text(t) => AnyValueModel::Text(t@),
            AnyValueKind::Blob(b) => AnyValueModel::Blob(b@),
        }
    }
}

impl<'a> View for AnyValueRefKind<'a> {
    type V = AnyValueModel;

    open spec fn view(&self) -> AnyValueModel {
        match self {
            AnyValueRefKind::SmallInt(i) => AnyValueModel::SmallInt(*i),
            AnyValueRefKind::Integer(i) => AnyValueModel::Integer(*i),
            AnyValueRefKind::BigInt(i) => AnyValueModel::BigInt(*i),
            AnyValueRefKind::Real(r) => AnyValueModel::Real(*r),
            AnyValueRefKind::Double(d) => AnyValueModel::Double(*d),
            AnyValueRefKind::Text(t) => AnyValueModel::Text(t@),
            AnyValueRefKind::Blob(b) => AnyValueModel::Blob(b@),
        }
    }
}

/// An owned, type-erased value.
pub struct AnyValue {
    pub kind: AnyValueKind,
}

/// A borrowed, type-erased value, valid only while its owner is.
pub struct AnyValueRef<'a> {
    pub kind: AnyValueRefKind<'a>,
}

impl View for AnyValue {
    type V = AnyValueModel;

    open spec fn view(&self) -> AnyValueModel {
        self.kind@
    }
}

impl<'a> View for AnyValueRef<'a> {
    type V = AnyValueModel;

    open spec fn view(&self) -> AnyValueModel {
        self.kind@
    }
}

/// Structural type description of an erased value: even when the originating
/// backend type is no longer known, the logical kind always is.
#[derive(Clone, Copy, Debug, PartialEq, Eq, Structural)]
pub struct AnyTypeInfo {
    pub kind: AnyTypeInfoKind,
}

impl AnyValue {
    /// Borrow this owned value as a reference of the same kind.
    ///
    /// The conversion is total and kind-preserving: the reference's kind tag
    /// equals the owned value's, and in the Text and Blob cases the borrowed
    /// payload is, character for character and byte for byte, the owned
    /// payload (the reference borrows from storage this value still holds).
    pub fn as_ref<'a>(&'a self) -> (r: AnyValueRef<'a>)
        ensures
            r@ == self@,
            r@.kind_of() == self@.kind_of(),
            forall|t: Seq<char>| self@ == AnyValueModel::Text(t) ==> r@ == AnyValueModel::Text(t),
            forall|b: Seq<u8>| self@ == AnyValueModel::Blob(b) ==> r@ == AnyValueModel::Blob(b),
    {
        AnyValueRef {
            kind: match &self.kind {
                AnyValueKind::SmallInt(i) => AnyValueRefKind::SmallInt(*i),
                AnyValueKind::Integer(i) => AnyValueRefKind::Integer(*i),
                AnyValueKind::BigInt(i) => AnyValueRefKind::BigInt(*i),
                AnyValueKind::Real(r) => AnyValueRefKind::Real(*r),
                AnyValueKind::Double(d) => AnyValueRefKind::Double(*d),
                AnyValueKind::Text(t) => AnyValueRefKind::Text(t.as_str()),
                AnyValueKind::Blob(b) => AnyValueRefKind::Blob(b.as_slice()),
            },
        }
    }

    /// Structural type information: the kind tag of this value.
    pub fn type_info(&self) -> (r: AnyTypeInfo)
        ensures
            r.kind == self@.kind_of(),
    {
        AnyTypeInfo {
            kind: match &self.kind {
                AnyValueKind::SmallInt(_) => AnyTypeInfoKind::SmallInt,
                AnyValueKind::Integer(_) => AnyTypeInfoKind::Integer,
                AnyValueKind::BigInt(_) => AnyTypeInfoKind::BigInt,
                AnyValueKind::Real(_) => AnyTypeInfoKind::Real,
                AnyValueKind::Double(_) => AnyTypeInfoKind::Double,
                AnyValueKind::Text(_) => AnyTypeInfoKind::Text,
                AnyValueKind::Blob(_) => AnyTypeInfoKind::Blob,
            },
        }
    }

    /// None of the seven kinds encodes SQL NULL; an erased value is never
    /// null.
    pub fn is_null(&self) -> (r: bool)
        ensures
            r == false,
    {
        false
    }
}

impl<'a> AnyValueRef<'a> {
    /// Copy this borrowed value into an owned one of the same kind and
    /// payload. Unlike the owned-to-reference direction, which only borrows,
    /// this direction must copy the Text and Blob payloads, since the owner
    /// of the borrowed storage keeps it.
    pub fn to_owned(&self) -> (r: AnyValue)
        ensures
            r@ == self@,
            r@.kind_of() == self@.kind_of(),
    {
        AnyValue {
            kind: match &self.kind {
                AnyValueRefKind::SmallInt(i) => AnyValueKind::SmallInt(*i),
                AnyValueRefKind::Integer(i) => AnyValueKind::Integer(*i),
                AnyValueRefKind::BigInt(i) => AnyValueKind::BigInt(*i),
                AnyValueRefKind::Real(r) => AnyValueKind::Real(*r),
                AnyValueRefKind::Double(d) => AnyValueKind::Double(*d),
                AnyValueRefKind::Text(t) => AnyValueKind::Text((*t).to_owned()),
                AnyValueRefKind::Blob(b) => AnyValueKind::Blob(vstd::slice::slice_to_vec(b)),
            },
        }
    }
}

} // verus!
