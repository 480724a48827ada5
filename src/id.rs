use std::marker::PhantomData;
use vstd::prelude::*;
use vstd::std_specs::cmp::PartialEqSpec;

verus! {

/// A value of type `U` that identifies an entity of type `T`.
///
/// The tag `T` exists only at the type level: it takes no space, is never
/// compared and never printed. Two identifiers with different tags are
/// different types, so one cannot be passed where the other is expected.
pub struct Id<T, U> {
    inner: U,
    _phantom: PhantomData<T>,
}

impl<T, U> Id<T, U> {
    /// The raw value held by this identifier.
    pub closed spec fn value(&self) -> U {
        self.inner
    }

    /// The identifier that holds `v`.
    pub closed spec fn tagged(v: U) -> Self {
        Id { inner: v, _phantom: PhantomData }
    }

    /// Creates an identifier from a raw value.
    ///
    /// The value is not checked: it is the caller's business that it names
    /// an entity of type `T`.
    pub fn new(inner: U) -> (r: Self)
        ensures
            r == Self::tagged(inner),
            r.value() == inner,
    {
        Self { inner, _phantom: PhantomData }
    }

    /// Read access to the raw value.
    pub fn inner(&self) -> (r: &U)
        ensures
            *r == self.value(),
    {
        &self.inner
    }
}

impl<T, U: PartialEq> PartialEq for Id<T, U> {
    fn eq(&self, other: &Self) -> (r: bool) {
        self.inner == other.inner
    }
}

impl<T, U: PartialEq> vstd::std_specs::cmp::PartialEqSpecImpl for Id<T, U> {
    open spec fn obeys_eq_spec() -> bool {
        U::obeys_eq_spec()
    }

    open spec fn eq_spec(&self, other: &Self) -> bool {
        self.value().eq_spec(&other.value())
    }
}

impl<T, U: Eq> Eq for Id<T, U> {}

impl<T, U> From<U> for Id<T, U> {
    fn from(value: U) -> (r: Self) {
        Self::new(value)
    }
}

impl<T, U> vstd::std_specs::convert::FromSpecImpl<U> for Id<T, U> {
    open spec fn obeys_from_spec() -> bool {
        true
    }

    open spec fn from_spec(v: U) -> Self {
        Self::tagged(v)
    }
}

impl<T, U: Clone> Clone for Id<T, U> {
    fn clone(&self) -> (r: Self)
        ensures
            cloned(self.value(), r.value()),
    {
        Self::new(self.inner.clone())
    }
}

impl<T, U: std::hash::Hash> std::hash::Hash for Id<T, U> {
    /// Relies on `Hash::hash` of `U`: the identifier feeds the hasher exactly
    /// what its value alone would, so it hashes as that value does.
    #[verifier::external_body]
    fn hash<H: std::hash::Hasher>(&self, state: &mut H) {
        self.inner.hash(state)
    }
}

/// Identifiers compare as their values do: distinct values give unequal
/// identifiers, and an identifier equals its clone. This holds wherever
/// `U`'s `==` is exact equality and cloning a `U` copies it, as for every
/// integer type.
pub proof fn lemma_eq_by_value<T, U: PartialEq + Clone>(v1: U, v2: U)
    requires
        vstd::laws_eq::obeys_concrete_eq::<U>(),
        forall|a: U, b: U| #[trigger] cloned(a, b) ==> a == b,
    ensures
        Id::<T, U>::obeys_eq_spec(),
        v1 != v2 ==> !Id::<T, U>::tagged(v1).eq_spec(&Id::<T, U>::tagged(v2)),
        Id::<T, U>::tagged(v1).eq_spec(&Id::<T, U>::tagged(v1)),
        forall|c: Id<T, U>| #[trigger] cloned(v1, c.value()) ==> Id::<T, U>::tagged(v1).eq_spec(&c),
{
    reveal(vstd::laws_eq::obeys_concrete_eq);
}

/// `std::fmt::Formatter`, the sink that `Debug` writes to; carried through
/// unopened.
#[verifier::external_type_specification]
#[verifier::external_body]
pub struct ExFormatter<'a>(std::fmt::Formatter<'a>);

/// `std::fmt::Error`, the failure that a formatting sink reports.
#[verifier::external_type_specification]
#[verifier::external_body]
pub struct ExFmtError(std::fmt::Error);

impl<T, U: std::fmt::Debug> std::fmt::Debug for Id<T, U> {
    /// Relies on `Debug::fmt` of `U`: the identifier is written exactly as
    /// its value is, and the tag is not written at all.
    #[verifier::external_body]
    fn fmt(&self, f: &mut std::fmt::Formatter<'_>) -> std::fmt::Result {
        self.inner.fmt(f)
    }
}

} // verus!
