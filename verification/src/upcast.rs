//! The capability trait layer: the sole legal channel by which a bound
//! subtype is viewed as one of its native base classes.
//!
//! Each base class of the native hierarchy becomes one trait
//! instantiation; a subtype deriving from several bases implements the
//! traits once per base.  Generic code that works "on anything derived
//! from `Base`" is written over these bounds instead of being
//! duplicated per subtype; no other code path may reinterpret a subtype
//! as a base.
#![allow(unused_imports)]
use vstd::prelude::*;

use crate::array::Vector;

verus! {

/// Shared upcast: view the subtype as its base class `Base`, valid
/// exactly as long as the borrow of the subtype.
pub trait AsBase<Base> {
    /// The base-class part of this value.
    spec fn base_spec(&self) -> Base;

    /// Borrows the base-class part.
    fn as_base(&self) -> (r: &Base)
        ensures
            *r == self.base_spec(),
    ;
}

/// Exclusive upcast: mutate the value through its base class.  Offered
/// only where the native base type permits mutation.
pub trait AsBaseMut<Base>: AsBase<Base> {
    /// Borrows the base-class part mutably; mutations through the
    /// returned reference are exactly the mutations of the base part.
    fn as_base_mut(&mut self) -> (r: &mut Base)
        ensures
            *r == old(self).base_spec(),
            final(self).base_spec() == *final(r),
    ;
}

/// Consuming conversion: hand the whole object over as a value of the
/// owning base type `Base`.  This is the entry gate of the
/// ownership-transfer protocol: the subtype value is gone afterwards.
pub trait IntoBase<Base> {
    /// The base-class value this object converts into.
    spec fn into_spec(&self) -> Base;

    /// Converts, consuming the object.
    fn into_base(self) -> (r: Base)
        ensures
            r == self.into_spec(),
    ;
}

/// Anything the native API can treat as a mutable vector of reals:
/// grid functions and linear forms both are.
pub trait VectorLike: AsBase<Vector> + AsBaseMut<Vector> {

}

} // verus!
