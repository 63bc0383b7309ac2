use vstd::prelude::*;

verus! {

/// Trait for a structure that can be made without an argument.
///
/// Just like the well-known `new` method, under a different name to avoid
/// a collision after reference coercion.  Implementations state in their
/// own `ensures` what the fresh value looks like.
pub trait Make<T> {
    /// Make a new structure.
    fn make() -> T;
}

} // verus!
