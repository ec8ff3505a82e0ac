use vstd::prelude::*;

verus! {

/// A fixed-size block of engine-owned bytes whose layout this binding never
/// reads: room for a foreign object carried by value.
#[derive(Debug, Clone, Copy)]
pub struct Opaque<const SIZE: usize>(pub [u8; SIZE]);

} // verus!
