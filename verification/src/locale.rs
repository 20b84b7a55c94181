use vstd::prelude::*;

use crate::text::{decode_lossy, text_of_bytes};

verus! {

/// A keyboard layout, by its identifier.
#[derive(Clone, Copy, Debug, PartialEq, Eq, Structural)]
pub struct KeyboardLayout(pub u32);

impl KeyboardLayout {
    /// The layout's name, from the C string that the native table holds for
    /// it.
    pub fn name(&self, name: &[u8]) -> (ret: String)
        ensures
            ret@ == text_of_bytes(name@),
    {
        decode_lossy(name)
    }
}

} // verus!
