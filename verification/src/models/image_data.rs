use vstd::prelude::*;

verus! {

/// An image payload: its dimensions and its encoded pixel data.
#[derive(Debug, Clone, Default)]
pub struct ImageData {
    pub width: usize,
    pub height: usize,
    pub base64: String,
}

} // verus!
