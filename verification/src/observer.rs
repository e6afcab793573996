//! The render loop's observer interface.

use vstd::prelude::*;

verus! {

/// Something the render loop notifies once per frame, such as a frame
/// counter.
pub trait RenderLoopObserver {
    fn new() -> Self where Self: core::marker::Sized;

    fn tick(&mut self);
}

} // verus!
