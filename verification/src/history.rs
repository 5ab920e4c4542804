//! A bounded-by-policy FIFO of frames awaiting a smoothing verdict.
//!
//! Each record pairs a crop decision with the frame it was made for and the
//! object count seen on that frame. The buffer itself never evicts; the
//! smoothing controller that owns it decides when to drain it. The frame is
//! held as an opaque value of the caller's choosing (a handle, an index, or
//! a whole image).

use vstd::prelude::*;
use crate::crop::CropResult;

verus! {

/// One withheld frame: the candidate decision, the frame it applies to,
/// and how many objects were detected on it.
pub struct FrameData<I> {
    pub crop: CropResult,
    pub image: I,
    pub object_count: usize,
}

/// A FIFO of [`FrameData`], oldest first.
pub struct CropHistory<I> {
    frames: Vec<FrameData<I>>,
}

impl<I> View for CropHistory<I> {
    type V = Seq<FrameData<I>>;

    closed spec fn view(&self) -> Seq<FrameData<I>> {
        self.frames@
    }
}

impl<I> CropHistory<I> {
    /// Creates a new empty history.
    pub fn new() -> (r: Self)
        ensures
            r@.len() == 0,
    {
        Self { frames: Vec::new() }
    }

    /// Appends a frame at the back.
    pub fn add(&mut self, crop: CropResult, image: I, object_count: usize)
        ensures
            final(self)@ == old(self)@.push((FrameData { crop, image, object_count })),
    {
        self.frames.push(FrameData { crop, image, object_count });
    }

    /// Removes and returns the oldest frame, or `None` when empty.
    pub fn pop_front(&mut self) -> (r: Option<FrameData<I>>)
        ensures
            old(self)@.len() == 0 ==> r is None && final(self)@ == old(self)@,
            old(self)@.len() > 0 ==> (r matches Some(f)
                && f == old(self)@[0]
                && final(self)@ == old(self)@.remove(0)),
    {
        if self.frames.len() == 0 {
            None
        } else {
            Some(self.frames.remove(0))
        }
    }

    /// The oldest frame without removing it, or `None` when empty.
    pub fn peek_front(&self) -> (r: Option<&FrameData<I>>)
        ensures
            self@.len() == 0 ==> r is None,
            self@.len() > 0 ==> (r matches Some(f) && *f == self@[0]),
    {
        if self.frames.len() == 0 {
            None
        } else {
            Some(&self.frames[0])
        }
    }

    /// The newest frame without removing it, or `None` when empty.
    pub fn peek_back(&self) -> (r: Option<&FrameData<I>>)
        ensures
            self@.len() == 0 ==> r is None,
            self@.len() > 0 ==> (r matches Some(f) && *f == self@[self@.len() - 1]),
    {
        if self.frames.len() == 0 {
            None
        } else {
            Some(&self.frames[self.frames.len() - 1])
        }
    }

    /// The number of buffered frames.
    pub fn len(&self) -> (r: usize)
        ensures
            r == self@.len(),
    {
        self.frames.len()
    }

    /// Whether the buffer is empty.
    pub fn is_empty(&self) -> (r: bool)
        ensures
            r == (self@.len() == 0),
    {
        self.frames.len() == 0
    }
}

} // verus!
