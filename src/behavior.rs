//! Behaviors: frame-driven motion strategies that give a sprite its offset
//! from the anchor, whatever it shows.
use vstd::prelude::*;

verus! {

/// A motion strategy, asked once per frame while the sprite moves.
pub trait Behavior: Sized {
    /// The offset that the next call of `update` returns.
    spec fn next_offset(&self) -> (i32, i32);

    /// The behavior keeps the sprite on its anchor, now and from then on.
    spec fn is_still(&self) -> bool;

    /// A behavior of this kind that keeps the sprite on its anchor.
    fn still() -> (r: Self)
        ensures
            r.is_still(),
    ;

    /// The offset from the anchor for the next frame.
    fn update(&mut self) -> (r: (i32, i32))
        ensures
            r == old(self).next_offset(),
            old(self).is_still() ==> r == (0i32, 0i32) && final(self).is_still(),
    ;
}

/// Which behavior to build.
#[allow(non_camel_case_types)]
#[derive(Clone, Copy, Debug, PartialEq, Eq, Structural)]
pub enum BehaviorType {
    NO,
    UPANDDOWN,
}

/// A behavior that keeps the sprite on its anchor.
#[derive(Clone, Copy, Debug, PartialEq, Eq, Structural)]
pub struct NoBehavior {}

impl NoBehavior {
    pub fn new() -> NoBehavior {
        NoBehavior {  }
    }

    /// The offset for the next frame: always none.
    pub fn offset(&mut self) -> (r: (i32, i32))
        ensures
            r == (0i32, 0i32),
            *final(self) == *old(self),
    {
        (0, 0)
    }
}

impl Behavior for NoBehavior {
    open spec fn next_offset(&self) -> (i32, i32) {
        (0i32, 0i32)
    }

    open spec fn is_still(&self) -> bool {
        true
    }

    fn still() -> (r: Self) {
        NoBehavior::new()
    }

    fn update(&mut self) -> (r: (i32, i32)) {
        self.offset()
    }
}

} // verus!
