//! The sprite: one picture that appears, moves and disappears.
use crate::behavior::Behavior;
use crate::effector::{
    generate_appear_effector_randomly, generate_disappear_effector_randomly, generate_effector, is_built, Effector, NoEffector,
    EffectorStatus, EffectorType,
};
use crate::grid::{filled, CharGrid, TRANSPARENT_CHAR};
use vstd::prelude::*;

verus! {

/// Where a sprite is in its life.
#[allow(non_camel_case_types)]
#[derive(Clone, Copy, Debug, PartialEq, Eq, Structural)]
pub enum AsciiArtState {
    APPEAR,
    MOVE,
    DISAPPER,
    DISAPPERED,
}

/// What a sprite needs to know of the stage it is shown on.
#[derive(Clone, Copy, Debug)]
pub struct AsciiArtContext {
    pub stage_wxh: (usize, usize),
    pub aa_width: usize,
    pub framerate: u32,
}

/// Seconds that an entrance or an exit lasts.
pub const EFFECTOR_DURATION: u32 = 1;

/// A sprite: its picture, the working copy that is drawn, its offset,
/// and the strategies that bring it in, move it and take it out.
pub struct AsciiArt<B: Behavior> {
    aa_original: CharGrid,
    aa_data: CharGrid,
    aa_pos: (i32, i32),
    state: AsciiArtState,
    appear_effector: Effector,
    behavior: B,
    disappear_effector: Effector,
}

impl<B: Behavior> AsciiArt<B> {
    pub closed spec fn spec_original(&self) -> CharGrid {
        self.aa_original
    }

    /// The working grid, as last drawn.
    pub closed spec fn spec_data(&self) -> CharGrid {
        self.aa_data
    }

    pub closed spec fn spec_pos(&self) -> (i32, i32) {
        self.aa_pos
    }

    pub closed spec fn spec_state(&self) -> AsciiArtState {
        self.state
    }

    pub closed spec fn spec_appear(&self) -> Effector {
        self.appear_effector
    }

    pub closed spec fn spec_disappear(&self) -> Effector {
        self.disappear_effector
    }

    /// The motion strategy.
    pub closed spec fn spec_behavior(&self) -> B {
        self.behavior
    }

    /// The working grid has the picture's size; every sprite keeps to this.
    #[verifier::type_invariant]
    pub open spec fn wf(&self) -> bool {
        &&& self.spec_data().spec_width() == self.spec_original().spec_width()
        &&& self.spec_data().spec_height() == self.spec_original().spec_height()
    }

    /// `next` is this sprite one frame later.
    pub open spec fn is_next(&self, next: Self) -> bool {
        &&& next.spec_original() == self.spec_original()
        &&& match self.spec_state() {
            AsciiArtState::APPEAR => {
                &&& next.spec_data()@ == self.spec_appear().drawn(
                    self.spec_original()@,
                    self.spec_original().spec_width(),
                )
                &&& self.spec_appear().is_next(next.spec_appear())
                &&& next.spec_disappear() == self.spec_disappear()
                &&& next.spec_pos() == self.spec_pos()
                &&& next.spec_behavior() == self.spec_behavior()
                &&& next.spec_state() == if self.spec_appear().completes() {
                    AsciiArtState::MOVE
                } else {
                    AsciiArtState::APPEAR
                }
            },
            AsciiArtState::MOVE => {
                &&& next.spec_pos() == self.spec_behavior().next_offset()
                &&& (self.spec_behavior().is_still() ==> next.spec_pos() == (0i32, 0i32)
                    && next.spec_behavior().is_still())
                &&& next.spec_data() == self.spec_data()
                &&& next.spec_appear() == self.spec_appear()
                &&& next.spec_disappear() == self.spec_disappear()
                &&& next.spec_state() == AsciiArtState::MOVE
            },
            AsciiArtState::DISAPPER => {
                &&& next.spec_data()@ == self.spec_disappear().drawn(
                    self.spec_original()@,
                    self.spec_original().spec_width(),
                )
                &&& self.spec_disappear().is_next(next.spec_disappear())
                &&& next.spec_appear() == self.spec_appear()
                &&& next.spec_pos() == self.spec_pos()
                &&& next.spec_behavior() == self.spec_behavior()
                &&& next.spec_state() == if self.spec_disappear().completes() {
                    AsciiArtState::DISAPPERED
                } else {
                    AsciiArtState::DISAPPER
                }
            },
            AsciiArtState::DISAPPERED => next == *self,
        }
    }

    /// A fresh sprite of `original` with the given strategies: not yet
    /// visible, on its anchor, about to appear.
    fn with_strategies(original: CharGrid, appear_effector: Effector, behavior: B, disappear_effector: Effector) -> (r: Self)
        ensures
            r.wf(),
            r.spec_original() == original,
            r.spec_data()@ == filled(original.spec_width(), original.spec_height(), TRANSPARENT_CHAR),
            r.spec_pos() == (0i32, 0i32),
            r.spec_state() == AsciiArtState::APPEAR,
            r.spec_appear() == appear_effector,
            r.spec_disappear() == disappear_effector,
            r.spec_behavior() == behavior,
    {
        let data = CharGrid::new(original.width(), original.height());
        AsciiArt {
            aa_original: original,
            aa_data: data,
            aa_pos: (0, 0),
            state: AsciiArtState::APPEAR,
            appear_effector,
            behavior,
            disappear_effector,
        }
    }

    /// A sprite of `original` that fades in and out toward directions drawn at
    /// random, one second each, and moves by `behavior`.
    pub fn from_image_easy(original: CharGrid, context: &AsciiArtContext, behavior: B) -> (r: Self)
        ensures
            r.wf(),
            r.spec_original() == original,
            r.spec_data()@ == filled(original.spec_width(), original.spec_height(), TRANSPARENT_CHAR),
            r.spec_pos() == (0i32, 0i32),
            r.spec_state() == AsciiArtState::APPEAR,
            r.spec_appear() matches Effector::Fade(f) && f.frame() == 0 && f.total()
                == EFFECTOR_DURATION as nat * context.framerate as nat && f.spec_fade_type()
                == crate::effector::FadeType::FADEIN,
            r.spec_disappear() matches Effector::Fade(f) && f.frame() == 0 && f.total()
                == EFFECTOR_DURATION as nat * context.framerate as nat && f.spec_fade_type()
                == crate::effector::FadeType::FADEOUT,
            r.spec_behavior() == behavior,
    {
        let appear = generate_appear_effector_randomly(EFFECTOR_DURATION, context.framerate);
        let disappear = generate_disappear_effector_randomly(EFFECTOR_DURATION, context.framerate);
        Self::with_strategies(original, appear, behavior, disappear)
    }

    /// A sprite of `original` with the given entrance, exit and behavior; the
    /// entrance and exit last one second each.
    pub fn from_image(
        original: CharGrid,
        context: &AsciiArtContext,
        appear: EffectorType,
        disappear: EffectorType,
        behavior: B,
    ) -> (r: Self)
        ensures
            r.wf(),
            r.spec_original() == original,
            r.spec_data()@ == filled(original.spec_width(), original.spec_height(), TRANSPARENT_CHAR),
            r.spec_pos() == (0i32, 0i32),
            r.spec_state() == AsciiArtState::APPEAR,
            is_built(appear, EFFECTOR_DURATION, context.framerate, r.spec_appear()),
            is_built(disappear, EFFECTOR_DURATION, context.framerate, r.spec_disappear()),
            r.spec_behavior() == behavior,
    {
        let a = generate_effector(appear, EFFECTOR_DURATION, context.framerate);
        let d = generate_effector(disappear, EFFECTOR_DURATION, context.framerate);
        Self::with_strategies(original, a, behavior, d)
    }

    /// Advances the sprite one frame and returns its new state.
    /// While appearing it draws the entrance and moves on once the entrance
    /// reports completion; while moving it takes its offset from the behavior;
    /// while disappearing it draws the exit and is gone once the exit reports
    /// completion; once gone it stays as it is.
    pub fn update(&mut self) -> (r: AsciiArtState)
        ensures
            final(self).wf(),
            r == final(self).spec_state(),
            old(self).is_next(*final(self)),
    {
        proof {
            use_type_invariant(&*self);
        }
        match self.state {
            AsciiArtState::APPEAR => {
                let mut effector = Effector::No(NoEffector::new());
                std::mem::swap(&mut effector, &mut self.appear_effector);
                let mut data = CharGrid::new(self.aa_original.width(), self.aa_original.height());
                let status = effector.update(&mut data, &self.aa_original);
                self.appear_effector = effector;
                self.aa_data = data;
                if status == EffectorStatus::COMPLETED {
                    self.state = AsciiArtState::MOVE;
                }
            },
            AsciiArtState::MOVE => {
                let mut behavior = B::still();
                std::mem::swap(&mut behavior, &mut self.behavior);
                self.aa_pos = behavior.update();
                self.behavior = behavior;
            },
            AsciiArtState::DISAPPER => {
                let mut effector = Effector::No(NoEffector::new());
                std::mem::swap(&mut effector, &mut self.disappear_effector);
                let mut data = CharGrid::new(self.aa_original.width(), self.aa_original.height());
                let status = effector.update(&mut data, &self.aa_original);
                self.disappear_effector = effector;
                self.aa_data = data;
                if status == EffectorStatus::COMPLETED {
                    self.state = AsciiArtState::DISAPPERED;
                }
            },
            AsciiArtState::DISAPPERED => {},
        }
        self.state
    }

    /// Asks the sprite to leave: from any state but gone it starts its exit.
    pub fn disapper(&mut self)
        ensures
            final(self).wf(),
            final(self).spec_original() == old(self).spec_original(),
            final(self).spec_data() == old(self).spec_data(),
            final(self).spec_pos() == old(self).spec_pos(),
            final(self).spec_appear() == old(self).spec_appear(),
            final(self).spec_disappear() == old(self).spec_disappear(),
            final(self).spec_behavior() == old(self).spec_behavior(),
            old(self).spec_state() == AsciiArtState::DISAPPERED ==> *final(self) == *old(self),
            final(self).spec_state() == if old(self).spec_state() == AsciiArtState::DISAPPERED {
                AsciiArtState::DISAPPERED
            } else {
                AsciiArtState::DISAPPER
            },
    {
        proof {
            use_type_invariant(&*self);
        }
        if self.state != AsciiArtState::DISAPPERED {
            self.state = AsciiArtState::DISAPPER;
        }
    }

    pub fn get_state(&self) -> (r: AsciiArtState)
        ensures
            r == self.spec_state(),
    {
        self.state
    }

    /// The working grid, as last drawn.
    pub fn get_data(&self) -> (r: &CharGrid)
        ensures
            *r == self.spec_data(),
    {
        &self.aa_data
    }

    /// The offset from the anchor.
    pub fn get_position(&self) -> (r: (i32, i32))
        ensures
            r == self.spec_pos(),
    {
        self.aa_pos
    }
}

/// A sprite on its anchor whose behavior is still stays on its anchor, and
/// its behavior stays still, from one frame to the next, whatever its state.
pub proof fn lemma_still_sprite_stays_put<B: Behavior>(a: AsciiArt<B>, b: AsciiArt<B>)
    requires
        a.spec_behavior().is_still(),
        a.spec_pos() == (0i32, 0i32),
        a.is_next(b),
    ensures
        b.spec_pos() == (0i32, 0i32),
        b.spec_behavior().is_still(),
{
}

} // verus!
