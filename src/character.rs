//! The typed-character overlay: a short-lived glyph shown over the picture
//! for a fixed number of frames.
use crate::grid::{CharGrid, CharPosition};
use crate::random::random_in;
use vstd::prelude::*;

verus! {

/// Whether the overlay is still shown.
#[allow(non_camel_case_types)]
#[derive(Clone, Copy, Debug, PartialEq, Eq, Structural)]
pub enum CharacterStatus {
    APPEARED,
    DISAPPEARED,
}

/// How an overlay is made: the area it is shown in, the range of glyph
/// heights in cells, the characters a glyph may be drawn with, and how long it
/// stays.
pub struct CharacterConfig {
    pub area_wxh: (usize, usize),
    pub min_size: usize,
    pub max_size: usize,
    pub chars: Vec<char>,
    pub duration_ms: u32,
    pub framerate: u32,
}

impl CharacterConfig {
    /// One of the configured characters, drawn at random, to draw a glyph with.
    pub fn pick_char(&self) -> (r: char)
        requires
            self.chars@.len() > 0,
        ensures
            self.chars@.contains(r),
    {
        let i = random_in(0, self.chars.len());
        assert(self.chars@[i as int] == self.chars[i as int]);
        self.chars[i]
    }
}

/// The largest offset at which something `extent` cells long fits in an
/// area of `area` cells (within `i32`), or zero where it does not fit.
pub open spec fn placement_room(area: nat, extent: nat) -> int {
    if area >= extent {
        if area - extent <= i32::MAX {
            area - extent
        } else {
            i32::MAX as int
        }
    } else {
        0
    }
}

/// A random offset in `0..=placement_room(area, extent)`.
fn random_offset(area: usize, extent: usize) -> (r: i32)
    ensures
        0 <= r <= placement_room(area as nat, extent as nat),
{
    if area >= extent {
        let room = area - extent;
        let cap: usize = if room <= i32::MAX as usize {
            room
        } else {
            i32::MAX as usize
        };
        random_in(0, cap + 1) as i32
    } else {
        0
    }
}

/// Frames an overlay of `duration_ms` milliseconds lasts at `framerate`, rounded down.
pub open spec fn lifetime_frames(duration_ms: u32, framerate: u32) -> nat {
    duration_ms as nat * framerate as nat / 1000
}

/// A glyph shown at a fixed position until its countdown runs out.
pub struct Character {
    c2d: CharGrid,
    pos: CharPosition,
    current_frame: u64,
    config: CharacterConfig,
    status: CharacterStatus,
}

impl Character {
    pub closed spec fn spec_glyph(&self) -> CharGrid {
        self.c2d
    }

    pub closed spec fn spec_pos(&self) -> CharPosition {
        self.pos
    }

    /// Frames counted so far.
    pub closed spec fn frame(&self) -> nat {
        self.current_frame as nat
    }

    /// Frames the overlay lasts.
    pub closed spec fn total(&self) -> nat {
        lifetime_frames(self.config.duration_ms, self.config.framerate)
    }

    pub closed spec fn spec_status(&self) -> CharacterStatus {
        self.status
    }

    /// The status follows the counter.
    pub open spec fn wf(&self) -> bool {
        &&& self.spec_status() == if self.frame() > self.total() {
            CharacterStatus::DISAPPEARED
        } else {
            CharacterStatus::APPEARED
        }
    }

    /// `next` is this overlay one frame later.
    pub open spec fn is_next(&self, next: Character) -> bool {
        &&& next.spec_glyph() == self.spec_glyph()
        &&& next.spec_pos() == self.spec_pos()
        &&& next.total() == self.total()
        &&& next.frame() == if self.frame() <= self.total() {
            self.frame() + 1
        } else {
            self.frame()
        }
    }

    /// The next frame ends the overlay.
    pub open spec fn next_disappears(&self) -> bool {
        self.frame() + 1 > self.total()
    }

    /// An overlay of `glyph` at a random position where it fits in the
    /// configured area (the top-left corner where it does not), shown from
    /// now on.
    pub fn new(glyph: CharGrid, config: CharacterConfig) -> (r: Character)
        ensures
            r.wf(),
            r.spec_glyph() == glyph,
            0 <= r.spec_pos().x <= placement_room(config.area_wxh.0 as nat, glyph.spec_width()),
            0 <= r.spec_pos().y <= placement_room(config.area_wxh.1 as nat, glyph.spec_height()),
            r.frame() == 0,
            r.total() == lifetime_frames(config.duration_ms, config.framerate),
            r.spec_status() == CharacterStatus::APPEARED,
    {
        let x = random_offset(config.area_wxh.0, glyph.width());
        let y = random_offset(config.area_wxh.1, glyph.height());
        Character {
            c2d: glyph,
            pos: CharPosition { x, y },
            current_frame: 0,
            config,
            status: CharacterStatus::APPEARED,
        }
    }

    /// Counts one frame; the overlay is gone once the count passes its lifetime.
    pub fn update(&mut self) -> (r: CharacterStatus)
        ensures
            final(self).wf(),
            old(self).is_next(*final(self)),
            r == final(self).spec_status(),
    {
        proof {
            assert(self.config.duration_ms as nat * self.config.framerate as nat <= 0xffff_ffff
                * 0xffff_ffff) by (nonlinear_arith)
                requires
                    self.config.duration_ms <= 0xffff_ffff,
                    self.config.framerate <= 0xffff_ffff,
            ;
        }
        let total: u64 = self.config.duration_ms as u64 * self.config.framerate as u64 / 1000;
        if self.current_frame <= total {
            self.current_frame = self.current_frame + 1;
        }
        self.status = if self.current_frame > total {
            CharacterStatus::DISAPPEARED
        } else {
            CharacterStatus::APPEARED
        };
        self.status
    }

    /// The glyph.
    pub fn get_data(&self) -> (r: &CharGrid)
        ensures
            *r == self.spec_glyph(),
    {
        &self.c2d
    }

    /// Where the glyph's top-left corner sits.
    pub fn get_position(&self) -> (r: CharPosition)
        ensures
            r == self.spec_pos(),
    {
        self.pos
    }
}

} // verus!
