//! The stage: a picture area with two caption areas below it. Each frame the
//! picture area is repainted with the background, the sprite and the
//! typed-character overlay, in that order.
use crate::asciiart::{AsciiArt, AsciiArtContext, AsciiArtState, EFFECTOR_DURATION};
use crate::background::{generate_background_randomly, Background};
use crate::behavior::Behavior;
use crate::character::{lifetime_frames, placement_room, Character, CharacterConfig, CharacterStatus};
use crate::effector::{Effector, EffectorType, FadeType};
use crate::grid::{centered_origin, filled, overlay, CharGrid, CharPosition, TRANSPARENT_CHAR};
use vstd::prelude::*;

verus! {

/// The stage's size in cells, the width sprites are rasterized at, and the
/// frames per second.
#[derive(Clone, Copy, Debug)]
pub struct StageConfig {
    pub stage_wxh: (usize, usize),
    pub aa_width: usize,
    pub framerate: u32,
}

/// Rows of the picture area on a stage of `height` rows: four sixths, rounded down.
pub open spec fn pict_height(height: nat) -> nat {
    height * 4 / 6
}

/// Rows of the primary caption area: half of what the picture leaves, rounded down.
pub open spec fn telop_height(height: nat) -> nat {
    (height - pict_height(height)) as nat / 2
}

/// Rows of the secondary caption area: the rest.
pub open spec fn subtelop_height(height: nat) -> nat {
    (height - pict_height(height) - telop_height(height)) as nat
}

/// The three areas of a stage fill its height exactly, whatever the height.
pub proof fn lemma_region_heights_sum(height: nat)
    ensures
        pict_height(height) <= height,
        pict_height(height) + telop_height(height) + subtelop_height(height) == height,
{
    assert(height * 4 / 6 <= height) by (nonlinear_arith);
}

/// The picture area's rows for a stage of `height` rows.
fn pict_rows(height: usize) -> (r: usize)
    ensures
        r == pict_height(height as nat),
{
    let q = height / 6;
    let m = height % 6;
    proof {
        assert(height * 4 / 6 == q * 4 + m * 4 / 6) by (nonlinear_arith)
            requires
                q == height / 6,
                m == height % 6,
        ;
    }
    q * 4 + m * 4 / 6
}

/// The character glyphs a typed character may be drawn with.
pub open spec fn typed_glyph_chars() -> Seq<char> {
    seq!['@', '*', '+', '-']
}

/// Milliseconds a typed character stays on the stage.
pub const TYPED_CHAR_DURATION_MS: u32 = 500;

/// A background, or blanks where there is none, may have painted `cells`.
pub open spec fn painted(background: Option<Background>, cells: Seq<Seq<char>>, width: nat, height: nat) -> bool {
    match background {
        Some(b) => b.may_paint(cells, width, height),
        None => cells == filled(width, height, TRANSPARENT_CHAR),
    }
}

/// `under` with the sprite's working grid laid over it, centred and moved by
/// the sprite's offset, blanks showing through.
pub open spec fn with_sprite<B: Behavior>(under: Seq<Seq<char>>, sprite: Option<AsciiArt<B>>, width: nat, height: nat) -> Seq<Seq<char>> {
    match sprite {
        Some(a) => overlay(
            under,
            a.spec_data()@,
            centered_origin(width, a.spec_data().spec_width(), a.spec_pos().0 as int),
            centered_origin(height, a.spec_data().spec_height(), a.spec_pos().1 as int),
            Some(TRANSPARENT_CHAR),
        ),
        None => under,
    }
}

/// `under` with the typed character laid over it at its position, blanks showing through.
pub open spec fn with_typed(under: Seq<Seq<char>>, typed: Option<Character>) -> Seq<Seq<char>> {
    match typed {
        Some(c) => overlay(
            under,
            c.spec_glyph()@,
            c.spec_pos().x as int,
            c.spec_pos().y as int,
            Some(TRANSPARENT_CHAR),
        ),
        None => under,
    }
}

/// `next` is the typed-character overlay one frame after `prev`: it counts a
/// frame, and is dropped once its countdown has run out.
pub open spec fn typed_next(prev: Option<Character>, next: Option<Character>) -> bool {
    match (prev, next) {
        (None, None) => true,
        (Some(c), None) => c.next_disappears(),
        (Some(c), Some(d)) => c.is_next(d) && !c.next_disappears(),
        (None, Some(_)) => false,
    }
}

/// `area` is blank where `rendered` is absent, and otherwise shows it from
/// the top-left corner, clipped.
pub open spec fn caption(area: Seq<Seq<char>>, width: nat, height: nat, rendered: Option<CharGrid>) -> bool {
    match rendered {
        Some(g) => area == overlay(filled(width, height, TRANSPARENT_CHAR), g@, 0, 0, None),
        None => area == filled(width, height, TRANSPARENT_CHAR),
    }
}

/// The picture area, the two caption areas, the sprite, the background and the
/// typed-character overlay, with the configuration they were made for.
pub struct Stage<B: Behavior> {
    pict_area: CharGrid,
    telop_area: CharGrid,
    subtelop_area: CharGrid,
    ascii_art: Option<AsciiArt<B>>,
    background: Option<Background>,
    config: StageConfig,
    typed_char: Option<Character>,
    telop_changed: bool,
    subtelop_changed: bool,
}

impl<B: Behavior> Stage<B> {
    pub closed spec fn spec_pict(&self) -> CharGrid {
        self.pict_area
    }

    pub closed spec fn spec_telop(&self) -> CharGrid {
        self.telop_area
    }

    pub closed spec fn spec_subtelop(&self) -> CharGrid {
        self.subtelop_area
    }

    pub closed spec fn spec_sprite(&self) -> Option<AsciiArt<B>> {
        self.ascii_art
    }

    pub closed spec fn spec_background(&self) -> Option<Background> {
        self.background
    }

    pub closed spec fn spec_config(&self) -> StageConfig {
        self.config
    }

    pub closed spec fn spec_typed(&self) -> Option<Character> {
        self.typed_char
    }

    /// The caption areas changed since they were last drawn: primary, secondary.
    pub closed spec fn spec_changed(&self) -> (bool, bool) {
        (self.telop_changed, self.subtelop_changed)
    }

    pub open spec fn width(&self) -> nat {
        self.spec_config().stage_wxh.0 as nat
    }

    pub open spec fn height(&self) -> nat {
        self.spec_config().stage_wxh.1 as nat
    }

    /// The areas have the sizes the configuration gives, and the parts are
    /// sound; every stage keeps to this.
    #[verifier::type_invariant]
    pub open spec fn wf(&self) -> bool {
        &&& self.spec_pict().spec_width() == self.width()
        &&& self.spec_pict().spec_height() == pict_height(self.height())
        &&& self.spec_telop().spec_width() == self.width()
        &&& self.spec_telop().spec_height() == telop_height(self.height())
        &&& self.spec_subtelop().spec_width() == self.width()
        &&& self.spec_subtelop().spec_height() == subtelop_height(self.height())
        &&& (self.spec_sprite() matches Some(a) ==> a.wf())
        &&& (self.spec_typed() matches Some(c) ==> c.wf())
    }

    /// A blank stage with no sprite, background or overlay.
    pub fn new(config: StageConfig) -> (r: Self)
        ensures
            r.spec_config() == config,
            r.spec_pict()@ == filled(r.width(), pict_height(r.height()), TRANSPARENT_CHAR),
            r.spec_telop()@ == filled(r.width(), telop_height(r.height()), TRANSPARENT_CHAR),
            r.spec_subtelop()@ == filled(r.width(), subtelop_height(r.height()), TRANSPARENT_CHAR),
            r.spec_sprite() is None,
            r.spec_background() is None,
            r.spec_typed() is None,
            r.spec_changed() == (false, false),
    {
        let (w, h) = config.stage_wxh;
        let pict_area_height = pict_rows(h);
        proof {
            lemma_region_heights_sum(h as nat);
        }
        let telop_area_height = (h - pict_area_height) / 2;
        let subtelop_area_height = h - pict_area_height - telop_area_height;
        Stage {
            pict_area: CharGrid::new(w, pict_area_height),
            telop_area: CharGrid::new(w, telop_area_height),
            subtelop_area: CharGrid::new(w, subtelop_area_height),
            ascii_art: None,
            background: None,
            config,
            typed_char: None,
            telop_changed: false,
            subtelop_changed: false,
        }
    }

    /// What a sprite shown by `appear` is made for: the configured width.
    pub fn sprite_context(&self) -> (r: AsciiArtContext)
        ensures
            r.stage_wxh == self.spec_config().stage_wxh,
            r.aa_width == self.spec_config().aa_width,
            r.framerate == self.spec_config().framerate,
    {
        AsciiArtContext {
            stage_wxh: self.config.stage_wxh,
            aa_width: self.config.aa_width,
            framerate: self.config.framerate,
        }
    }

    /// What a title picture is made for: half the stage's width.
    pub fn title_context(&self) -> (r: AsciiArtContext)
        ensures
            r.stage_wxh == self.spec_config().stage_wxh,
            r.aa_width == self.spec_config().stage_wxh.0 / 2,
            r.framerate == self.spec_config().framerate,
    {
        AsciiArtContext {
            stage_wxh: self.config.stage_wxh,
            aa_width: self.config.stage_wxh.0 / 2,
            framerate: self.config.framerate,
        }
    }

    /// Shows `image` as a still title: no entrance, no exit, no motion, over
    /// no background. Without an image the stage shows no sprite.
    pub fn title(&mut self, image: Option<CharGrid>)
        ensures
            final(self).spec_config() == old(self).spec_config(),
            final(self).spec_pict() == old(self).spec_pict(),
            final(self).spec_telop() == old(self).spec_telop(),
            final(self).spec_subtelop() == old(self).spec_subtelop(),
            final(self).spec_typed() == old(self).spec_typed(),
            final(self).spec_background() is None,
            match image {
                Some(g) => final(self).spec_sprite() matches Some(a) && a.spec_original() == g
                    && a.spec_state() == AsciiArtState::APPEAR && a.spec_appear() is No
                    && a.spec_disappear() is No && a.spec_pos() == (0i32, 0i32)
                    && a.spec_behavior().is_still() && a.spec_data()@ == filled(
                    g.spec_width(),
                    g.spec_height(),
                    TRANSPARENT_CHAR,
                ),
                None => final(self).spec_sprite() is None,
            },
    {
        proof {
            use_type_invariant(&*self);
        }
        let context = self.title_context();
        match image {
            Some(g) => {
                let aa = AsciiArt::from_image(g, &context, EffectorType::NO, EffectorType::NO, B::still());
                self.ascii_art = Some(aa);
            },
            None => {
                self.ascii_art = None;
            },
        }
        self.background = None;
    }

    /// The row where the primary caption area starts.
    pub fn telop_offset(&self) -> (r: usize)
        ensures
            r == pict_height(self.height()),
    {
        proof {
            use_type_invariant(self);
        }
        self.pict_area.height()
    }

    /// The row where the secondary caption area starts.
    pub fn subtelop_offset(&self) -> (r: usize)
        ensures
            r == pict_height(self.height()) + telop_height(self.height()),
    {
        proof {
            use_type_invariant(self);
            lemma_region_heights_sum(self.height());
        }
        self.pict_area.height() + self.telop_area.height()
    }

    /// Rows of the primary caption area.
    pub fn telop_height(&self) -> (r: usize)
        ensures
            r == telop_height(self.height()),
    {
        proof {
            use_type_invariant(self);
        }
        self.telop_area.height()
    }

    /// Rows of the secondary caption area.
    pub fn subtelop_height(&self) -> (r: usize)
        ensures
            r == subtelop_height(self.height()),
    {
        proof {
            use_type_invariant(self);
        }
        self.subtelop_area.height()
    }

    /// Shows `image` as a new sprite with entrance and exit drawn at random,
    /// moved by `behavior`, over a fresh noise background. The sprite shown
    /// before is dropped; without an image the stage shows no sprite.
    pub fn appear(&mut self, image: Option<CharGrid>, behavior: B)
        ensures
            final(self).spec_config() == old(self).spec_config(),
            final(self).spec_pict() == old(self).spec_pict(),
            final(self).spec_telop() == old(self).spec_telop(),
            final(self).spec_subtelop() == old(self).spec_subtelop(),
            final(self).spec_typed() == old(self).spec_typed(),
            final(self).spec_background() matches Some(b) && b is Random,
            match image {
                Some(g) => final(self).spec_sprite() matches Some(a) && a.spec_original() == g
                    && a.spec_state() == AsciiArtState::APPEAR && a.spec_pos() == (0i32, 0i32)
                    && a.spec_behavior() == behavior && a.spec_data()@ == filled(
                    g.spec_width(),
                    g.spec_height(),
                    TRANSPARENT_CHAR,
                ) && (a.spec_appear() matches Effector::Fade(f) && f.frame() == 0 && f.total()
                    == EFFECTOR_DURATION as nat * old(self).spec_config().framerate as nat
                    && f.spec_fade_type() == FadeType::FADEIN) && (a.spec_disappear() matches Effector::Fade(
                    f,
                ) && f.frame() == 0 && f.total() == EFFECTOR_DURATION as nat * old(
                    self,
                ).spec_config().framerate as nat && f.spec_fade_type() == FadeType::FADEOUT),
                None => final(self).spec_sprite() is None,
            },
    {
        proof {
            use_type_invariant(&*self);
        }
        let context = self.sprite_context();
        match image {
            Some(g) => {
                let aa = AsciiArt::from_image_easy(g, &context, behavior);
                self.ascii_art = Some(aa);
            },
            None => {
                self.ascii_art = None;
            },
        }
        self.background = Some(generate_background_randomly());
    }

    /// Asks the sprite, if there is one, to leave.
    pub fn disappear(&mut self)
        ensures
            final(self).spec_config() == old(self).spec_config(),
            final(self).spec_pict() == old(self).spec_pict(),
            final(self).spec_telop() == old(self).spec_telop(),
            final(self).spec_subtelop() == old(self).spec_subtelop(),
            final(self).spec_typed() == old(self).spec_typed(),
            final(self).spec_background() == old(self).spec_background(),
            match old(self).spec_sprite() {
                Some(a) => final(self).spec_sprite() matches Some(b) && b.spec_data() == a.spec_data()
                    && b.spec_pos() == a.spec_pos() && b.spec_original() == a.spec_original()
                    && b.spec_appear() == a.spec_appear() && b.spec_disappear() == a.spec_disappear()
                    && b.spec_behavior() == a.spec_behavior() && (a.spec_state()
                    == AsciiArtState::DISAPPERED ==> b == a) && b.spec_state() == if a.spec_state()
                    == AsciiArtState::DISAPPERED {
                    AsciiArtState::DISAPPERED
                } else {
                    AsciiArtState::DISAPPER
                },
                None => final(self).spec_sprite() is None,
            },
    {
        proof {
            use_type_invariant(&*self);
        }
        let mut sprite: Option<AsciiArt<B>> = None;
        std::mem::swap(&mut sprite, &mut self.ascii_art);
        match sprite {
            Some(mut aa) => {
                aa.disapper();
                self.ascii_art = Some(aa);
            },
            None => {},
        }
    }

    /// Blanks the primary caption area and shows `rendered` in it from the
    /// top-left corner; without a rendering the area stays blank. The area
    /// counts as changed until it is next drawn.
    pub fn update_telop(&mut self, rendered: Option<CharGrid>) -> (r: &CharGrid)
        ensures
            *r == final(self).spec_telop(),
            caption(final(self).spec_telop()@, final(self).width(), telop_height(final(self).height()), rendered),
            final(self).spec_changed() == (true, old(self).spec_changed().1),
            final(self).spec_config() == old(self).spec_config(),
            final(self).spec_pict() == old(self).spec_pict(),
            final(self).spec_subtelop() == old(self).spec_subtelop(),
            final(self).spec_sprite() == old(self).spec_sprite(),
            final(self).spec_background() == old(self).spec_background(),
            final(self).spec_typed() == old(self).spec_typed(),
    {
        proof {
            use_type_invariant(&*self);
        }
        let mut area = CharGrid::new(self.telop_area.width(), self.telop_area.height());
        fill_caption(&mut area, rendered);
        self.telop_area = area;
        self.telop_changed = true;
        &self.telop_area
    }

    /// Blanks the secondary caption area and shows `rendered` in it from the
    /// top-left corner; without a rendering the area stays blank. The area
    /// counts as changed until it is next drawn.
    pub fn update_subtelop(&mut self, rendered: Option<CharGrid>) -> (r: &CharGrid)
        ensures
            *r == final(self).spec_subtelop(),
            caption(final(self).spec_subtelop()@, final(self).width(), subtelop_height(final(self).height()), rendered),
            final(self).spec_changed() == (old(self).spec_changed().0, true),
            final(self).spec_config() == old(self).spec_config(),
            final(self).spec_pict() == old(self).spec_pict(),
            final(self).spec_telop() == old(self).spec_telop(),
            final(self).spec_sprite() == old(self).spec_sprite(),
            final(self).spec_background() == old(self).spec_background(),
            final(self).spec_typed() == old(self).spec_typed(),
    {
        proof {
            use_type_invariant(&*self);
        }
        let mut area = CharGrid::new(self.subtelop_area.width(), self.subtelop_area.height());
        fill_caption(&mut area, rendered);
        self.subtelop_area = area;
        self.subtelop_changed = true;
        &self.subtelop_area
    }

    /// How typed characters are made on this stage: over the picture area,
    /// between a third of its height and its full height, drawn with one of
    /// `@ * + -`, for half a second.
    pub fn character_config(&self) -> (r: CharacterConfig)
        ensures
            r.area_wxh == (self.spec_config().stage_wxh.0, pict_height(self.height()) as usize),
            r.min_size == pict_height(self.height()) / 3,
            r.max_size == pict_height(self.height()),
            r.chars@ == typed_glyph_chars(),
            r.duration_ms == TYPED_CHAR_DURATION_MS,
            r.framerate == self.spec_config().framerate,
    {
        proof {
            use_type_invariant(self);
        }
        let h = self.pict_area.height();
        CharacterConfig {
            area_wxh: (self.pict_area.width(), h),
            min_size: h / 3,
            max_size: h,
            chars: vec!['@', '*', '+', '-'],
            duration_ms: TYPED_CHAR_DURATION_MS,
            framerate: self.config.framerate,
        }
    }

    /// Starts showing `glyph` as the typed-character overlay, replacing any
    /// overlay already shown.
    pub fn update_character(&mut self, glyph: CharGrid)
        ensures
            final(self).spec_typed() matches Some(c) && c.spec_glyph() == glyph && c.frame() == 0
                && c.spec_status() == CharacterStatus::APPEARED && c.total() == lifetime_frames(
                TYPED_CHAR_DURATION_MS,
                old(self).spec_config().framerate,
            ) && 0 <= c.spec_pos().x <= placement_room(old(self).width(), glyph.spec_width())
                && 0 <= c.spec_pos().y <= placement_room(
                pict_height(old(self).height()),
                glyph.spec_height(),
            ),
            final(self).spec_config() == old(self).spec_config(),
            final(self).spec_pict() == old(self).spec_pict(),
            final(self).spec_telop() == old(self).spec_telop(),
            final(self).spec_subtelop() == old(self).spec_subtelop(),
            final(self).spec_sprite() == old(self).spec_sprite(),
            final(self).spec_background() == old(self).spec_background(),
    {
        proof {
            use_type_invariant(&*self);
        }
        let config = self.character_config();
        self.typed_char = Some(Character::new(glyph, config));
    }

    /// A fresh picture area painted by the background, or blank without one.
    fn painted_background(&mut self) -> (r: CharGrid)
        ensures
            r.spec_width() == old(self).width(),
            r.spec_height() == pict_height(old(self).height()),
            painted(old(self).spec_background(), r@, old(self).width(), pict_height(old(self).height())),
            *final(self) == *old(self),
    {
        proof {
            use_type_invariant(&*self);
        }
        let mut pict = CharGrid::new(self.pict_area.width(), self.pict_area.height());
        let mut background: Option<Background> = None;
        std::mem::swap(&mut background, &mut self.background);
        match background {
            Some(mut b) => {
                b.update(&mut pict);
                self.background = Some(b);
            },
            None => {
                pict.overwrite_char_all(TRANSPARENT_CHAR);
            },
        }
        pict
    }

    /// Repaints the picture area with the background alone and returns it.
    pub fn clear_pict(&mut self) -> (r: &CharGrid)
        ensures
            *r == final(self).spec_pict(),
            painted(
                old(self).spec_background(),
                final(self).spec_pict()@,
                old(self).width(),
                pict_height(old(self).height()),
            ),
            final(self).spec_config() == old(self).spec_config(),
            final(self).spec_telop() == old(self).spec_telop(),
            final(self).spec_subtelop() == old(self).spec_subtelop(),
            final(self).spec_sprite() == old(self).spec_sprite(),
            final(self).spec_background() == old(self).spec_background(),
            final(self).spec_typed() == old(self).spec_typed(),
    {
        proof {
            use_type_invariant(&*self);
        }
        let pict = self.painted_background();
        self.pict_area = pict;
        &self.pict_area
    }

    /// Advances the stage one frame and returns the picture area: the
    /// background is repainted, the sprite advances and is laid over it,
    /// centred and moved by its offset, and the typed character counts a
    /// frame and is laid over that, or is dropped once its time is up. Blanks
    /// in the sprite and the character let what is below show through.
    pub fn update_pict(&mut self) -> (r: &CharGrid)
        ensures
            *r == final(self).spec_pict(),
            final(self).spec_config() == old(self).spec_config(),
            final(self).spec_telop() == old(self).spec_telop(),
            final(self).spec_subtelop() == old(self).spec_subtelop(),
            final(self).spec_background() == old(self).spec_background(),
            match old(self).spec_sprite() {
                Some(a) => final(self).spec_sprite() matches Some(b) && a.is_next(b),
                None => final(self).spec_sprite() is None,
            },
            typed_next(old(self).spec_typed(), final(self).spec_typed()),
            exists|bg: Seq<Seq<char>>|
                #[trigger] painted(old(self).spec_background(), bg, old(self).width(), pict_height(old(self).height()))
                    && final(self).spec_pict()@ == with_typed(
                    with_sprite(bg, final(self).spec_sprite(), old(self).width(), pict_height(old(self).height())),
                    final(self).spec_typed(),
                ),
    {
        proof {
            use_type_invariant(&*self);
        }
        let mut pict = self.painted_background();
        let ghost bg = pict@;
        let mut sprite: Option<AsciiArt<B>> = None;
        std::mem::swap(&mut sprite, &mut self.ascii_art);
        match sprite {
            Some(mut aa) => {
                aa.update();
                let pos = aa.get_position();
                pict.overwrite_rect_center(aa.get_data(), CharPosition { x: pos.0, y: pos.1 }, Some(TRANSPARENT_CHAR));
                self.ascii_art = Some(aa);
            },
            None => {},
        }
        let ghost with_aa = pict@;
        assert(with_aa == with_sprite(bg, self.ascii_art, self.width(), pict_height(self.height())));
        let mut typed: Option<Character> = None;
        std::mem::swap(&mut typed, &mut self.typed_char);
        match typed {
            Some(mut ch) => {
                match ch.update() {
                    CharacterStatus::APPEARED => {
                        pict.overwrite_rect(ch.get_data(), ch.get_position(), Some(TRANSPARENT_CHAR));
                        self.typed_char = Some(ch);
                    },
                    CharacterStatus::DISAPPEARED => {},
                }
            },
            None => {},
        }
        self.pict_area = pict;
        assert(painted(self.background, bg, self.width(), pict_height(self.height())));
        &self.pict_area
    }

    /// Which caption areas changed since this was last asked (primary,
    /// secondary); both count as drawn afterwards.
    pub fn take_changed_captions(&mut self) -> (r: (bool, bool))
        ensures
            r == old(self).spec_changed(),
            final(self).spec_changed() == (false, false),
            final(self).spec_config() == old(self).spec_config(),
            final(self).spec_pict() == old(self).spec_pict(),
            final(self).spec_telop() == old(self).spec_telop(),
            final(self).spec_subtelop() == old(self).spec_subtelop(),
            final(self).spec_sprite() == old(self).spec_sprite(),
            final(self).spec_background() == old(self).spec_background(),
            final(self).spec_typed() == old(self).spec_typed(),
    {
        proof {
            use_type_invariant(&*self);
        }
        let r = (self.telop_changed, self.subtelop_changed);
        self.telop_changed = false;
        self.subtelop_changed = false;
        r
    }

    /// The primary caption area.
    pub fn telop_area(&self) -> (r: &CharGrid)
        ensures
            *r == self.spec_telop(),
    {
        &self.telop_area
    }

    /// The secondary caption area.
    pub fn subtelop_area(&self) -> (r: &CharGrid)
        ensures
            *r == self.spec_subtelop(),
    {
        &self.subtelop_area
    }

    /// The sprite shown, if any.
    pub fn sprite(&self) -> (r: Option<&AsciiArt<B>>)
        ensures
            match self.spec_sprite() {
                Some(a) => r == Some(&a),
                None => r is None,
            },
    {
        match &self.ascii_art {
            Some(a) => Some(a),
            None => None,
        }
    }

    /// A typed character is being shown.
    pub fn has_typed_char(&self) -> (r: bool)
        ensures
            r == self.spec_typed() is Some,
    {
        match self.typed_char {
            Some(_) => true,
            None => false,
        }
    }
}

/// Blanks `area` and lays `rendered`, if any, over it from the top-left corner.
fn fill_caption(area: &mut CharGrid, rendered: Option<CharGrid>)
    ensures
        final(area).spec_width() == old(area).spec_width(),
        final(area).spec_height() == old(area).spec_height(),
        caption(final(area)@, old(area).spec_width(), old(area).spec_height(), rendered),
{
    area.overwrite_char_all(TRANSPARENT_CHAR);
    match rendered {
        Some(g) => {
            area.overwrite_rect(&g, CharPosition { x: 0, y: 0 }, None);
        },
        None => {},
    }
}

} // verus!
