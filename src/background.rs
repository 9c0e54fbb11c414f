//! Backgrounds: what the picture area is repainted with before the sprite is
//! laid over it.
use crate::grid::{filled, is_rect, rows_view, CharGrid, TRANSPARENT_CHAR};
use crate::random::random_in;
use vstd::prelude::*;

verus! {

/// Which background to build.
#[allow(non_camel_case_types)]
#[derive(Clone, Copy, Debug, PartialEq, Eq, Structural)]
pub enum BackgroundType {
    RANDOM,
    NONE,
}

/// Sparse noise: each cell drawn at random from a set of glyphs.
pub struct RandomBackground {
    chars: Vec<char>,
}

/// A blank background.
pub struct NoneBackground {}

/// A background strategy.
pub enum Background {
    Random(RandomBackground),
    Blank(NoneBackground),
}

/// `cells` is a `width` × `height` rectangle whose every character is one of `chars`.
pub open spec fn drawn_from(cells: Seq<Seq<char>>, width: nat, height: nat, chars: Seq<char>) -> bool {
    &&& cells.len() == height
    &&& forall|y: int| 0 <= y < height ==> #[trigger] cells[y].len() == width
    &&& forall|y: int, x: int| 0 <= y < height && 0 <= x < width ==> chars.contains(#[trigger] cells[y][x])
}

impl RandomBackground {
    pub closed spec fn glyphs(&self) -> Seq<char> {
        self.chars@
    }

    /// There is a glyph to draw; every noise background keeps to this.
    #[verifier::type_invariant]
    pub open spec fn wf(&self) -> bool {
        self.glyphs().len() > 0
    }

    /// Noise drawn from `chars`, which must hold at least one glyph.
    pub fn new(chars: Vec<char>) -> (r: Self)
        requires
            chars@.len() > 0,
        ensures
            r.glyphs() == chars@,
    {
        RandomBackground { chars }
    }

    /// Repaints every cell of `stage` with a glyph drawn at random.
    pub fn update(&mut self, stage: &mut CharGrid)
        ensures
            *final(self) == *old(self),
            final(stage).spec_width() == old(stage).spec_width(),
            drawn_from(final(stage)@, old(stage).spec_width(), old(stage).spec_height(), old(self).glyphs()),
    {
        proof {
            use_type_invariant(&*self);
        }
        let width = stage.width();
        let height = stage.height();
        let mut rows: Vec<Vec<char>> = Vec::new();
        let mut y: usize = 0;
        while y < height
            invariant
                y <= height,
                self.chars@.len() > 0,
                rows@.len() == y,
                forall|j: int| 0 <= j < y ==> #[trigger] rows@[j]@.len() == width,
                forall|j: int, x: int|
                    0 <= j < y && 0 <= x < width ==> self.chars@.contains(#[trigger] rows@[j]@[x]),
            decreases height - y,
        {
            let mut row: Vec<char> = Vec::new();
            let mut x: usize = 0;
            while x < width
                invariant
                    x <= width,
                    self.chars@.len() > 0,
                    row@.len() == x,
                    forall|i: int| 0 <= i < x ==> self.chars@.contains(#[trigger] row@[i]),
                decreases width - x,
            {
                let index = random_in(0, self.chars.len());
                let c = self.chars[index];
                assert(self.chars@[index as int] == c);
                row.push(c);
                x = x + 1;
            }
            rows.push(row);
            y = y + 1;
        }
        assert(is_rect(rows_view(rows@), width as nat));
        assert(rows_view(rows@).len() == height);
        match CharGrid::with_width(width, rows) {
            Some(g) => {
                *stage = g;
            },
            None => {},
        }
    }
}

impl NoneBackground {
    /// Blanks every cell of `stage`.
    pub fn update(&mut self, stage: &mut CharGrid)
        ensures
            final(stage).spec_width() == old(stage).spec_width(),
            final(stage)@ == filled(old(stage).spec_width(), old(stage).spec_height(), TRANSPARENT_CHAR),
    {
        stage.overwrite_char_all(TRANSPARENT_CHAR);
    }
}

impl Background {
    /// `cells` is something that this background may paint on a `width` × `height` area.
    pub open spec fn may_paint(&self, cells: Seq<Seq<char>>, width: nat, height: nat) -> bool {
        match self {
            Background::Random(b) => drawn_from(cells, width, height, b.glyphs()),
            Background::Blank(_) => cells == filled(width, height, TRANSPARENT_CHAR),
        }
    }

    /// Repaints `stage`.
    pub fn update(&mut self, stage: &mut CharGrid)
        ensures
            *final(self) == *old(self),
            final(stage).spec_width() == old(stage).spec_width(),
            old(self).may_paint(final(stage)@, old(stage).spec_width(), old(stage).spec_height()),
    {
        match self {
            Background::Random(b) => b.update(stage),
            Background::Blank(b) => b.update(stage),
        }
    }
}

/// The glyphs of the noise background: mostly blanks, some specks.
fn noise_glyphs() -> (r: Vec<char>)
    ensures
        r@ == seq![' ', ' ', ' ', ' ', ' ', ' ', ' ', ' ', ' ', ' ', '`', '.'],
{
    vec![' ', ' ', ' ', ' ', ' ', ' ', ' ', ' ', ' ', ' ', '`', '.']
}

/// The background of the given type.
pub fn generate_background(background_type: BackgroundType) -> (r: Background)
    ensures
        match background_type {
            BackgroundType::RANDOM => r matches Background::Random(b) && b.glyphs() == seq![
                ' ',
                ' ',
                ' ',
                ' ',
                ' ',
                ' ',
                ' ',
                ' ',
                ' ',
                ' ',
                '`',
                '.',
            ],
            BackgroundType::NONE => r is Blank,
        },
{
    match background_type {
        BackgroundType::RANDOM => Background::Random(RandomBackground::new(noise_glyphs())),
        BackgroundType::NONE => Background::Blank(NoneBackground {  }),
    }
}

/// The background a newly shown sprite gets: the noise.
pub fn generate_background_randomly() -> (r: Background)
    ensures
        r is Random,
{
    generate_background(BackgroundType::RANDOM)
}

} // verus!
