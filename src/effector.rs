//! Effectors: frame-driven transitions that draw a working grid toward, or
//! away from, an original grid.
use crate::grid::{is_rect, lemma_copy_same_size, CharGrid, CharPosition, TRANSPARENT_CHAR};
use crate::random::random_in;
use vstd::prelude::*;

verus! {

/// Which effector to build.
#[allow(non_camel_case_types)]
#[derive(Clone, Copy, Debug, PartialEq, Eq, Structural)]
pub enum EffectorType {
    NO,
    FADEIN(FadeDirection),
    FADEOUT(FadeDirection),
}

/// What an effector reports after drawing a frame.
#[allow(non_camel_case_types)]
#[derive(Clone, Copy, Debug, PartialEq, Eq, Structural)]
pub enum EffectorStatus {
    DOING,
    COMPLETED,
}

/// The edge a fade travels toward.
#[allow(non_camel_case_types)]
#[derive(Clone, Copy, Debug, PartialEq, Eq, Structural)]
pub enum FadeDirection {
    UP,
    DOWN,
    LEFT,
    RIGHT,
}

/// Whether a fade reveals the picture or hides it.
#[allow(non_camel_case_types)]
#[derive(Clone, Copy, Debug, PartialEq, Eq, Structural)]
pub enum FadeType {
    FADEIN,
    FADEOUT,
}

/// How many rows (or columns) of an extent of `extent` the band boundary has
/// passed after `k` of `total` frames. With no frames at all the fade counts
/// as finished.
pub open spec fn boundary(extent: nat, k: nat, total: nat) -> nat {
    if total == 0 {
        extent
    } else {
        extent * k / total
    }
}

/// Whether cell (x, y) of a `width` × `height` grid is blanked on frame `k`
/// of `total`.
pub open spec fn is_masked(
    direction: FadeDirection,
    fade_type: FadeType,
    width: nat,
    height: nat,
    k: nat,
    total: nat,
    x: int,
    y: int,
) -> bool {
    match direction {
        FadeDirection::DOWN => {
            let b = boundary(height, k, total) as int;
            match fade_type {
                FadeType::FADEIN => y >= b,
                FadeType::FADEOUT => y < b,
            }
        },
        FadeDirection::UP => {
            let b = height - boundary(height, k, total);
            match fade_type {
                FadeType::FADEIN => y < b,
                FadeType::FADEOUT => y >= b,
            }
        },
        FadeDirection::LEFT => {
            let b = boundary(width, k, total) as int;
            match fade_type {
                FadeType::FADEIN => x >= b,
                FadeType::FADEOUT => x < b,
            }
        },
        FadeDirection::RIGHT => {
            let b = width - boundary(width, k, total);
            match fade_type {
                FadeType::FADEIN => x < b,
                FadeType::FADEOUT => x >= b,
            }
        },
    }
}

/// Frame `k` of `total` of a fade of `original` (rows of `width` cells): the
/// original with the masked band made transparent.
pub open spec fn fade_frame(
    original: Seq<Seq<char>>,
    width: nat,
    direction: FadeDirection,
    fade_type: FadeType,
    k: nat,
    total: nat,
) -> Seq<Seq<char>> {
    Seq::new(
        original.len(),
        |y: int|
            Seq::new(
                width,
                |x: int|
                    if is_masked(direction, fade_type, width, original.len(), k, total, x, y) {
                        TRANSPARENT_CHAR
                    } else {
                        original[y][x]
                    },
            ),
    )
}

/// The frame counter after one more call: it counts up to `total + 1` and stays there.
pub open spec fn next_frame(frame: nat, total: nat) -> nat {
    if frame <= total {
        frame + 1
    } else {
        frame
    }
}

/// A call made at frame `frame` reports completion.
pub open spec fn completes_at(frame: nat, total: nat) -> bool {
    frame >= total
}

/// The frame counter of a fresh fade after `calls` calls.
pub open spec fn frame_after(total: nat, calls: nat) -> nat
    decreases calls,
{
    if calls == 0 {
        0
    } else {
        next_frame(frame_after(total, (calls - 1) as nat), total)
    }
}

/// The smaller of `a` and `b`.
pub open spec fn min_nat(a: nat, b: nat) -> nat {
    if a <= b {
        a
    } else {
        b
    }
}

/// An effector that shows the picture at once.
pub struct NoEffector {}

impl NoEffector {
    pub fn new() -> NoEffector {
        NoEffector {  }
    }

    /// Copies the picture into the working grid and reports completion.
    pub fn update(&mut self, data: &mut CharGrid, original_data: &CharGrid) -> (r: EffectorStatus)
        requires
            old(data).spec_width() == original_data.spec_width(),
            old(data).spec_height() == original_data.spec_height(),
        ensures
            final(data).wf(),
            final(data).spec_width() == original_data.spec_width(),
            final(data)@ == original_data@,
            r == EffectorStatus::COMPLETED,
    {
        proof {
            use_type_invariant(&*data);
            use_type_invariant(original_data);
            lemma_copy_same_size(data@, original_data@, original_data.spec_width());
        }
        data.overwrite_rect(original_data, CharPosition { x: 0, y: 0 }, None);
        EffectorStatus::COMPLETED
    }
}

/// A fade in or out along one direction, over `duration` seconds at `framerate`
/// frames a second.
pub struct FadeInEffector {
    current_frame: u64,
    direction: FadeDirection,
    duration: u32,
    framerate: u32,
    fade_type: FadeType,
}

impl FadeInEffector {
    /// Frames drawn so far.
    pub closed spec fn frame(&self) -> nat {
        self.current_frame as nat
    }

    /// Frames in the whole fade: duration times framerate.
    pub closed spec fn total(&self) -> nat {
        self.duration as nat * self.framerate as nat
    }

    pub closed spec fn spec_direction(&self) -> FadeDirection {
        self.direction
    }

    pub closed spec fn spec_fade_type(&self) -> FadeType {
        self.fade_type
    }

    /// What the next call draws from `original` (rows of `width` cells).
    pub open spec fn drawn(&self, original: Seq<Seq<char>>, width: nat) -> Seq<Seq<char>> {
        fade_frame(
            original,
            width,
            self.spec_direction(),
            self.spec_fade_type(),
            min_nat(self.frame(), self.total()),
            self.total(),
        )
    }

    /// `next` is this fade one call later.
    pub open spec fn is_next(&self, next: FadeInEffector) -> bool {
        &&& next.frame() == next_frame(self.frame(), self.total())
        &&& next.total() == self.total()
        &&& next.spec_direction() == self.spec_direction()
        &&& next.spec_fade_type() == self.spec_fade_type()
    }

    pub fn new(direction: FadeDirection, duration: u32, framerate: u32, fade_type: FadeType) -> (r: FadeInEffector)
        ensures
            r.frame() == 0,
            r.total() == duration as nat * framerate as nat,
            r.spec_direction() == direction,
            r.spec_fade_type() == fade_type,
    {
        FadeInEffector { current_frame: 0, direction, duration, framerate, fade_type }
    }

    /// Draws the current frame into `data` and advances the counter. The call
    /// made once every frame has been counted reports completion; later calls
    /// draw the finished frame again.
    pub fn update(&mut self, data: &mut CharGrid, original_data: &CharGrid) -> (r: EffectorStatus)
        requires
            old(data).spec_width() == original_data.spec_width(),
            old(data).spec_height() == original_data.spec_height(),
        ensures
            old(self).is_next(*final(self)),
            final(data).wf(),
            final(data).spec_width() == original_data.spec_width(),
            final(data)@ == old(self).drawn(original_data@, original_data.spec_width()),
            (r == EffectorStatus::COMPLETED) == completes_at(old(self).frame(), old(self).total()),
    {
        proof {
            lemma_total_fits(self.duration, self.framerate);
        }
        let total: u64 = self.duration as u64 * self.framerate as u64;
        let k: u64 = if self.current_frame < total {
            self.current_frame
        } else {
            total
        };
        let width = original_data.width();
        let height = original_data.height();
        let ghost w = width as nat;
        proof {
            use_type_invariant(&*data);
            use_type_invariant(original_data);
            lemma_copy_same_size(data@, original_data@, w);
        }
        data.copy_from(original_data);
        let ghost orig = original_data@;
        let ghost expected = fade_frame(orig, w, self.direction, self.fade_type, k as nat, total as nat);
        match self.direction {
            FadeDirection::DOWN => {
                let b = band_boundary(height, k, total);
                match self.fade_type {
                    FadeType::FADEIN => data.mask_rows(TRANSPARENT_CHAR, b, height),
                    FadeType::FADEOUT => data.mask_rows(TRANSPARENT_CHAR, 0, b),
                }
                assert(data@ =~~= expected);
            },
            FadeDirection::UP => {
                let b = height - band_boundary(height, k, total);
                match self.fade_type {
                    FadeType::FADEIN => data.mask_rows(TRANSPARENT_CHAR, 0, b),
                    FadeType::FADEOUT => data.mask_rows(TRANSPARENT_CHAR, b, height),
                }
                assert(data@ =~~= expected);
            },
            FadeDirection::LEFT => {
                let b = band_boundary(width, k, total);
                match self.fade_type {
                    FadeType::FADEIN => data.mask_columns(TRANSPARENT_CHAR, b, width),
                    FadeType::FADEOUT => data.mask_columns(TRANSPARENT_CHAR, 0, b),
                }
                assert(data@ =~~= expected);
            },
            FadeDirection::RIGHT => {
                let b = width - band_boundary(width, k, total);
                match self.fade_type {
                    FadeType::FADEIN => data.mask_columns(TRANSPARENT_CHAR, 0, b),
                    FadeType::FADEOUT => data.mask_columns(TRANSPARENT_CHAR, b, width),
                }
                assert(data@ =~~= expected);
            },
        }
        let done = self.current_frame >= total;
        if self.current_frame <= total {
            self.current_frame = self.current_frame + 1;
        }
        if done {
            EffectorStatus::COMPLETED
        } else {
            EffectorStatus::DOING
        }
    }
}

/// `extent · k / total` rounded down, or `extent` when `total` is zero.
fn band_boundary(extent: usize, k: u64, total: u64) -> (b: usize)
    requires
        k <= total,
    ensures
        b == boundary(extent as nat, k as nat, total as nat),
        b <= extent,
{
    if total == 0 {
        extent
    } else {
        proof {
            assert(extent as nat * k as nat <= 0xffff_ffff_ffff_ffff * 0xffff_ffff_ffff_ffff)
                by (nonlinear_arith)
                requires
                    extent <= 0xffff_ffff_ffff_ffff,
                    k <= 0xffff_ffff_ffff_ffff,
            ;
        }
        let p: u128 = extent as u128 * k as u128;
        proof {
            assert(extent as nat * k as nat <= extent as nat * total as nat) by (nonlinear_arith)
                requires
                    k <= total,
            ;
            assert(extent as nat * k as nat / total as nat <= extent as nat) by (nonlinear_arith)
                requires
                    extent as nat * k as nat <= extent as nat * total as nat,
                    total > 0,
            ;
        }
        (p / total as u128) as usize
    }
}

/// The frame count of a fade fits in a `u64` with room for one more.
proof fn lemma_total_fits(duration: u32, framerate: u32)
    ensures
        (duration as nat * framerate as nat) < 0xffff_ffff_ffff_ffff,
{
    assert(duration as nat * framerate as nat <= 0xffff_ffff * 0xffff_ffff) by (nonlinear_arith)
        requires
            duration <= 0xffff_ffff,
            framerate <= 0xffff_ffff,
    ;
}

/// A transition strategy: none, or a fade.
pub enum Effector {
    No(NoEffector),
    Fade(FadeInEffector),
}

impl Effector {
    /// What the next call draws from `original` (rows of `width` cells).
    pub open spec fn drawn(&self, original: Seq<Seq<char>>, width: nat) -> Seq<Seq<char>> {
        match self {
            Effector::No(_) => original,
            Effector::Fade(f) => f.drawn(original, width),
        }
    }

    /// The next call reports completion.
    pub open spec fn completes(&self) -> bool {
        match self {
            Effector::No(_) => true,
            Effector::Fade(f) => completes_at(f.frame(), f.total()),
        }
    }

    /// `next` is this effector one call later.
    pub open spec fn is_next(&self, next: Effector) -> bool {
        match (self, next) {
            (Effector::No(_), Effector::No(_)) => true,
            (Effector::Fade(a), Effector::Fade(b)) => a.is_next(b),
            _ => false,
        }
    }

    /// Draws the next frame of the transition into `data` and reports whether
    /// it has finished.
    pub fn update(&mut self, data: &mut CharGrid, original_data: &CharGrid) -> (r: EffectorStatus)
        requires
            old(data).spec_width() == original_data.spec_width(),
            old(data).spec_height() == original_data.spec_height(),
        ensures
            old(self).is_next(*final(self)),
            final(data).wf(),
            final(data).spec_width() == original_data.spec_width(),
            final(data)@ == old(self).drawn(original_data@, original_data.spec_width()),
            (r == EffectorStatus::COMPLETED) == old(self).completes(),
    {
        match self {
            Effector::No(e) => e.update(data, original_data),
            Effector::Fade(f) => f.update(data, original_data),
        }
    }
}

/// `e` is a fresh effector of type `t` whose fades last `duration` seconds at `framerate`.
pub open spec fn is_built(t: EffectorType, duration: u32, framerate: u32, e: Effector) -> bool {
    &&& match t {
        EffectorType::NO => e is No,
        EffectorType::FADEIN(d) => e matches Effector::Fade(f) && f.frame() == 0 && f.total()
            == duration as nat * framerate as nat && f.spec_direction() == d && f.spec_fade_type()
            == FadeType::FADEIN,
        EffectorType::FADEOUT(d) => e matches Effector::Fade(f) && f.frame() == 0 && f.total()
            == duration as nat * framerate as nat && f.spec_direction() == d && f.spec_fade_type()
            == FadeType::FADEOUT,
    }
}

/// The effector of the given type; the fades last `duration` seconds at `framerate`.
pub fn generate_effector(effector_type: EffectorType, duration: u32, framerate: u32) -> (r: Effector)
    ensures
        is_built(effector_type, duration, framerate, r),
{
    match effector_type {
        EffectorType::NO => Effector::No(NoEffector::new()),
        EffectorType::FADEIN(direction) => Effector::Fade(
            FadeInEffector::new(direction, duration, framerate, FadeType::FADEIN),
        ),
        EffectorType::FADEOUT(direction) => Effector::Fade(
            FadeInEffector::new(direction, duration, framerate, FadeType::FADEOUT),
        ),
    }
}

/// The direction numbered `index`: up, down, left, right for 0 to 3, up otherwise.
pub fn direction_from_index(index: usize) -> (d: FadeDirection)
    ensures
        d == (if index == 1 {
            FadeDirection::DOWN
        } else if index == 2 {
            FadeDirection::LEFT
        } else if index == 3 {
            FadeDirection::RIGHT
        } else {
            FadeDirection::UP
        }),
{
    match index {
        1 => FadeDirection::DOWN,
        2 => FadeDirection::LEFT,
        3 => FadeDirection::RIGHT,
        _ => FadeDirection::UP,
    }
}

/// A fade-in toward a direction drawn at random.
pub fn generate_appear_effector_randomly(duration: u32, framerate: u32) -> (r: Effector)
    ensures
        r matches Effector::Fade(f) && f.frame() == 0 && f.total() == duration as nat
            * framerate as nat && f.spec_fade_type() == FadeType::FADEIN,
{
    let direction = direction_from_index(random_in(0, 4));
    generate_effector(EffectorType::FADEIN(direction), duration, framerate)
}

/// A fade-out toward a direction drawn at random.
pub fn generate_disappear_effector_randomly(duration: u32, framerate: u32) -> (r: Effector)
    ensures
        r matches Effector::Fade(f) && f.frame() == 0 && f.total() == duration as nat
            * framerate as nat && f.spec_fade_type() == FadeType::FADEOUT,
{
    let direction = direction_from_index(random_in(0, 4));
    generate_effector(EffectorType::FADEOUT(direction), duration, framerate)
}

/// A fresh fade of `total` frames reports completion on call `total + 1`
/// (counting from one) and on no earlier call; with no frames at all that is
/// the first call.
pub proof fn lemma_completes_on_call_after_last_frame(total: nat, call: nat)
    requires
        1 <= call <= total + 1,
    ensures
        completes_at(frame_after(total, (call - 1) as nat), total) <==> call == total + 1,
{
    lemma_frame_after(total, (call - 1) as nat);
}

/// A fresh fade has counted `calls` frames after `calls` calls, up to `total + 1`.
pub proof fn lemma_frame_after(total: nat, calls: nat)
    ensures
        frame_after(total, calls) == min_nat(calls, total + 1),
    decreases calls,
{
    if calls > 0 {
        lemma_frame_after(total, (calls - 1) as nat);
    }
}

/// A fade-in toward the bottom shows nothing at frame zero and the whole
/// original at its last frame; at frame `k` the first `height · k / total`
/// rows show the picture and the rest are transparent.
pub proof fn lemma_fade_in_down_reveals_rows(original: Seq<Seq<char>>, width: nat, k: nat, total: nat)
    requires
        is_rect(original, width),
        0 < total,
        k <= total,
    ensures
        ({
            let f = fade_frame(original, width, FadeDirection::DOWN, FadeType::FADEIN, k, total);
            let shown = original.len() * k / total;
            &&& f.len() == original.len()
            &&& forall|y: int| 0 <= y < shown ==> #[trigger] f[y] == original[y]
            &&& forall|y: int|
                shown <= y < original.len() ==> #[trigger] f[y] == Seq::new(width, |x: int| TRANSPARENT_CHAR)
        }),
        fade_frame(original, width, FadeDirection::DOWN, FadeType::FADEIN, 0, total) == Seq::new(
            original.len(),
            |y: int| Seq::new(width, |x: int| TRANSPARENT_CHAR),
        ),
        fade_frame(original, width, FadeDirection::DOWN, FadeType::FADEIN, total, total) == original,
{
    let f = fade_frame(original, width, FadeDirection::DOWN, FadeType::FADEIN, k, total);
    let shown = original.len() * k / total;
    assert(shown <= original.len()) by (nonlinear_arith)
        requires
            shown == original.len() * k / total,
            k <= total,
            0 < total,
    ;
    assert forall|y: int| 0 <= y < shown implies #[trigger] f[y] == original[y] by {
        assert(original[y].len() == width);
        assert(f[y] =~= original[y]);
    }
    assert forall|y: int| shown <= y < original.len() implies #[trigger] f[y] == Seq::new(
        width,
        |x: int| TRANSPARENT_CHAR,
    ) by {
        assert(f[y] =~= Seq::new(width, |x: int| TRANSPARENT_CHAR));
    }
    let f0 = fade_frame(original, width, FadeDirection::DOWN, FadeType::FADEIN, 0, total);
    assert(original.len() * 0 / total == 0) by (nonlinear_arith)
        requires
            total > 0,
    ;
    assert(f0 =~~= Seq::new(original.len(), |y: int| Seq::new(width, |x: int| TRANSPARENT_CHAR)));
    let fl = fade_frame(original, width, FadeDirection::DOWN, FadeType::FADEIN, total, total);
    assert(original.len() * total / total == original.len()) by (nonlinear_arith)
        requires
            total > 0,
    ;
    assert forall|y: int| 0 <= y < original.len() implies #[trigger] fl[y] == original[y] by {
        assert(original[y].len() == width);
        assert(fl[y] =~= original[y]);
    }
    assert(fl =~= original);
}

} // verus!
