//! The fractals and the drawing of a frame from the escape counts of its pixels.

use vstd::prelude::*;
use vstd::string::StringExecFns;
use rayon::iter::{IndexedParallelIterator, IntoParallelRefIterator, ParallelIterator};
use crate::context::FractalContext;
use crate::geometry::{
    center_index, center_index_spec, dimensions_fit, lemma_center_in_frame, pixel_count,
};
use crate::geometry::valid_dimensions;
use crate::shade::{gray_spec, intensity_spec, lemma_intensity_range, shade, shade_spec};

verus! {

/// The pixel drawn over the centre of every frame: pure red.
pub const CENTER_MARK: u32 = 0xFF0000;

/// An escape-time fractal with the number of steps its recurrence is run for.
#[derive(Clone, Copy, Debug, PartialEq, Eq)]
pub enum Fractal {
    /// `z = z * z + c`.
    Mandelbrot(usize),
    /// `z = (|Re z| + i |Im z|)^2 + c`.
    BurningShip(usize),
}

/// The number of steps when none is asked for.
pub const DEFAULT_ITERATIONS: usize = 30;

/// Why a fractal could not be set up.
#[derive(Clone, Copy, Debug, PartialEq, Eq)]
pub enum ConfigError {
    /// The kind is neither `mandelbrot` nor `burning-ship`.
    UnknownFractal,
    /// The number of steps is zero or is not a number.
    InvalidIterations,
}

/// Whether the text is one decimal digit or more, and nothing else.
pub open spec fn all_digits(text: Seq<char>) -> bool {
    &&& text.len() > 0
    &&& forall|i: int| 0 <= i < text.len() ==> 48 <= (#[trigger] text[i]) as u32 <= 57
}

/// The number that a run of decimal digits writes, the last digit counting ones.
pub open spec fn digits_value(digits: Seq<char>) -> nat
    decreases digits.len(),
{
    if digits.len() == 0 {
        0
    } else {
        (10 * digits_value(digits.drop_last()) + (digits.last() as u32 - 48)) as nat
    }
}

/// The number of steps that a text writes: decimal digits, after a `+` or
/// after nothing, whose value a `usize` holds. Any other text writes none.
pub open spec fn decimal_spec(text: Seq<char>) -> Option<usize> {
    let digits = if text.len() > 0 && text[0] == '+' {
        text.subrange(1, text.len() as int)
    } else {
        text
    };
    if all_digits(digits) && digits_value(digits) <= usize::MAX {
        Some(digits_value(digits) as usize)
    } else {
        None
    }
}

/// Reads a number of steps with `str::parse::<usize>`. As its documentation
/// has it, the text is to be decimal digits after an optional `+`; an empty
/// text, a sign alone, a `-`, a space, an underscore or any other character,
/// and a value past `usize::MAX` are errors, which come back as `None`.
#[verifier::external_body]
fn parse_count(text: &str) -> (count: Option<usize>)
    ensures
        count == decimal_spec(text@),
{
    text.parse::<usize>().ok()
}

/// The fractal of a kind's name and a number of steps, the default number
/// where none is given. A number of zero is refused before the kind is looked at.
pub open spec fn configure_spec(kind: Seq<char>, iterations: Option<usize>) -> Result<
    Fractal,
    ConfigError,
> {
    let max_iterations = match iterations {
        Some(count) => count,
        None => DEFAULT_ITERATIONS,
    };
    if max_iterations == 0 {
        Err(ConfigError::InvalidIterations)
    } else if kind == "mandelbrot"@ {
        Ok(Fractal::Mandelbrot(max_iterations))
    } else if kind == "burning-ship"@ {
        Ok(Fractal::BurningShip(max_iterations))
    } else {
        Err(ConfigError::UnknownFractal)
    }
}

/// Every count is one that `max_iterations` steps can give.
pub open spec fn counts_bounded(escaped: Seq<usize>, max_iterations: nat) -> bool {
    forall|i: int| 0 <= i < escaped.len() ==> #[trigger] escaped[i] <= max_iterations
}

/// The gray pixels of a sequence of escape counts, in the same order.
pub open spec fn shaded_spec(escaped: Seq<usize>, max_iterations: nat) -> Seq<u32> {
    Seq::new(escaped.len(), |i: int| shade_spec(escaped[i] as nat, max_iterations))
}

/// The frame of a viewport: each pixel gray by its escape count, but the
/// centre pixel, which is the red mark.
pub open spec fn frame_spec(
    escaped: Seq<usize>,
    max_iterations: nat,
    width: nat,
    height: nat,
) -> Seq<u32> {
    shaded_spec(escaped, max_iterations).update(
        center_index_spec(width, height) as int,
        CENTER_MARK,
    )
}

/// What `render` leaves of a context: the size and the flag as they were,
/// and the frame of the counts in place of whatever the buffer held.
pub open spec fn rendered(
    fractal: Fractal,
    before: FractalContext,
    escaped: Seq<usize>,
    after: FractalContext,
) -> bool {
    &&& after.dimensions == before.dimensions
    &&& after.updated == before.updated
    &&& after.pixels@ == frame_spec(
        escaped,
        fractal.max_iterations_spec(),
        before.dimensions.0 as nat,
        before.dimensions.1 as nat,
    )
}

/// A frame has one pixel for each count; its centre pixel is the red mark,
/// whatever the count there; every other pixel is the gray of its count.
pub proof fn lemma_frame_pixels(escaped: Seq<usize>, max_iterations: nat, width: nat, height: nat)
    requires
        width > 0,
        height > 0,
        escaped.len() == width * height,
    ensures
        frame_spec(escaped, max_iterations, width, height).len() == width * height,
        frame_spec(escaped, max_iterations, width, height)[center_index_spec(width, height) as int]
            == CENTER_MARK,
        forall|i: int|
            0 <= i < width * height && i != center_index_spec(width, height) ==> (
            #[trigger] frame_spec(escaped, max_iterations, width, height)[i]) == shade_spec(
                escaped[i] as nat,
                max_iterations,
            ),
{
    lemma_center_in_frame(width, height);
}

/// Rendering the same counts for the same viewport gives the same frame,
/// whatever the two buffers held before, however long they were, and
/// whether or not a frame was due. Nothing of an old buffer is kept.
pub proof fn lemma_render_deterministic(
    fractal: Fractal,
    escaped: Seq<usize>,
    first_before: FractalContext,
    first_after: FractalContext,
    second_before: FractalContext,
    second_after: FractalContext,
)
    requires
        first_before.dimensions == second_before.dimensions,
        rendered(fractal, first_before, escaped, first_after),
        rendered(fractal, second_before, escaped, second_after),
    ensures
        first_after.pixels@ == second_after.pixels@,
        first_after.dimensions == second_after.dimensions,
{
}

/// Rendering writes the buffer and nothing else: size and flag stay, and
/// the buffer has one slot for each pixel of the viewport, whatever its
/// length was.
pub proof fn lemma_render_writes_buffer_only(
    fractal: Fractal,
    escaped: Seq<usize>,
    before: FractalContext,
    after: FractalContext,
)
    requires
        valid_dimensions(before.dimensions.0 as nat, before.dimensions.1 as nat),
        escaped.len() == before.dimensions.0 * before.dimensions.1,
        rendered(fractal, before, escaped, after),
    ensures
        after.dimensions == before.dimensions,
        after.updated == before.updated,
        after.pixels@.len() == before.dimensions.0 * before.dimensions.1,
        after.wf(),
{
    lemma_center_in_frame(before.dimensions.0 as nat, before.dimensions.1 as nat);
}

/// Every pixel of a frame but the centre is gray: some level from 0 to 255
/// in each of its three colour bytes, and nothing above them.
pub proof fn lemma_frame_is_gray(
    escaped: Seq<usize>,
    max_iterations: nat,
    width: nat,
    height: nat,
    index: int,
)
    requires
        max_iterations >= 1,
        escaped.len() == width * height,
        counts_bounded(escaped, max_iterations),
        0 <= index < width * height,
        index != center_index_spec(width, height),
    ensures
        exists|level: nat|
            level <= 255 && #[trigger] gray_spec(level) == frame_spec(
                escaped,
                max_iterations,
                width,
                height,
            )[index],
{
    assert(width > 0 && height > 0) by (nonlinear_arith)
        requires
            0 <= index < width * height,
    ;
    lemma_center_in_frame(width, height);
    let level = intensity_spec(escaped[index] as nat, max_iterations);
    lemma_intensity_range(escaped[index] as nat, max_iterations);
    assert(gray_spec(level) == frame_spec(escaped, max_iterations, width, height)[index]);
}

/// Shades all the counts on rayon's thread pool, through
/// `par_iter().map(..).collect_into_vec(..)`. That call clears the target and
/// fills it with the closure's result for each item, in the items' order;
/// the closure is `shade`, so slot `i` holds the shade of count `i`.
#[verifier::external_body]
fn shade_into(escaped: &Vec<usize>, max_iterations: usize, pixels: &mut Vec<u32>)
    requires
        1 <= max_iterations,
        counts_bounded(escaped@, max_iterations as nat),
    ensures
        final(pixels)@ == shaded_spec(escaped@, max_iterations as nat),
{
    escaped.par_iter().map(|count| shade(*count, max_iterations)).collect_into_vec(pixels);
}

impl Fractal {
    /// The number of steps the recurrence is run for.
    pub open spec fn max_iterations_spec(&self) -> nat {
        match *self {
            Fractal::Mandelbrot(max_iterations) => max_iterations as nat,
            Fractal::BurningShip(max_iterations) => max_iterations as nat,
        }
    }

    /// The recurrence runs for at least one step.
    pub open spec fn wf(&self) -> bool {
        self.max_iterations_spec() >= 1
    }

    /// The number of steps the recurrence is run for.
    pub fn max_iterations(&self) -> (max_iterations: usize)
        ensures
            max_iterations == self.max_iterations_spec(),
    {
        match *self {
            Fractal::Mandelbrot(max_iterations) => max_iterations,
            Fractal::BurningShip(max_iterations) => max_iterations,
        }
    }

    /// The fractal of a kind's name, `mandelbrot` or `burning-ship`, and a
    /// number of steps, `DEFAULT_ITERATIONS` where none is given.
    pub fn configure(kind: &str, iterations: Option<usize>) -> (configured: Result<
        Fractal,
        ConfigError,
    >)
        ensures
            configured == configure_spec(kind@, iterations),
            configured is Ok ==> configured->Ok_0.wf(),
    {
        let max_iterations = match iterations {
            Some(count) => count,
            None => DEFAULT_ITERATIONS,
        };
        let name = String::from_str(kind);
        if max_iterations == 0 {
            Err(ConfigError::InvalidIterations)
        } else if name == String::from_str("mandelbrot") {
            Ok(Fractal::Mandelbrot(max_iterations))
        } else if name == String::from_str("burning-ship") {
            Ok(Fractal::BurningShip(max_iterations))
        } else {
            Err(ConfigError::UnknownFractal)
        }
    }

    /// The fractal of a kind's name and, where one is given, the text of a
    /// number of steps in decimal digits. A text that is no such number is
    /// refused as a zero is.
    pub fn from_args(kind: &str, iterations: Option<&str>) -> (configured: Result<
        Fractal,
        ConfigError,
    >)
        ensures
            configured == (match iterations {
                None => configure_spec(kind@, None),
                Some(text) => match decimal_spec(text@) {
                    Some(count) => configure_spec(kind@, Some(count)),
                    None => Err(ConfigError::InvalidIterations),
                },
            }),
            configured is Ok ==> configured->Ok_0.wf(),
    {
        match iterations {
            None => Fractal::configure(kind, None),
            Some(text) => match parse_count(text) {
                Some(count) => Fractal::configure(kind, Some(count)),
                None => Err(ConfigError::InvalidIterations),
            },
        }
    }

    /// Whether `render` can draw these counts into this context: the
    /// recurrence has a step, the viewport is not empty, there is one count
    /// for each pixel, and no count is above the number of steps.
    pub fn can_render(&self, ctx: &FractalContext, escaped: &Vec<usize>) -> (ready: bool)
        ensures
            ready == (self.wf() && valid_dimensions(
                ctx.dimensions.0 as nat,
                ctx.dimensions.1 as nat,
            ) && escaped@.len() == ctx.dimensions.0 * ctx.dimensions.1 && counts_bounded(
                escaped@,
                self.max_iterations_spec(),
            )),
    {
        let max_iterations = self.max_iterations();
        let (width, height) = ctx.dimensions;
        if max_iterations == 0 || !dimensions_fit(width, height) {
            return false;
        }
        let count = pixel_count(width, height);
        if escaped.len() != count {
            return false;
        }
        let mut index: usize = 0;
        while index < count
            invariant
                index <= count,
                count == escaped@.len(),
                max_iterations == self.max_iterations_spec(),
                forall|i: int| 0 <= i < index ==> #[trigger] escaped@[i] <= max_iterations,
            decreases count - index,
        {
            if escaped[index] > max_iterations {
                assert(!(escaped@[index as int] <= max_iterations));
                return false;
            }
            index = index + 1;
        }
        true
    }

    /// Draws the frame for the escape counts of the viewport's pixels, one
    /// count per pixel in buffer order: every pixel gray by its count, then
    /// the red mark over the centre. The buffer is brought to the viewport's
    /// size, whatever it held; size and flag are left as they were, and the
    /// caller clears the flag with `mark_rendered` once the frame is shown.
    pub fn render(&self, ctx: &mut FractalContext, escaped: &Vec<usize>)
        requires
            self.wf(),
            valid_dimensions(old(ctx).dimensions.0 as nat, old(ctx).dimensions.1 as nat),
            escaped@.len() == old(ctx).dimensions.0 * old(ctx).dimensions.1,
            counts_bounded(escaped@, self.max_iterations_spec()),
        ensures
            final(ctx).wf(),
            rendered(*self, *old(ctx), escaped@, *final(ctx)),
            final(ctx).pixels@.len() == old(ctx).dimensions.0 * old(ctx).dimensions.1,
            final(ctx).pixels@[center_index_spec(
                old(ctx).dimensions.0 as nat,
                old(ctx).dimensions.1 as nat,
            ) as int] == CENTER_MARK,
    {
        let (width, height) = ctx.dimensions;
        shade_into(escaped, self.max_iterations(), &mut ctx.pixels);
        let center = center_index(width, height);
        ctx.pixels.set(center, CENTER_MARK);
    }
}

} // verus!
