//! Which filter stages a configuration asks for, and the fixed order in which
//! they run.

use vstd::prelude::*;

use crate::filters::{brightened, grayscaled, inverted, is_alpha, with_pixels};
use crate::pixels::PixelBuffer;

verus! {

/// One stage of the filter chain. The real-valued parameters (sharpen and blur
/// sigma, contrast factor) are held by the caller, which runs those stages.
#[derive(Debug, Clone, Copy, PartialEq, Eq)]
pub enum Stage {
    Unsharpen { threshold: i32 },
    Blur,
    Brighten { delta: i32 },
    Contrast,
    Grayscale,
    Invert,
    HueRotate { degrees: i32 },
}

/// A sparse filter configuration: a stage runs only when its parameters are
/// all present. For the real-valued parameters only their presence is recorded.
#[derive(Debug, Clone, Copy, PartialEq, Eq)]
pub struct FilterConfig {
    pub has_sharpen_sigma: bool,
    pub sharpen_threshold: Option<i32>,
    pub has_blur_sigma: bool,
    pub brightness: Option<i32>,
    pub has_contrast: bool,
    pub grayscale: bool,
    pub invert: bool,
    pub hue_rotate: Option<i32>,
}

/// The place of a stage in the canonical order.
pub open spec fn stage_rank(s: Stage) -> int {
    match s {
        Stage::Unsharpen { .. } => 0,
        Stage::Blur => 1,
        Stage::Brighten { .. } => 2,
        Stage::Contrast => 3,
        Stage::Grayscale => 4,
        Stage::Invert => 5,
        Stage::HueRotate { .. } => 6,
    }
}

/// `s` alone when `present`, else nothing.
pub open spec fn stage_if(present: bool, s: Stage) -> Seq<Stage> {
    if present {
        seq![s]
    } else {
        seq![]
    }
}

/// The stages `c` asks for, in canonical order: unsharp mask (sigma and
/// threshold both given), blur, brightness, contrast, grayscale, invert, hue
/// rotation.
pub open spec fn planned(c: FilterConfig) -> Seq<Stage> {
    stage_if(
        c.has_sharpen_sigma && c.sharpen_threshold is Some,
        Stage::Unsharpen { threshold: c.sharpen_threshold->0 },
    ) + stage_if(c.has_blur_sigma, Stage::Blur) + stage_if(
        c.brightness is Some,
        Stage::Brighten { delta: c.brightness->0 },
    ) + stage_if(c.has_contrast, Stage::Contrast) + stage_if(c.grayscale, Stage::Grayscale)
        + stage_if(c.invert, Stage::Invert) + stage_if(
        c.hue_rotate is Some,
        Stage::HueRotate { degrees: c.hue_rotate->0 },
    )
}

/// Appends `s` to `stages` when `present`.
fn push_if(stages: &mut Vec<Stage>, present: bool, s: Stage)
    ensures
        final(stages)@ == old(stages)@ + stage_if(present, s),
{
    if present {
        stages.push(s);
    } else {
        assert(old(stages)@ + stage_if(present, s) =~= old(stages)@);
    }
}

/// The stages that `config` asks for, in the order in which they must run.
pub fn filter_plan(config: &FilterConfig) -> (r: Vec<Stage>)
    ensures
        r@ == planned(*config),
{
    let mut r: Vec<Stage> = Vec::new();
    let threshold = config.sharpen_threshold.unwrap_or(0);
    push_if(
        &mut r,
        config.has_sharpen_sigma && config.sharpen_threshold.is_some(),
        Stage::Unsharpen { threshold },
    );
    assert(r@ =~= stage_if(
        config.has_sharpen_sigma && config.sharpen_threshold is Some,
        Stage::Unsharpen { threshold: config.sharpen_threshold->0 },
    ));
    push_if(&mut r, config.has_blur_sigma, Stage::Blur);
    push_if(&mut r, config.brightness.is_some(), Stage::Brighten { delta: config.brightness.unwrap_or(0) });
    push_if(&mut r, config.has_contrast, Stage::Contrast);
    push_if(&mut r, config.grayscale, Stage::Grayscale);
    push_if(&mut r, config.invert, Stage::Invert);
    push_if(&mut r, config.hue_rotate.is_some(), Stage::HueRotate { degrees: config.hue_rotate.unwrap_or(0) });
    r
}

/// Whether the caller runs `s` itself: the stages with real-valued parameters.
pub open spec fn runs_outside(s: Stage) -> bool {
    s is Unsharpen || s is Blur || s is Contrast
}

impl PixelBuffer {
    /// Runs one stage of the filter chain. A stage with real-valued
    /// parameters is not run: the buffer comes back unchanged in `Err` for
    /// the caller to run it.
    pub fn apply_stage(self, stage: Stage) -> (r: Result<PixelBuffer, PixelBuffer>)
        requires
            self.wf(),
        ensures
            r is Err <==> runs_outside(stage),
            r matches Err(b) ==> b@ == self@,
            r matches Ok(b) ==> b.wf() && match stage {
                Stage::Brighten { delta } => b@ == with_pixels(
                    self@,
                    brightened(self@.pixels, delta as int),
                ),
                Stage::Grayscale => b@ == with_pixels(self@, grayscaled(self@.pixels)),
                Stage::Invert => b@ == with_pixels(self@, inverted(self@.pixels)),
                Stage::HueRotate { .. } => b@.width == self@.width && b@.height == self@.height
                    && forall|j: int|
                    0 <= j < b@.pixels.len() && is_alpha(j) ==> #[trigger] b@.pixels[j]
                        == self@.pixels[j],
                _ => false,
            },
    {
        match stage {
            Stage::Brighten { delta } => Ok(self.brighten(delta)),
            Stage::Grayscale => Ok(self.grayscale()),
            Stage::Invert => Ok(self.invert()),
            Stage::HueRotate { degrees } => Ok(self.hue_rotate(degrees)),
            _ => Err(self),
        }
    }
}

} // verus!
