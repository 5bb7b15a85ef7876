//! Properties that hold across calls of the pipeline's stages.

use vstd::prelude::*;

use crate::filters::{grayscaled, inverted, is_alpha, luma, pixel_luma, turn_of};
use crate::plan::{planned, stage_if, stage_rank, FilterConfig, Stage};

verus! {

/// Inverting twice gives back the original bytes.
pub proof fn lemma_invert_involution(px: Seq<u8>)
    ensures
        inverted(inverted(px)) == px,
{
    assert(inverted(inverted(px)) =~= px);
}

/// A gray colour is its own luma.
proof fn lemma_luma_of_gray(l: u8)
    ensures
        luma(l, l, l) == l,
{
    let v = l as int;
    assert(2126 * v + 7152 * v + 722 * v == 10000 * v) by (nonlinear_arith);
    assert((10000 * v) / 10000 == v) by (nonlinear_arith);
}

/// Converting to grayscale a second time changes nothing.
pub proof fn lemma_grayscale_idempotent(px: Seq<u8>)
    requires
        px.len() % 4 == 0,
    ensures
        grayscaled(grayscaled(px)) == grayscaled(px),
{
    let g = grayscaled(px);
    assert forall|j: int| 0 <= j < px.len() implies #[trigger] grayscaled(g)[j] == g[j] by {
        if !is_alpha(j) {
            let p = j / 4;
            assert(0 <= 4 * p && 4 * p + 3 < px.len());
            assert((4 * p) / 4 == p && (4 * p + 1) / 4 == p && (4 * p + 2) / 4 == p);
            assert(g[4 * p] == pixel_luma(px, p));
            assert(g[4 * p + 1] == pixel_luma(px, p));
            assert(g[4 * p + 2] == pixel_luma(px, p));
            lemma_luma_of_gray(pixel_luma(px, p));
        }
    }
    assert(grayscaled(g) =~= g);
}

/// Stages in strictly increasing canonical rank.
pub open spec fn in_canonical_order(s: Seq<Stage>) -> bool {
    forall|i: int, j: int| 0 <= i < j < s.len() ==> stage_rank(#[trigger] s[i]) < stage_rank(#[trigger] s[j])
}

/// Every stage of `s` ranks below `k`.
spec fn ranks_below(s: Seq<Stage>, k: int) -> bool {
    forall|i: int| 0 <= i < s.len() ==> stage_rank(#[trigger] s[i]) < k
}

proof fn lemma_append_stage(a: Seq<Stage>, present: bool, x: Stage)
    requires
        in_canonical_order(a),
        ranks_below(a, stage_rank(x)),
    ensures
        in_canonical_order(a + stage_if(present, x)),
        ranks_below(a + stage_if(present, x), stage_rank(x) + 1),
{
    let b = a + stage_if(present, x);
    assert forall|i: int| 0 <= i < b.len() implies stage_rank(#[trigger] b[i]) < stage_rank(x) + 1 by {
        if i < a.len() {
            assert(b[i] == a[i]);
        }
    }
    assert forall|i: int, j: int| 0 <= i < j < b.len() implies stage_rank(#[trigger] b[i]) < stage_rank(#[trigger] b[j]) by {
        if j < a.len() {
            assert(b[i] == a[i] && b[j] == a[j]);
        } else {
            assert(b[i] == a[i]);
        }
    }
}

/// Whatever the configuration, the planned stages run in the canonical order:
/// unsharp mask, blur, brightness, contrast, grayscale, invert, hue rotation,
/// and none of them twice.
pub proof fn lemma_plan_in_canonical_order(c: FilterConfig)
    ensures
        in_canonical_order(planned(c)),
{
    let s0 = stage_if(
        c.has_sharpen_sigma && c.sharpen_threshold is Some,
        Stage::Unsharpen { threshold: c.sharpen_threshold->0 },
    );
    lemma_append_stage(
        seq![],
        c.has_sharpen_sigma && c.sharpen_threshold is Some,
        Stage::Unsharpen { threshold: c.sharpen_threshold->0 },
    );
    assert(Seq::<Stage>::empty() + s0 =~= s0);
    lemma_append_stage(s0, c.has_blur_sigma, Stage::Blur);
    let s1 = s0 + stage_if(c.has_blur_sigma, Stage::Blur);
    lemma_append_stage(s1, c.brightness is Some, Stage::Brighten { delta: c.brightness->0 });
    let s2 = s1 + stage_if(c.brightness is Some, Stage::Brighten { delta: c.brightness->0 });
    lemma_append_stage(s2, c.has_contrast, Stage::Contrast);
    let s3 = s2 + stage_if(c.has_contrast, Stage::Contrast);
    lemma_append_stage(s3, c.grayscale, Stage::Grayscale);
    let s4 = s3 + stage_if(c.grayscale, Stage::Grayscale);
    lemma_append_stage(s4, c.invert, Stage::Invert);
    let s5 = s4 + stage_if(c.invert, Stage::Invert);
    lemma_append_stage(s5, c.hue_rotate is Some, Stage::HueRotate { degrees: c.hue_rotate->0 });
}

/// Hue rotations that differ by a whole turn hand the same reduced angle to
/// the rotation; in particular 360 and 0 both hand it 0. Nothing here states
/// what the rotation itself returns.
pub proof fn lemma_hue_full_turn(degrees: int)
    ensures
        turn_of(degrees + 360) == turn_of(degrees),
        turn_of(360) == turn_of(0),
{
}

} // verus!
