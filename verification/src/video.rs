//! Video frame handoff and letterbox geometry. A pipeline-side producer
//! publishes decoded frames into a single-slot buffer that always holds
//! only the latest frame; the render path takes a cheap snapshot of that
//! frame and fits it, aspect ratio preserved and centered, into the
//! widget's rectangle. The mutual-exclusion boundary around the slot
//! belongs to the unverified shell; the slot itself captures the
//! overwrite-on-write, last-writer-wins behaviour.

use std::sync::Arc;
use vstd::arithmetic::div_mod::{
    lemma_div_is_ordered, lemma_div_multiples_vanish, lemma_div_multiples_vanish_fancy,
    lemma_fundamental_div_mod, lemma_mod_bound,
};
use vstd::arithmetic::mul::{
    lemma_mul_basics, lemma_mul_is_commutative, lemma_mul_is_distributive_sub,
    lemma_mul_upper_bound,
};
use vstd::prelude::*;

verus! {

/// Bytes per pixel of the fixed raw pixel layout (RGBA).
pub const BYTES_PER_PIXEL: usize = 4;

/// Why a delivered frame was rejected before reaching the slot.
#[derive(Copy, Clone, Eq, PartialEq, Structural, Debug)]
pub enum FrameError {
    /// Width or height is zero: nothing to paint.
    ZeroDimension,
    /// The byte count does not match width × height at 4 bytes per
    /// pixel.
    DataLengthMismatch,
}

/// A decoded video frame: pixel dimensions plus the raw bytes in the
/// fixed RGBA layout. The bytes sit behind a shared handle, so passing a
/// frame around never copies pixel data.
#[derive(Debug)]
pub struct Frame {
    pub width: u32,
    pub height: u32,
    pub data: Arc<Vec<u8>>,
}

/// Relies on the `Clone` impl of `std::sync::Arc`: cloning yields a new
/// handle to the same underlying value, without copying it.
#[verifier::external_body]
fn share_pixels(data: &Arc<Vec<u8>>) -> (r: Arc<Vec<u8>>)
    ensures
        r == *data,
{
    Arc::clone(data)
}

impl Frame {
    /// Non-degenerate dimensions, and exactly 4 bytes per pixel.
    pub open spec fn wf(self) -> bool {
        &&& self.width > 0
        &&& self.height > 0
        &&& self.data@.len() == (BYTES_PER_PIXEL as int) * (self.width as int) * (
        self.height as int)
    }

    /// Validate a frame as delivered by the engine shell: plain
    /// dimensions and the raw bytes. Accepted exactly when both
    /// dimensions are positive and the byte count matches them.
    pub fn new(width: u32, height: u32, data: Vec<u8>) -> (r: Result<Frame, FrameError>)
        ensures
            r is Ok <==> width > 0 && height > 0 && data@.len() == (BYTES_PER_PIXEL as int) * (
            width as int) * (height as int),
            r == Err::<Frame, FrameError>(FrameError::ZeroDimension) <==> (width == 0 || height
                == 0),
            r matches Ok(f) ==> f.width == width && f.height == height && f.data@ == data@
                && f.wf(),
    {
        if width == 0 || height == 0 {
            return Err(FrameError::ZeroDimension);
        }
        proof {
            lemma_mul_upper_bound(width as int, u32::MAX as int, height as int, u32::MAX as int);
            lemma_mul_upper_bound(
                (BYTES_PER_PIXEL as int) * (width as int),
                (BYTES_PER_PIXEL as int) * (u32::MAX as int),
                height as int,
                u32::MAX as int,
            );
        }
        let expected: u128 = (BYTES_PER_PIXEL as u128) * (width as u128) * (height as u128);
        if (data.len() as u128) != expected {
            return Err(FrameError::DataLengthMismatch);
        }
        Ok(Frame { width, height, data: Arc::new(data) })
    }

    /// A second handle to the same frame: same dimensions, same pixel
    /// bytes, no copy of them.
    pub fn share(&self) -> (r: Frame)
        ensures
            r == *self,
    {
        Frame { width: self.width, height: self.height, data: share_pixels(&self.data) }
    }
}

/// Single-slot storage for the most recently decoded frame. A write
/// replaces the previous contents whole; a read hands out a cheap handle
/// to the current frame. End of stream is a side signal: it is recorded
/// but replaces no frame.
pub struct FrameSlot {
    /// The latest frame, if any arrived yet.
    pub current: Option<Frame>,
    /// Whether the engine reported end of stream.
    pub eos: bool,
}

impl FrameSlot {
    /// Whatever frame the slot holds is well formed.
    pub open spec fn wf(self) -> bool {
        self.current matches Some(f) ==> f.wf()
    }

    /// Empty slot: no frame yet, no end of stream seen.
    pub fn new() -> (s: Self)
        ensures
            s.current is None,
            !s.eos,
            s.wf(),
    {
        FrameSlot { current: None, eos: false }
    }

    /// Store a frame, unconditionally dropping whatever was there: the
    /// slot holds at most one frame, always the latest.
    pub fn publish(&mut self, frame: Frame)
        requires
            frame.wf(),
        ensures
            *final(self) == (FrameSlot { current: Some(frame), eos: old(self).eos }),
            final(self).wf(),
    {
        self.current = Some(frame);
    }

    /// Record that the stream ended. No frame is replaced.
    pub fn end_of_stream(&mut self)
        ensures
            *final(self) == (FrameSlot { current: old(self).current, eos: true }),
    {
        self.eos = true;
    }

    /// A handle to the current frame, if any arrived yet: equal to the
    /// slot's contents, obtained without copying pixel data, so the
    /// caller can leave the slot's lock before painting.
    pub fn snapshot(&self) -> (r: Option<Frame>)
        ensures
            r == self.current,
    {
        match &self.current {
            Some(f) => Some(f.share()),
            None => None,
        }
    }
}

/// The slot after a sequence of publishes, first to last.
pub open spec fn slot_after_publishes(s: FrameSlot, frames: Seq<Frame>) -> FrameSlot
    decreases frames.len(),
{
    if frames.len() == 0 {
        s
    } else {
        slot_after_publishes(
            FrameSlot { current: Some(frames[0]), eos: s.eos },
            frames.drop_first(),
        )
    }
}

/// Last writer wins: after any non-empty sequence of publishes, the slot
/// holds exactly the last frame published, and the end-of-stream flag is
/// untouched.
pub proof fn lemma_last_writer_wins(s: FrameSlot, frames: Seq<Frame>)
    requires
        frames.len() > 0,
    ensures
        slot_after_publishes(s, frames).current == Some(frames.last()),
        slot_after_publishes(s, frames).eos == s.eos,
    decreases frames.len(),
{
    if frames.len() == 1 {
        reveal_with_fuel(slot_after_publishes, 2);
        assert(frames.last() == frames[0]);
    } else {
        lemma_last_writer_wins(
            FrameSlot { current: Some(frames[0]), eos: s.eos },
            frames.drop_first(),
        );
        assert(frames.drop_first().last() == frames.last());
    }
}

/// An axis-aligned rectangle in display pixels, spanning `x0..x1` by
/// `y0..y1`.
#[derive(Copy, Clone, Eq, PartialEq, Structural, Debug)]
pub struct VideoRect {
    pub x0: u32,
    pub y0: u32,
    pub x1: u32,
    pub y1: u32,
}

impl VideoRect {
    /// The corners are ordered.
    pub open spec fn wf(self) -> bool {
        self.x0 <= self.x1 && self.y0 <= self.y1
    }

    pub open spec fn width(self) -> int {
        self.x1 - self.x0
    }

    pub open spec fn height(self) -> int {
        self.y1 - self.y0
    }
}

/// The letterbox rectangle: the largest rectangle of the content's
/// aspect ratio (to pixel precision) that fits in `base`, centered. When
/// the container is relatively wider than the content, the full height
/// is used and the width derived; otherwise the full width is used and
/// the height derived.
pub open spec fn fit_spec(base: VideoRect, w: u32, h: u32) -> VideoRect
    recommends
        base.wf(),
        w > 0,
        h > 0,
{
    if base.width() * (h as int) > base.height() * (w as int) {
        let new_w = base.height() * (w as int) / (h as int);
        let x0 = base.x0 + (base.width() - new_w) / 2;
        VideoRect { x0: x0 as u32, y0: base.y0, x1: (x0 + new_w) as u32, y1: base.y1 }
    } else {
        let new_h = base.width() * (h as int) / (w as int);
        let y0 = base.y0 + (base.height() - new_h) / 2;
        VideoRect { x0: base.x0, y0: y0 as u32, x1: base.x1, y1: (y0 + new_h) as u32 }
    }
}

/// The largest rectangle with the content's aspect ratio that fits
/// centered inside `base`: full height with derived width when the
/// container is relatively wider, full width with derived height
/// otherwise. The result lies inside `base` and its margins on the
/// divided axis differ by at most one pixel.
pub fn fit_video_rect(base: &VideoRect, content_width: u32, content_height: u32) -> (r: VideoRect)
    requires
        base.wf(),
        content_width > 0,
        content_height > 0,
    ensures
        r == fit_spec(*base, content_width, content_height),
        r.wf(),
        base.x0 <= r.x0 && r.x1 <= base.x1 && base.y0 <= r.y0 && r.y1 <= base.y1,
        r.x0 - base.x0 <= base.x1 - r.x1 <= r.x0 - base.x0 + 1,
        r.y0 - base.y0 <= base.y1 - r.y1 <= r.y0 - base.y0 + 1,
{
    let bw: u64 = (base.x1 - base.x0) as u64;
    let bh: u64 = (base.y1 - base.y0) as u64;
    let w: u64 = content_width as u64;
    let h: u64 = content_height as u64;
    proof {
        lemma_mul_upper_bound(bw as int, u32::MAX as int, h as int, u32::MAX as int);
        lemma_mul_upper_bound(bh as int, u32::MAX as int, w as int, u32::MAX as int);
    }
    if bw * h > bh * w {
        let new_w: u64 = bh * w / h;
        proof {
            lemma_div_is_ordered(bh as int * w as int, bw as int * h as int - 1, h as int);
            lemma_mul_is_distributive_sub(h as int, bw as int, 1);
            lemma_mul_basics(h as int);
            lemma_div_multiples_vanish_fancy(bw as int - 1, h as int - 1, h as int);
            assert(new_w < bw);
        }
        let margin: u64 = (bw - new_w) / 2;
        proof {
            lemma_fundamental_div_mod(bw as int - new_w as int, 2);
            lemma_mod_bound(bw as int - new_w as int, 2);
        }
        let rx0: u32 = base.x0 + (margin as u32);
        VideoRect { x0: rx0, y0: base.y0, x1: rx0 + (new_w as u32), y1: base.y1 }
    } else {
        let new_h: u64 = bw * h / w;
        proof {
            lemma_div_is_ordered(bw as int * h as int, bh as int * w as int, w as int);
            lemma_div_multiples_vanish(bh as int, w as int);
            assert(new_h <= bh);
        }
        let margin: u64 = (bh - new_h) / 2;
        proof {
            lemma_fundamental_div_mod(bh as int - new_h as int, 2);
            lemma_mod_bound(bh as int - new_h as int, 2);
        }
        let ry0: u32 = base.y0 + (margin as u32);
        VideoRect { x0: base.x0, y0: ry0, x1: base.x1, y1: ry0 + (new_h as u32) }
    }
}

/// A content that already has the container's exact aspect ratio fills
/// it exactly: the letterbox rectangle is the container itself.
pub proof fn lemma_fit_exact_aspect(base: VideoRect, w: u32, h: u32)
    requires
        base.wf(),
        w > 0,
        h > 0,
        base.width() * (h as int) == base.height() * (w as int),
    ensures
        fit_spec(base, w, h) == base,
{
    lemma_mul_is_commutative(base.height(), w as int);
    lemma_div_multiples_vanish(base.height(), w as int);
    assert(base.width() * (h as int) == (w as int) * base.height());
    assert(base.width() * (h as int) / (w as int) == base.height());
    assert(fit_spec(base, w, h) == base);
}

/// One render tick of the frame consumer: take the latest frame from
/// the slot, if any, and the letterbox rectangle to draw it into. No
/// frame yet means nothing to paint, which is expected and not an
/// error.
pub fn render_plan(slot: &FrameSlot, container: &VideoRect) -> (r: Option<(Frame, VideoRect)>)
    requires
        slot.wf(),
        container.wf(),
    ensures
        r is Some <==> slot.current is Some,
        r matches Some(p) ==> slot.current matches Some(f) && p.0 == f && p.1 == fit_spec(
            *container,
            f.width,
            f.height,
        ),
{
    match slot.snapshot() {
        Some(frame) => {
            let rect = fit_video_rect(container, frame.width, frame.height);
            Some((frame, rect))
        },
        None => None,
    }
}

} // verus!
