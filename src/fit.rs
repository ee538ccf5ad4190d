//! Canvas-fit policy: the outer camera shows the canvas magnified by the
//! largest whole factor that still fits the window.
use vstd::prelude::*;
use vstd::arithmetic::div_mod::{lemma_fundamental_div_mod, lemma_mod_pos_bound};

verus! {

/// Width of the low-resolution canvas, in pixels.
pub const RES_WIDTH: u32 = 512;

/// Height of the low-resolution canvas, in pixels.
pub const RES_HEIGHT: u32 = 256;

/// The size of the low-resolution canvas, in pixels.
#[derive(Clone, Copy, Debug, PartialEq, Eq, Structural)]
pub struct CanvasSize {
    pub width: u32,
    pub height: u32,
}

impl CanvasSize {
    /// A canvas has at least one pixel on each axis.
    pub open spec fn wf(self) -> bool {
        self.width > 0 && self.height > 0
    }

    /// The canvas of this scene: `RES_WIDTH` by `RES_HEIGHT`.
    pub fn low_res() -> (c: CanvasSize)
        ensures
            c.width == RES_WIDTH,
            c.height == RES_HEIGHT,
            c.wf(),
    {
        CanvasSize { width: RES_WIDTH, height: RES_HEIGHT }
    }
}

/// `floor(min(w / c.width, h / c.height))` for a window of `w` by `h`
/// pixels; zero when the window is smaller than the canvas on some axis.
pub open spec fn raw_scale(c: CanvasSize, w: int, h: int) -> int {
    let hs = w / (c.width as int);
    let vs = h / (c.height as int);
    if hs <= vs { hs } else { vs }
}

/// The factor the policy applies: the raw factor, raised to one when the
/// window is too small to hold the canvas even once.
pub open spec fn fit_scale_of(c: CanvasSize, w: int, h: int) -> int {
    if raw_scale(c, w, h) == 0 { 1 } else { raw_scale(c, w, h) }
}

/// The largest whole factor `s` with `s * canvas.width <= width` and
/// `s * canvas.height <= height`; zero when the canvas does not fit once.
pub fn integer_scale(canvas: CanvasSize, width: u32, height: u32) -> (s: u32)
    requires
        canvas.wf(),
    ensures
        s == raw_scale(canvas, width as int, height as int),
{
    let hs = width / canvas.width;
    let vs = height / canvas.height;
    if hs <= vs { hs } else { vs }
}

/// The factor the outer camera magnifies the canvas by: `integer_scale`,
/// but never below one, so the zoom `1 / s` is always defined.
pub fn fit_scale(canvas: CanvasSize, width: u32, height: u32) -> (s: u32)
    requires
        canvas.wf(),
    ensures
        s == fit_scale_of(canvas, width as int, height as int),
        s >= 1,
{
    let s = integer_scale(canvas, width, height);
    if s == 0 { 1 } else { s }
}

/// A window-resize notification, with the window's new size in pixels.
#[derive(Clone, Copy, Debug, PartialEq, Eq, Structural)]
pub struct ResizeEvent {
    pub width: u32,
    pub height: u32,
}

/// The orthographic projection of the camera that draws the canvas to the
/// window. Its zoom is `1 / divisor`: the canvas appears `divisor` times
/// larger on screen.
#[derive(Clone, Copy, Debug, PartialEq, Eq, Structural)]
pub struct OuterProjection {
    pub divisor: u32,
}

impl OuterProjection {
    /// A projection is well formed when its zoom `1 / divisor` is defined.
    pub open spec fn wf(self) -> bool {
        self.divisor >= 1
    }

    /// The projection after one resize event.
    pub open spec fn resized(self, c: CanvasSize, e: ResizeEvent) -> OuterProjection {
        OuterProjection { divisor: fit_scale_of(c, e.width as int, e.height as int) as u32 }
    }

    /// The projection after the events of `evs`, handled one after another
    /// in the order given.
    pub open spec fn after_events(self, c: CanvasSize, evs: Seq<ResizeEvent>) -> OuterProjection
        decreases evs.len(),
    {
        if evs.len() == 0 {
            self
        } else {
            self.after_events(c, evs.drop_last()).resized(c, evs.last())
        }
    }

    /// A projection that shows the canvas at its own size (zoom one).
    pub fn new() -> (p: OuterProjection)
        ensures
            p.divisor == 1,
            p.wf(),
    {
        OuterProjection { divisor: 1 }
    }

    /// The zoom as a fraction `(numerator, denominator)`: `1 / divisor`.
    pub fn zoom(&self) -> (r: (u32, u32))
        ensures
            r == (1u32, self.divisor),
    {
        (1, self.divisor)
    }

    /// Handles one resize event: the zoom becomes `1 / fit_scale(w, h)`.
    pub fn apply_resize(&mut self, canvas: CanvasSize, e: ResizeEvent)
        requires
            canvas.wf(),
        ensures
            *final(self) == old(self).resized(canvas, e),
            final(self).wf(),
    {
        self.divisor = fit_scale(canvas, e.width, e.height);
    }
}

/// Handles a batch of resize events in the order received; with no events
/// the projection is left as it was.
pub fn fit_canvas(projection: &mut OuterProjection, canvas: CanvasSize, events: &Vec<ResizeEvent>)
    requires
        old(projection).wf(),
        canvas.wf(),
    ensures
        *final(projection) == old(projection).after_events(canvas, events@),
        final(projection).wf(),
{
    let ghost start = *projection;
    let mut i: usize = 0;
    while i < events.len()
        invariant
            i <= events@.len(),
            *projection == start.after_events(canvas, events@.take(i as int)),
            projection.wf(),
            canvas.wf(),
        decreases events@.len() - i,
    {
        let ghost done = events@.take(i as int);
        projection.apply_resize(canvas, events[i]);
        assert(events@.take(i + 1).drop_last() == done);
        i = i + 1;
    }
    assert(events@.take(events@.len() as int) == events@);
}

/// For a window at least as large as the canvas, the factor applied is
/// `s = floor(min(w / c.width, h / c.height))`: it is at least one, the
/// canvas magnified by `s` fits the window on both axes, and magnified by
/// `s + 1` it overflows on some axis. A resize to that window sets the zoom
/// to `1 / s`.
pub proof fn lemma_fit_is_largest_whole_factor(c: CanvasSize, p: OuterProjection, w: u32, h: u32)
    requires
        c.wf(),
        w >= c.width,
        h >= c.height,
    ensures
        fit_scale_of(c, w as int, h as int) == raw_scale(c, w as int, h as int),
        raw_scale(c, w as int, h as int) >= 1,
        raw_scale(c, w as int, h as int) * c.width <= w,
        raw_scale(c, w as int, h as int) * c.height <= h,
        (raw_scale(c, w as int, h as int) + 1) * c.width > w
            || (raw_scale(c, w as int, h as int) + 1) * c.height > h,
        p.resized(c, ResizeEvent { width: w, height: h }).divisor == raw_scale(c, w as int, h as int),
{
    let cw = c.width as int;
    let ch = c.height as int;
    let hs = w as int / cw;
    let vs = h as int / ch;
    lemma_fundamental_div_mod(w as int, cw);
    lemma_fundamental_div_mod(h as int, ch);
    lemma_mod_pos_bound(w as int, cw);
    lemma_mod_pos_bound(h as int, ch);
    let s = raw_scale(c, w as int, h as int);
    assert(s >= 1 && s * cw <= w && s * ch <= h && ((s + 1) * cw > w || (s + 1) * ch > h))
        by (nonlinear_arith)
        requires
            w == cw * hs + w as int % cw,
            0 <= w as int % cw < cw,
            h == ch * vs + h as int % ch,
            0 <= h as int % ch < ch,
            w >= cw,
            h >= ch,
            s == (if hs <= vs { hs } else { vs }),
    ;
}

/// Handling a batch of events comes to handling its last event alone: every
/// earlier event is overwritten.
pub proof fn lemma_only_last_event_counts(p: OuterProjection, c: CanvasSize, evs: Seq<ResizeEvent>)
    requires
        evs.len() > 0,
    ensures
        p.after_events(c, evs) == p.resized(c, evs.last()),
{
}

/// Handling the same resize event twice leaves the same zoom as handling it
/// once.
pub proof fn lemma_resize_idempotent(p: OuterProjection, c: CanvasSize, e: ResizeEvent)
    ensures
        p.after_events(c, seq![e, e]) == p.after_events(c, seq![e]),
{
    lemma_only_last_event_counts(p, c, seq![e, e]);
    lemma_only_last_event_counts(p, c, seq![e]);
}

/// Of two resize events in one batch, only the later one decides the zoom,
/// whatever the earlier one was and whatever the zoom was before.
pub proof fn lemma_later_event_wins(
    p: OuterProjection,
    q: OuterProjection,
    c: CanvasSize,
    first: ResizeEvent,
    second: ResizeEvent,
)
    ensures
        p.after_events(c, seq![first, second]) == q.after_events(c, seq![second]),
{
    lemma_only_last_event_counts(p, c, seq![first, second]);
    lemma_only_last_event_counts(q, c, seq![second]);
}

} // verus!
