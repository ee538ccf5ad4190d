//! Two-pass composition: an in-game camera draws the pixel-perfect layer into
//! the low-resolution canvas, and an outer camera draws the high-resolution
//! layer, which holds the canvas sprite, to the window.
use vstd::prelude::*;
use crate::fit::{CanvasSize, RES_HEIGHT, RES_WIDTH};

verus! {

/// The layer an element is drawn on; each camera draws exactly one layer.
#[derive(Clone, Copy, Debug, PartialEq, Eq, Structural)]
pub enum RenderLayer {
    /// Drawn into the canvas at its own low resolution.
    PixelPerfect,
    /// Drawn straight to the window: the canvas itself, and overlays.
    HighRes,
}

/// Where a camera's output goes.
#[derive(Clone, Copy, Debug, PartialEq, Eq, Structural)]
pub enum Target {
    /// The low-resolution canvas image.
    Canvas,
    /// The window.
    Window,
}

/// How a camera clears its target before drawing.
#[derive(Clone, Copy, Debug, PartialEq, Eq, Structural)]
pub enum Clear {
    /// Gray, so the canvas area stands out from the letterbox around it.
    Gray,
    /// The host's default clear color.
    Default,
}

/// One render pass: what it draws, where to, and when relative to the
/// other passes (lower `order` runs first).
#[derive(Clone, Copy, Debug, PartialEq, Eq, Structural)]
pub struct CameraPlan {
    pub order: i32,
    pub layer: RenderLayer,
    pub target: Target,
    pub clear: Clear,
    /// Multisample anti-aliasing, which would blur pixel edges.
    pub msaa: bool,
}

/// The whole composition: the canvas's size, the two cameras, and the layer
/// of the sprite that shows the canvas in the window.
#[derive(Clone, Copy, Debug, PartialEq, Eq, Structural)]
pub struct Composition {
    pub canvas: CanvasSize,
    pub in_game: CameraPlan,
    pub outer: CameraPlan,
    pub canvas_sprite_layer: RenderLayer,
}

/// A camera draws an element exactly when it is on the camera's layer.
pub open spec fn draws(camera: CameraPlan, layer: RenderLayer) -> bool {
    camera.layer == layer
}

impl Composition {
    /// The canvas is filled by the in-game pass strictly before the outer
    /// pass samples it, the two passes draw disjoint layers, and the canvas
    /// sprite is seen by the outer camera only.
    pub open spec fn wf(self) -> bool {
        &&& self.canvas.wf()
        &&& self.in_game.order < self.outer.order
        &&& self.in_game.target == Target::Canvas
        &&& self.outer.target == Target::Window
        &&& self.in_game.layer == RenderLayer::PixelPerfect
        &&& self.outer.layer == RenderLayer::HighRes
        &&& self.canvas_sprite_layer == RenderLayer::HighRes
        &&& !self.in_game.msaa
        &&& !self.outer.msaa
    }
}

/// Whether `camera` draws elements on `layer`.
pub fn camera_draws(camera: &CameraPlan, layer: RenderLayer) -> (r: bool)
    ensures
        r == draws(*camera, layer),
{
    camera.layer == layer
}

/// The composition: a `RES_WIDTH` by `RES_HEIGHT` canvas cleared to gray
/// and drawn first (order -1) from the pixel-perfect layer; then the outer
/// camera (order 0) draws the high-resolution layer, canvas sprite included,
/// to the window. Neither pass uses multisampling.
pub fn setup_camera() -> (c: Composition)
    ensures
        c.wf(),
        c.canvas == (CanvasSize { width: RES_WIDTH, height: RES_HEIGHT }),
        c.in_game == (CameraPlan {
            order: -1i32,
            layer: RenderLayer::PixelPerfect,
            target: Target::Canvas,
            clear: Clear::Gray,
            msaa: false,
        }),
        c.outer == (CameraPlan {
            order: 0i32,
            layer: RenderLayer::HighRes,
            target: Target::Window,
            clear: Clear::Default,
            msaa: false,
        }),
{
    Composition {
        canvas: CanvasSize::low_res(),
        in_game: CameraPlan {
            order: -1,
            layer: RenderLayer::PixelPerfect,
            target: Target::Canvas,
            clear: Clear::Gray,
            msaa: false,
        },
        outer: CameraPlan {
            order: 0,
            layer: RenderLayer::HighRes,
            target: Target::Window,
            clear: Clear::Default,
            msaa: false,
        },
        canvas_sprite_layer: RenderLayer::HighRes,
    }
}

/// In a well-formed composition every element is drawn by exactly one of
/// the two cameras: pixel-perfect elements never reach the outer camera,
/// high-resolution ones never reach the canvas.
pub proof fn lemma_layers_exclusive(c: Composition, layer: RenderLayer)
    requires
        c.wf(),
    ensures
        draws(c.in_game, layer) != draws(c.outer, layer),
        draws(c.outer, c.canvas_sprite_layer),
        !draws(c.in_game, c.canvas_sprite_layer),
{
}

} // verus!
