//! Built-in behaviors: a key-controlled background clear and a triangle.

use vstd::prelude::*;

use crate::app_state::FrameState;
use crate::component::ComponentLogic;
use crate::float_ops::f32_add;
use crate::float_ops::f32_sub;
use crate::float_ops::spec_f32_add;
use crate::float_ops::spec_f32_sub;
use crate::math::ONE_BITS;
use crate::renderer::DrawCmd;
use crate::renderer::COLOR_BUFFER_BIT;
use crate::renderer::TRIANGLES_MODE;

verus! {

/// Bit pattern of the single-precision color step 0.01.
pub const COLOR_STEP_BITS: u32 = 0x3C23_D70A;

/// Key code of the down arrow.
pub const ARROW_DOWN_KEY: u32 = 40;

/// Key code of the up arrow.
pub const ARROW_UP_KEY: u32 = 38;

/// Key code of the left arrow.
pub const ARROW_LEFT_KEY: u32 = 37;

/// Key code of the right arrow.
pub const ARROW_RIGHT_KEY: u32 = 39;

/// A background clear whose red and green channels follow the arrow keys:
/// down and up step red, left and right step green, by 0.01 per frame held.
pub struct BasicBackground {
    r: u32,
    g: u32,
    b: u32,
}

impl BasicBackground {
    pub closed spec fn spec_r(self) -> u32 {
        self.r
    }

    pub closed spec fn spec_g(self) -> u32 {
        self.g
    }

    pub closed spec fn spec_b(self) -> u32 {
        self.b
    }

    /// A black background.
    pub fn new() -> (r: BasicBackground)
        ensures
            r.spec_r() == 0u32,
            r.spec_g() == 0u32,
            r.spec_b() == 0u32,
    {
        BasicBackground { r: 0, g: 0, b: 0 }
    }
}

impl ComponentLogic for BasicBackground {
    closed spec fn spec_start(self, state: FrameState) -> Self {
        self
    }

    closed spec fn spec_update(self, state: FrameState) -> Self {
        let keys = state.keyboard.spec_keys();
        let r1 = if keys[ARROW_DOWN_KEY as int] {
            spec_f32_sub(self.r, COLOR_STEP_BITS)
        } else {
            self.r
        };
        let r2 = if keys[ARROW_UP_KEY as int] {
            spec_f32_add(r1, COLOR_STEP_BITS)
        } else {
            r1
        };
        let g1 = if keys[ARROW_LEFT_KEY as int] {
            spec_f32_sub(self.g, COLOR_STEP_BITS)
        } else {
            self.g
        };
        let g2 = if keys[ARROW_RIGHT_KEY as int] {
            spec_f32_add(g1, COLOR_STEP_BITS)
        } else {
            g1
        };
        BasicBackground { r: r2, g: g2, b: self.b }
    }

    closed spec fn spec_draw(self) -> Seq<DrawCmd> {
        seq![
            DrawCmd::ClearColor(self.r, self.g, self.b, ONE_BITS),
            DrawCmd::Clear(COLOR_BUFFER_BIT),
        ]
    }

    fn start(&mut self, state: &FrameState) {
    }

    fn update(&mut self, state: &FrameState) {
        if state.keyboard.is_key_pressed(ARROW_DOWN_KEY) {
            self.r = f32_sub(self.r, COLOR_STEP_BITS);
        }
        if state.keyboard.is_key_pressed(ARROW_UP_KEY) {
            self.r = f32_add(self.r, COLOR_STEP_BITS);
        }
        if state.keyboard.is_key_pressed(ARROW_LEFT_KEY) {
            self.g = f32_sub(self.g, COLOR_STEP_BITS);
        }
        if state.keyboard.is_key_pressed(ARROW_RIGHT_KEY) {
            self.g = f32_add(self.g, COLOR_STEP_BITS);
        }
    }

    fn draw(&self) -> (cmds: Vec<DrawCmd>) {
        let mut cmds: Vec<DrawCmd> = Vec::new();
        cmds.push(DrawCmd::ClearColor(self.r, self.g, self.b, ONE_BITS));
        cmds.push(DrawCmd::Clear(COLOR_BUFFER_BIT));
        proof {
            assert(cmds@ =~= self.spec_draw());
        }
        cmds
    }
}

/// A behavior that draws one triangle of three vertices.
pub struct BasicTriangle;

impl BasicTriangle {
    pub fn new() -> (r: BasicTriangle)
        ensures
            r == (BasicTriangle {  }),
    {
        BasicTriangle {  }
    }
}

impl ComponentLogic for BasicTriangle {
    closed spec fn spec_start(self, state: FrameState) -> Self {
        self
    }

    closed spec fn spec_update(self, state: FrameState) -> Self {
        self
    }

    closed spec fn spec_draw(self) -> Seq<DrawCmd> {
        seq![DrawCmd::DrawArrays(TRIANGLES_MODE, 0i32, 3i32)]
    }

    fn start(&mut self, state: &FrameState) {
    }

    fn update(&mut self, state: &FrameState) {
    }

    fn draw(&self) -> (cmds: Vec<DrawCmd>) {
        let mut cmds: Vec<DrawCmd> = Vec::new();
        cmds.push(DrawCmd::DrawArrays(TRIANGLES_MODE, 0, 3));
        proof {
            assert(cmds@ =~= self.spec_draw());
        }
        cmds
    }
}

/// The closed set of built-in behaviors, so one scene can mix them.
pub enum Drawable {
    Background(BasicBackground),
    Triangle(BasicTriangle),
}

impl ComponentLogic for Drawable {
    closed spec fn spec_start(self, state: FrameState) -> Self {
        match self {
            Drawable::Background(b) => Drawable::Background(b.spec_start(state)),
            Drawable::Triangle(t) => Drawable::Triangle(t.spec_start(state)),
        }
    }

    closed spec fn spec_update(self, state: FrameState) -> Self {
        match self {
            Drawable::Background(b) => Drawable::Background(b.spec_update(state)),
            Drawable::Triangle(t) => Drawable::Triangle(t.spec_update(state)),
        }
    }

    closed spec fn spec_draw(self) -> Seq<DrawCmd> {
        match self {
            Drawable::Background(b) => b.spec_draw(),
            Drawable::Triangle(t) => t.spec_draw(),
        }
    }

    fn start(&mut self, state: &FrameState) {
        match self {
            Drawable::Background(b) => b.start(state),
            Drawable::Triangle(t) => t.start(state),
        }
    }

    fn update(&mut self, state: &FrameState) {
        match self {
            Drawable::Background(b) => b.update(state),
            Drawable::Triangle(t) => t.update(state),
        }
    }

    fn draw(&self) -> (cmds: Vec<DrawCmd>) {
        match self {
            Drawable::Background(b) => b.draw(),
            Drawable::Triangle(t) => t.draw(),
        }
    }
}

} // verus!
