//! The two render passes of a chunk and how each one draws.

use vstd::prelude::*;

verus! {

/// A render pass: into the shadow map, or the lit color pass.
#[derive(Clone, Copy, Debug, PartialEq, Eq, Structural)]
pub enum Pass {
    Shadow,
    Color,
}

/// Which winding of triangles is not drawn.
#[derive(Clone, Copy, Debug, PartialEq, Eq, Structural)]
pub enum CullingMode {
    CullClockwise,
    CullCounterClockwise,
}

/// How a fragment's depth is compared against the depth buffer.
#[derive(Clone, Copy, Debug, PartialEq, Eq, Structural)]
pub enum DepthTest {
    IfLess,
}

/// How the pillars of a chunk are drawn in one pass.
#[derive(Clone, Copy, Debug, PartialEq, Eq, Structural)]
pub struct PassSettings {
    /// The pass, which also picks the shader program.
    pub pass: Pass,
    /// Whether depth values are written.
    pub depth_write: bool,
    pub depth_test: DepthTest,
    pub culling: CullingMode,
}

/// Back faces are culled with opposite windings in the two passes: the
/// shadow pass keeps the faces turned away from the light.
pub open spec fn culling_of(pass: Pass) -> CullingMode {
    match pass {
        Pass::Shadow => CullingMode::CullClockwise,
        Pass::Color => CullingMode::CullCounterClockwise,
    }
}

/// Both passes write depth and keep the nearest fragment.
pub open spec fn settings_of(pass: Pass) -> PassSettings {
    PassSettings { pass, depth_write: true, depth_test: DepthTest::IfLess, culling: culling_of(pass) }
}

pub fn pass_settings(pass: Pass) -> (s: PassSettings)
    ensures
        s == settings_of(pass),
{
    let culling = match pass {
        Pass::Shadow => CullingMode::CullClockwise,
        Pass::Color => CullingMode::CullCounterClockwise,
    };
    PassSettings { pass, depth_write: true, depth_test: DepthTest::IfLess, culling }
}

} // verus!
