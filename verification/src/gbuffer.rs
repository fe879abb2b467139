//! Layout of the off-screen render targets.
//!
//! Deferred shading uses two off-screen buffers. The geometry buffer holds
//! three float color targets (position, normal, diffuse color) and a
//! depth-stencil target; the result buffer holds one float color target and
//! shares the geometry buffer's depth target. This module computes those
//! layouts as plain descriptors; allocating the actual GPU textures from
//! them is the renderer's job.

use vstd::prelude::*;

verus! {

/// The shape of a texture allocation.
#[derive(Clone, Copy, Debug, PartialEq, Eq, Structural)]
pub enum TextureKind {
    Texture2D,
}

/// The storage format of a texture allocation.
#[derive(Clone, Copy, Debug, PartialEq, Eq, Structural)]
pub enum SurfaceFormat {
    /// Four 32-bit float components per texel.
    FloatRgba32,
    /// 24-bit depth with an 8-bit stencil per texel.
    Depth24Stencil8,
}

/// Everything the renderer needs to allocate one texture.
#[derive(Clone, Copy, Debug, PartialEq, Eq, Structural)]
pub struct TextureInfo {
    pub width: u16,
    pub height: u16,
    pub depth: u16,
    pub levels: u8,
    pub kind: TextureKind,
    pub format: SurfaceFormat,
}

/// The descriptor of a single-level 2D float color target of the given size.
pub open spec fn color_target_info(width: u16, height: u16) -> TextureInfo {
    TextureInfo {
        width,
        height,
        depth: 1,
        levels: 1,
        kind: TextureKind::Texture2D,
        format: SurfaceFormat::FloatRgba32,
    }
}

/// The descriptor of a single-level 2D depth-stencil target of the given size.
pub open spec fn depth_target_info(width: u16, height: u16) -> TextureInfo {
    TextureInfo {
        width,
        height,
        depth: 1,
        levels: 1,
        kind: TextureKind::Texture2D,
        format: SurfaceFormat::Depth24Stencil8,
    }
}

/// The geometry buffer: three float color targets and a depth target, all of
/// the frame's size. The color targets are bound in the order position,
/// normal, diffuse, matching the fragment outputs of the terrain shader.
#[derive(Clone, Copy, Debug, PartialEq, Eq, Structural)]
pub struct GBufferDesc {
    pub width: u16,
    pub height: u16,
    pub position: TextureInfo,
    pub normal: TextureInfo,
    pub diffuse: TextureInfo,
    pub depth: TextureInfo,
}

impl GBufferDesc {
    /// Every target is a single-level 2D texture of the frame's size, the
    /// color targets in float format and the depth target in depth-stencil
    /// format.
    pub open spec fn wf(self) -> bool {
        &&& self.position == color_target_info(self.width, self.height)
        &&& self.normal == color_target_info(self.width, self.height)
        &&& self.diffuse == color_target_info(self.width, self.height)
        &&& self.depth == depth_target_info(self.width, self.height)
    }

    /// The color targets in binding order: position, normal, diffuse.
    pub fn color_planes(&self) -> (v: Vec<TextureInfo>)
        ensures
            v@ =~= seq![self.position, self.normal, self.diffuse],
    {
        let mut v: Vec<TextureInfo> = Vec::new();
        v.push(self.position);
        v.push(self.normal);
        v.push(self.diffuse);
        v
    }
}

/// The result buffer: one float color target of the frame's size, sharing
/// the geometry buffer's depth target.
#[derive(Clone, Copy, Debug, PartialEq, Eq, Structural)]
pub struct ResBufferDesc {
    pub width: u16,
    pub height: u16,
    pub frame: TextureInfo,
    pub depth: TextureInfo,
}

impl ResBufferDesc {
    /// The color target is a single-level 2D float texture of the frame's
    /// size.
    pub open spec fn wf(self) -> bool {
        self.frame == color_target_info(self.width, self.height)
    }
}

/// Lays out the geometry buffer for a frame of the given size.
pub fn create_g_buffer(width: u16, height: u16) -> (g: GBufferDesc)
    ensures
        g.width == width,
        g.height == height,
        g.wf(),
{
    let float_info = TextureInfo {
        width,
        height,
        depth: 1,
        levels: 1,
        kind: TextureKind::Texture2D,
        format: SurfaceFormat::FloatRgba32,
    };
    let depth_info = TextureInfo {
        width,
        height,
        depth: 1,
        levels: 1,
        kind: TextureKind::Texture2D,
        format: SurfaceFormat::Depth24Stencil8,
    };
    GBufferDesc {
        width,
        height,
        position: float_info,
        normal: float_info,
        diffuse: float_info,
        depth: depth_info,
    }
}

/// Lays out the result buffer for a frame of the given size, reusing the
/// given depth target.
pub fn create_res_buffer(width: u16, height: u16, depth: TextureInfo) -> (r: ResBufferDesc)
    ensures
        r.width == width,
        r.height == height,
        r.wf(),
        r.depth == depth,
{
    ResBufferDesc {
        width,
        height,
        frame: TextureInfo {
            width,
            height,
            depth: 1,
            levels: 1,
            kind: TextureKind::Texture2D,
            format: SurfaceFormat::FloatRgba32,
        },
        depth,
    }
}

/// The two buffers of one frame agree: built for the same size, the result
/// buffer's depth target is exactly the geometry buffer's.
pub proof fn lemma_buffers_share_depth(g: GBufferDesc, r: ResBufferDesc)
    requires
        g.wf(),
        r.wf(),
        r.depth == g.depth,
        r.width == g.width,
        r.height == g.height,
    ensures
        r.depth == depth_target_info(r.width, r.height),
        r.frame.width == g.position.width,
        r.frame.height == g.position.height,
{
}

} // verus!
