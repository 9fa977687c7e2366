//! What one frame's render pass records, in order.

use vstd::prelude::*;

verus! {

/// Bind group slot of the texture and its sampler.
pub const TEXTURE_GROUP_SLOT: u32 = 0;

/// Bind group slot of the camera uniform.
pub const CAMERA_GROUP_SLOT: u32 = 1;

/// Binding of the texture view inside the texture bind group.
pub const TEXTURE_VIEW_BINDING: u32 = 0;

/// Binding of the filtering sampler inside the texture bind group.
pub const SAMPLER_BINDING: u32 = 1;

/// Vertex buffer slot of the mesh's vertices.
pub const VERTEX_BUFFER_SLOT: u32 = 0;

/// The bind groups a pass can bind.
#[derive(Clone, Copy, Debug, PartialEq, Eq, Structural)]
pub enum BindGroupKind {
    Texture,
    Camera,
}

/// One command recorded into the render pass.
#[derive(Clone, Copy, Debug, PartialEq, Eq, Structural)]
pub enum RenderOp {
    SetPipeline,
    SetBindGroup { slot: u32, group: BindGroupKind },
    SetVertexBuffer { slot: u32 },
    SetIndexBuffer,
    DrawIndexed { index_count: u32, instance_count: u32 },
}

/// The pass for a mesh of `index_count` indices: bind the pipeline, the
/// texture and camera groups, the vertex and index buffers, then draw every
/// index once.
pub open spec fn pass_spec(index_count: u32) -> Seq<RenderOp> {
    seq![
        RenderOp::SetPipeline,
        RenderOp::SetBindGroup { slot: TEXTURE_GROUP_SLOT, group: BindGroupKind::Texture },
        RenderOp::SetBindGroup { slot: CAMERA_GROUP_SLOT, group: BindGroupKind::Camera },
        RenderOp::SetVertexBuffer { slot: VERTEX_BUFFER_SLOT },
        RenderOp::SetIndexBuffer,
        RenderOp::DrawIndexed { index_count, instance_count: 1 },
    ]
}

/// The commands of one frame's render pass, in recording order.
pub fn render_pass_ops(index_count: u32) -> (r: Vec<RenderOp>)
    ensures
        r@ == pass_spec(index_count),
{
    let mut r: Vec<RenderOp> = Vec::new();
    r.push(RenderOp::SetPipeline);
    r.push(RenderOp::SetBindGroup { slot: TEXTURE_GROUP_SLOT, group: BindGroupKind::Texture });
    r.push(RenderOp::SetBindGroup { slot: CAMERA_GROUP_SLOT, group: BindGroupKind::Camera });
    r.push(RenderOp::SetVertexBuffer { slot: VERTEX_BUFFER_SLOT });
    r.push(RenderOp::SetIndexBuffer);
    r.push(RenderOp::DrawIndexed { index_count, instance_count: 1 });
    assert(r@ =~= pass_spec(index_count));
    r
}

/// A pass draws exactly once, as its last command, after the pipeline and
/// both buffers are bound.
pub proof fn lemma_single_draw_last(index_count: u32)
    ensures
        pass_spec(index_count).last() is DrawIndexed,
        forall|i: int|
            0 <= i < pass_spec(index_count).len() - 1 ==> !(#[trigger] pass_spec(
                index_count,
            )[i] is DrawIndexed),
        pass_spec(index_count)[0] is SetPipeline,
{
    let s = pass_spec(index_count);
    assert forall|i: int| 0 <= i < s.len() - 1 implies !(#[trigger] s[i] is DrawIndexed) by {
        assert(0 <= i < 5);
    }
}

} // verus!
