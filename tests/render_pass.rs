use pentagon_viewer::render_pass::{render_pass_ops, BindGroupKind, RenderOp};

#[test]
fn pass_binds_everything_then_draws_all_indices_once() {
    let ops = render_pass_ops(9);
    assert_eq!(
        ops,
        vec![
            RenderOp::SetPipeline,
            RenderOp::SetBindGroup { slot: 0, group: BindGroupKind::Texture },
            RenderOp::SetBindGroup { slot: 1, group: BindGroupKind::Camera },
            RenderOp::SetVertexBuffer { slot: 0 },
            RenderOp::SetIndexBuffer,
            RenderOp::DrawIndexed { index_count: 9, instance_count: 1 },
        ]
    );
}

#[test]
fn pass_draw_count_follows_index_count() {
    let ops = render_pass_ops(0);
    assert_eq!(ops.last(), Some(&RenderOp::DrawIndexed { index_count: 0, instance_count: 1 }));
    assert_eq!(ops.iter().filter(|o| matches!(o, RenderOp::DrawIndexed { .. })).count(), 1);
}
