use model3d_gl::{
    BufferElementType, BufferTarget, GlBuffer, GlCommand, Material, RenderContext, Texture,
    VertexBuffer, ViewDescriptor,
};

#[test]
fn default_material_is_number_zero() {
    assert_eq!(Material::default().0, 0);
    assert_eq!(Material(7).0, 7);
}

#[test]
fn texture_keeps_its_number() {
    assert_eq!(Texture(3).0, 3);
}

#[test]
fn tightly_packed_view_keeps_stride_zero() {
    let mut ctx = RenderContext::new();
    let source = GlBuffer::new(&mut ctx);
    let mut view = VertexBuffer::new(&mut ctx);
    let d = ViewDescriptor { count: 4, ele_type: BufferElementType::Int8, byte_offset: 0, stride: 0 };
    view.of_view(&d, &source, 6, 400, &mut ctx).unwrap();
    ctx.take_commands();
    view.bind_to_vao(u32::MAX, &mut ctx);
    assert_eq!(
        ctx.take_commands(),
        vec![
            GlCommand::BindBuffer { target: BufferTarget::Array, buffer: 6 },
            GlCommand::EnableVertexAttribArray { index: u32::MAX },
            GlCommand::VertexAttribPointer {
                index: u32::MAX,
                size: 4,
                ele_type: gl::BYTE,
                stride: 0,
                byte_offset: 0,
            },
        ]
    );
}

#[test]
fn commands_queue_in_order_until_taken() {
    let mut ctx = RenderContext::new();
    ctx.issue(GlCommand::UseProgram { program: 1 });
    ctx.issue(GlCommand::BindVertexArray { vao: 2 });
    assert_eq!(ctx.pending(), 2);
    assert_eq!(
        ctx.take_commands(),
        vec![GlCommand::UseProgram { program: 1 }, GlCommand::BindVertexArray { vao: 2 }]
    );
    assert_eq!(ctx.pending(), 0);
    ctx.issue(GlCommand::LinkProgram { program: 1 });
    assert_eq!(ctx.take_commands(), vec![GlCommand::LinkProgram { program: 1 }]);
}

#[test]
fn owner_counts_follow_share_and_release() {
    let mut ctx = RenderContext::new();
    let first = GlBuffer::new(&mut ctx);
    assert_eq!(ctx.owner_count(0), 1);
    let second = first.share(&mut ctx);
    let third = first.share(&mut ctx);
    assert_eq!(ctx.owner_count(0), 3);
    second.release(&mut ctx);
    assert_eq!(ctx.owner_count(0), 2);
    // a slot that does not exist has no owners, and stays that way
    let mut other = RenderContext::new();
    let _a = GlBuffer::new(&mut other);
    let stray = GlBuffer::new(&mut other);
    let stray_too = stray.share(&mut ctx);
    assert_eq!(ctx.owner_count(1), 0);
    stray.release(&mut ctx);
    stray_too.release(&mut ctx);
    assert_eq!(ctx.owner_count(1), 0);
    assert_eq!(ctx.buffer_count(), 1);
    assert_eq!(ctx.pending(), 0);
    third.release(&mut ctx);
    first.release(&mut ctx);
    assert_eq!(ctx.owner_count(0), 0);
}
