use model3d_gl::{
    BufferElementType, BufferError, BufferTarget, BufferView, GlBuffer, GlCommand, IndexBuffer,
    RenderContext, VertexAttr, VertexBuffer, Vertices, ViewDescriptor,
};

fn upload(target: BufferTarget, name: u32, offset: u64, length: u64) -> Vec<GlCommand> {
    vec![
        GlCommand::BindBuffer { target, buffer: name },
        GlCommand::BufferData { target, source_offset: offset, byte_length: length },
        GlCommand::BindBuffer { target, buffer: 0 },
    ]
}

fn detached_upload(target: BufferTarget, name: u32, offset: u64, length: u64) -> Vec<GlCommand> {
    let mut commands = vec![GlCommand::BindVertexArray { vao: 0 }];
    commands.extend(upload(target, name, offset, length));
    commands
}

fn descriptor(count: u32, ele_type: BufferElementType, byte_offset: u32, stride: u32) -> ViewDescriptor {
    ViewDescriptor { count, ele_type, byte_offset, stride }
}

#[test]
fn new_context_is_empty() {
    let mut ctx = RenderContext::new();
    assert_eq!(ctx.buffer_count(), 0);
    assert_eq!(ctx.pending(), 0);
    assert_eq!(ctx.buffer_name(0), 0);
    assert_eq!(ctx.owner_count(0), 0);
    assert!(ctx.take_commands().is_empty());
}

#[test]
fn new_handle_is_uninitialised() {
    let mut ctx = RenderContext::new();
    let buffer = GlBuffer::new(&mut ctx);
    assert_eq!(buffer.slot_index(), 0);
    assert!(buffer.is_none(&ctx));
    assert_eq!(buffer.gl_buffer(&ctx), 0);
    assert_eq!(ctx.owner_count(0), 1);
    assert_eq!(ctx.pending(), 0);
    let second = GlBuffer::new(&mut ctx);
    assert_eq!(second.slot_index(), 1);
    assert_eq!(ctx.buffer_count(), 2);
}

#[test]
fn first_upload_names_the_buffer() {
    let mut ctx = RenderContext::new();
    let buffer = GlBuffer::new(&mut ctx);
    assert_eq!(buffer.of_data(7, 48, &mut ctx), Ok(()));
    assert!(!buffer.is_none(&ctx));
    assert_eq!(buffer.gl_buffer(&ctx), 7);
    assert_eq!(ctx.take_commands(), upload(BufferTarget::Array, 7, 0, 48));
    assert_eq!(ctx.pending(), 0);
}

#[test]
fn second_upload_is_refused() {
    let mut ctx = RenderContext::new();
    let buffer = GlBuffer::new(&mut ctx);
    assert_eq!(buffer.of_data(7, 48, &mut ctx), Ok(()));
    ctx.take_commands();
    assert_eq!(buffer.of_data(8, 16, &mut ctx), Err(BufferError::DoubleInitialization));
    let view = descriptor(3, BufferElementType::Int8, 0, 0);
    assert_eq!(buffer.of_indices(8, &view, &mut ctx), Err(BufferError::DoubleInitialization));
    assert_eq!(buffer.uniform_buffer(8, 4, 4, &mut ctx), Err(BufferError::DoubleInitialization));
    assert_eq!(buffer.gl_buffer(&ctx), 7);
    assert_eq!(ctx.pending(), 0);
}

#[test]
fn handle_of_another_context_is_unknown() {
    let mut other = RenderContext::new();
    let _first = GlBuffer::new(&mut other);
    let stray = GlBuffer::new(&mut other);
    let mut ctx = RenderContext::new();
    let _own = GlBuffer::new(&mut ctx);
    assert!(stray.is_none(&ctx));
    assert_eq!(stray.of_data(7, 48, &mut ctx), Err(BufferError::UnknownBuffer));
    assert_eq!(stray.create(7, 48, &mut ctx), Err(BufferError::UnknownBuffer));
    let view = descriptor(3, BufferElementType::Int8, 0, 0);
    assert_eq!(stray.of_indices(7, &view, &mut ctx), Err(BufferError::UnknownBuffer));
    assert_eq!(stray.uniform_buffer(7, 4, 4, &mut ctx), Err(BufferError::UnknownBuffer));
    assert_eq!(ctx.pending(), 0);
    assert_eq!(ctx.buffer_count(), 1);
    stray.release(&mut ctx);
    assert_eq!(ctx.pending(), 0);
}

#[test]
fn repeated_announcements_upload_once() {
    let mut ctx = RenderContext::new();
    let buffer = GlBuffer::new(&mut ctx);
    assert_eq!(buffer.create(21, 96, &mut ctx), Ok(()));
    assert_eq!(buffer.create(22, 96, &mut ctx), Ok(()));
    assert_eq!(buffer.create(0, 96, &mut ctx), Ok(()));
    assert_eq!(buffer.gl_buffer(&ctx), 21);
    assert_eq!(ctx.owner_count(buffer.slot_index()), 1);
    assert_eq!(ctx.take_commands(), upload(BufferTarget::Array, 21, 0, 96));
}

#[test]
fn views_of_one_source_share_one_buffer() {
    let mut ctx = RenderContext::new();
    let source = GlBuffer::new(&mut ctx);
    let mut position = BufferView::new(&mut ctx);
    let mut normal = BufferView::new(&mut ctx);
    let p = descriptor(3, BufferElementType::Float32, 0, 24);
    let n = descriptor(3, BufferElementType::Float32, 12, 24);
    assert!(BufferView::needs_buffer(VertexAttr::Position, &source, &ctx));
    assert_eq!(position.create(&p, VertexAttr::Position, &source, 31, 240, &mut ctx), Ok(()));
    assert!(!BufferView::needs_buffer(VertexAttr::Normal, &source, &ctx));
    assert_eq!(normal.create(&n, VertexAttr::Normal, &source, 0, 240, &mut ctx), Ok(()));
    assert_eq!(ctx.take_commands(), upload(BufferTarget::Array, 31, 0, 240));
    let position = position.as_vertex_buffer();
    let normal = normal.as_vertex_buffer();
    assert_eq!(position.gl_buffer(&ctx), 31);
    assert_eq!(normal.gl_buffer(&ctx), 31);
    assert_eq!(source.gl_buffer(&ctx), 31);
    assert_eq!(position.slot_index(), source.slot_index());
    assert_eq!(normal.slot_index(), source.slot_index());
    assert_eq!((position.count, position.ele_type, position.byte_offset, position.stride),
               (3, BufferElementType::Float32, 0, 24));
    assert_eq!((normal.count, normal.ele_type, normal.byte_offset, normal.stride),
               (3, BufferElementType::Float32, 12, 24));
    assert_eq!(ctx.owner_count(source.slot_index()), 3);
    // the buffers that the two views had before are given up, with nothing to delete
    assert_eq!(ctx.owner_count(1), 0);
    assert_eq!(ctx.owner_count(2), 0);
}

#[test]
fn vertex_view_of_unknown_source_is_refused() {
    let mut other = RenderContext::new();
    let _a = GlBuffer::new(&mut other);
    let _b = GlBuffer::new(&mut other);
    let stray = GlBuffer::new(&mut other);
    let mut ctx = RenderContext::new();
    let mut view = BufferView::new(&mut ctx);
    let d = descriptor(3, BufferElementType::Float32, 0, 0);
    assert_eq!(
        view.create(&d, VertexAttr::Position, &stray, 5, 36, &mut ctx),
        Err(BufferError::UnknownBuffer)
    );
    assert_eq!(ctx.pending(), 0);
    assert_eq!(ctx.owner_count(0), 1);
    assert_eq!(view.as_vertex_buffer().count, 0);
}

#[test]
fn indices_take_element_size_times_count_bytes() {
    let cases = [
        (BufferElementType::Int8, 5u32, 5u64),
        (BufferElementType::Int16, 6, 12),
        (BufferElementType::Int32, 7, 28),
        (BufferElementType::Int32, u32::MAX, 4 * (u32::MAX as u64)),
        (BufferElementType::Int16, 0, 0),
    ];
    for (ele_type, count, bytes) in cases {
        let mut ctx = RenderContext::new();
        let view = descriptor(count, ele_type, 40, 0);
        let indices = IndexBuffer::of_view(&view, 9, &mut ctx).unwrap();
        assert_eq!(indices.count, count);
        assert_eq!(indices.ele_type, ele_type);
        assert_eq!(indices.gl_buffer(&ctx), 9);
        assert_eq!(ctx.owner_count(indices.slot_index()), 1);
        assert_eq!(ctx.take_commands(), detached_upload(BufferTarget::ElementArray, 9, 40, bytes));
    }
}

#[test]
fn indices_of_float_elements_are_refused() {
    for ele_type in [BufferElementType::Float32, BufferElementType::Float16] {
        let mut ctx = RenderContext::new();
        let view = descriptor(6, ele_type, 0, 0);
        assert_eq!(IndexBuffer::of_view(&view, 9, &mut ctx).err(), Some(BufferError::InvalidElementType));
        assert_eq!(ctx.buffer_count(), 0);
        assert_eq!(ctx.pending(), 0);
        let handle = GlBuffer::new(&mut ctx);
        assert_eq!(handle.of_indices(9, &view, &mut ctx), Err(BufferError::InvalidElementType));
        assert!(handle.is_none(&ctx));
        assert_eq!(ctx.pending(), 0);
        let source = GlBuffer::new(&mut ctx);
        let mut announced = BufferView::new(&mut ctx);
        assert_eq!(
            announced.create(&view, VertexAttr::Indices, &source, 9, 64, &mut ctx),
            Err(BufferError::InvalidElementType)
        );
        assert_eq!(announced.as_vertex_buffer().gl_buffer(&ctx), 0);
        assert_eq!(ctx.pending(), 0);
    }
}

#[test]
fn element_sizes() {
    assert_eq!(BufferElementType::Int8.index_size(), Some(1));
    assert_eq!(BufferElementType::Int16.index_size(), Some(2));
    assert_eq!(BufferElementType::Int32.index_size(), Some(4));
    assert_eq!(BufferElementType::Float16.index_size(), None);
    assert_eq!(BufferElementType::Float32.index_size(), None);
}

#[test]
fn index_view_has_a_buffer_of_its_own() {
    let mut ctx = RenderContext::new();
    let source = GlBuffer::new(&mut ctx);
    source.of_data(3, 1000, &mut ctx).unwrap();
    let mut view = BufferView::new(&mut ctx);
    ctx.take_commands();
    let d = descriptor(12, BufferElementType::Int16, 100, 0);
    assert!(BufferView::needs_buffer(VertexAttr::Indices, &source, &ctx));
    assert_eq!(view.create(&d, VertexAttr::Indices, &source, 4, 1000, &mut ctx), Ok(()));
    let indices = view.as_index_buffer();
    assert_eq!(indices.gl_buffer(&ctx), 4);
    assert_eq!(indices.count, 12);
    assert_eq!(indices.ele_type, BufferElementType::Int16);
    assert_ne!(indices.slot_index(), source.slot_index());
    assert_eq!(ctx.owner_count(indices.slot_index()), 1);
    assert_eq!(ctx.owner_count(source.slot_index()), 1);
    assert_eq!(ctx.take_commands(), detached_upload(BufferTarget::ElementArray, 4, 100, 24));
}

#[test]
fn index_view_cannot_become_a_vertex_view() {
    let mut ctx = RenderContext::new();
    let source = GlBuffer::new(&mut ctx);
    let mut view = BufferView::new(&mut ctx);
    let d = descriptor(12, BufferElementType::Int16, 0, 0);
    view.create(&d, VertexAttr::Indices, &source, 4, 1000, &mut ctx).unwrap();
    ctx.take_commands();
    assert_eq!(
        view.create(&d, VertexAttr::Normal, &source, 5, 1000, &mut ctx),
        Err(BufferError::NotVertexBuffer)
    );
    assert_eq!(view.as_index_buffer().gl_buffer(&ctx), 4);
    assert!(source.is_none(&ctx));
    assert_eq!(ctx.pending(), 0);
}

#[test]
fn announcing_indices_again_deletes_the_earlier_buffer() {
    let mut ctx = RenderContext::new();
    let source = GlBuffer::new(&mut ctx);
    let mut view = BufferView::new(&mut ctx);
    let d = descriptor(3, BufferElementType::Int8, 0, 0);
    view.create(&d, VertexAttr::Indices, &source, 4, 64, &mut ctx).unwrap();
    ctx.take_commands();
    view.create(&d, VertexAttr::Indices, &source, 5, 64, &mut ctx).unwrap();
    let mut expected = detached_upload(BufferTarget::ElementArray, 5, 0, 3);
    expected.push(GlCommand::DeleteBuffer { buffer: 4 });
    assert_eq!(ctx.take_commands(), expected);
    assert_eq!(view.as_index_buffer().gl_buffer(&ctx), 5);
}

#[test]
fn uninitialised_handle_is_never_deleted() {
    let mut ctx = RenderContext::new();
    let buffer = GlBuffer::new(&mut ctx);
    let shared = buffer.share(&mut ctx);
    assert_eq!(ctx.owner_count(0), 2);
    buffer.release(&mut ctx);
    shared.release(&mut ctx);
    assert_eq!(ctx.owner_count(0), 0);
    assert_eq!(ctx.pending(), 0);
}

#[test]
fn last_owner_deletes_exactly_once() {
    let mut ctx = RenderContext::new();
    let buffer = GlBuffer::new(&mut ctx);
    buffer.of_data(17, 8, &mut ctx).unwrap();
    let second = buffer.share(&mut ctx);
    let third = second.share(&mut ctx);
    assert_eq!(third.slot_index(), buffer.slot_index());
    assert_eq!(ctx.owner_count(0), 3);
    ctx.take_commands();
    buffer.release(&mut ctx);
    assert_eq!(ctx.pending(), 0);
    third.release(&mut ctx);
    assert_eq!(ctx.pending(), 0);
    assert_eq!(second.gl_buffer(&ctx), 17);
    second.release(&mut ctx);
    assert_eq!(ctx.take_commands(), vec![GlCommand::DeleteBuffer { buffer: 17 }]);
    assert_eq!(ctx.owner_count(0), 0);
    // handles of the same slot that come from elsewhere find nothing left to delete
    let mut other = RenderContext::new();
    let stale = GlBuffer::new(&mut other);
    let stale_too = stale.share(&mut other);
    stale.release(&mut ctx);
    stale_too.release(&mut ctx);
    assert_eq!(ctx.pending(), 0);
    assert_eq!(ctx.owner_count(0), 0);
}

#[test]
fn uniform_buffer_takes_size_times_count_bytes() {
    let mut ctx = RenderContext::new();
    let buffer = GlBuffer::new(&mut ctx);
    assert_eq!(buffer.uniform_buffer(13, 16, 5, &mut ctx), Ok(()));
    assert_eq!(buffer.gl_buffer(&ctx), 13);
    assert_eq!(ctx.take_commands(), detached_upload(BufferTarget::Uniform, 13, 0, 80));
    let large = GlBuffer::new(&mut ctx);
    assert_eq!(large.uniform_buffer(14, u32::MAX, u32::MAX, &mut ctx), Ok(()));
    assert_eq!(
        ctx.take_commands(),
        detached_upload(BufferTarget::Uniform, 14, 0, (u32::MAX as u64) * (u32::MAX as u64))
    );
}

#[test]
fn default_views() {
    let mut ctx = RenderContext::new();
    let vertex = VertexBuffer::new(&mut ctx);
    assert_eq!((vertex.count, vertex.ele_type, vertex.byte_offset, vertex.stride),
               (0, BufferElementType::Float32, 0, 0));
    assert_eq!(vertex.gl_buffer(&ctx), 0);
    let index = IndexBuffer::new(&mut ctx);
    assert_eq!((index.count, index.ele_type), (0, BufferElementType::Int8));
    assert_eq!(index.gl_buffer(&ctx), 0);
    let view = BufferView::new(&mut ctx);
    assert!(matches!(view, BufferView::VertexBuffer(_)));
    assert_eq!(ctx.buffer_count(), 3);
    assert_eq!(ctx.pending(), 0);
}

#[test]
fn binding_a_vertex_view() {
    let mut ctx = RenderContext::new();
    let source = GlBuffer::new(&mut ctx);
    let mut view = VertexBuffer::new(&mut ctx);
    let d = descriptor(2, BufferElementType::Int16, 8, 20);
    view.of_view(&d, &source, 6, 400, &mut ctx).unwrap();
    ctx.take_commands();
    view.bind_to_vao(3, &mut ctx);
    assert_eq!(
        ctx.take_commands(),
        vec![
            GlCommand::BindBuffer { target: BufferTarget::Array, buffer: 6 },
            GlCommand::EnableVertexAttribArray { index: 3 },
            GlCommand::VertexAttribPointer { index: 3, size: 2, ele_type: 0x1402, stride: 20, byte_offset: 8 },
        ]
    );
}

#[test]
fn binding_an_index_view() {
    let mut ctx = RenderContext::new();
    let d = descriptor(2, BufferElementType::Int16, 8, 0);
    let indices = IndexBuffer::of_view(&d, 6, &mut ctx).unwrap();
    ctx.take_commands();
    indices.bind_to_vao(&mut ctx);
    assert_eq!(
        ctx.take_commands(),
        vec![GlCommand::BindBuffer { target: BufferTarget::ElementArray, buffer: 6 }]
    );
}

#[test]
fn vertex_view_gives_up_what_it_had() {
    let mut ctx = RenderContext::new();
    let first = GlBuffer::new(&mut ctx);
    let second = GlBuffer::new(&mut ctx);
    let mut view = VertexBuffer::new(&mut ctx);
    let d = descriptor(3, BufferElementType::Float32, 0, 0);
    view.of_view(&d, &first, 6, 36, &mut ctx).unwrap();
    first.release(&mut ctx);
    ctx.take_commands();
    // the view is now the only owner of buffer 6; taking up another source deletes it
    view.of_view(&d, &second, 7, 36, &mut ctx).unwrap();
    let mut expected = upload(BufferTarget::Array, 7, 0, 36);
    expected.push(GlCommand::DeleteBuffer { buffer: 6 });
    assert_eq!(ctx.take_commands(), expected);
    assert_eq!(view.gl_buffer(&ctx), 7);
    // taking up the same source again changes nothing
    view.of_view(&d, &second, 8, 36, &mut ctx).unwrap();
    assert_eq!(ctx.pending(), 0);
    assert_eq!(ctx.owner_count(second.slot_index()), 2);
}

#[test]
fn vertex_set_shares_every_buffer() {
    let mut ctx = RenderContext::new();
    let source = GlBuffer::new(&mut ctx);
    let mut indices = BufferView::new(&mut ctx);
    let mut position = BufferView::new(&mut ctx);
    let mut normal = BufferView::new(&mut ctx);
    indices.create(&descriptor(6, BufferElementType::Int8, 0, 0), VertexAttr::Indices, &source, 1, 100, &mut ctx).unwrap();
    position.create(&descriptor(3, BufferElementType::Float32, 8, 24), VertexAttr::Position, &source, 2, 100, &mut ctx).unwrap();
    normal.create(&descriptor(3, BufferElementType::Float32, 20, 24), VertexAttr::Normal, &source, 0, 100, &mut ctx).unwrap();
    ctx.take_commands();
    let attrs = vec![(VertexAttr::Normal, &normal)];
    let set = Vertices::create(&indices, &position, &attrs, &mut ctx);
    assert_eq!(ctx.pending(), 0);
    {
        let (i, p, a) = set.borrow();
        assert_eq!(i.gl_buffer(&ctx), 1);
        assert_eq!(i.count, 6);
        assert_eq!(p.gl_buffer(&ctx), 2);
        assert_eq!(p.byte_offset, 8);
        assert_eq!(a.len(), 1);
        assert_eq!(a[0].0, VertexAttr::Normal);
        assert_eq!(a[0].1.gl_buffer(&ctx), 2);
        assert_eq!(a[0].1.byte_offset, 20);
    }
    let index_slot = indices.as_index_buffer().slot_index();
    assert_eq!(ctx.owner_count(index_slot), 2);
    // the source, two announced views and two views of the set
    assert_eq!(ctx.owner_count(source.slot_index()), 5);
    let again = set.share(&mut ctx);
    assert_eq!(ctx.owner_count(index_slot), 3);
    assert_eq!(ctx.owner_count(source.slot_index()), 7);
    assert_eq!(again.borrow().2[0].1.byte_offset, 20);
    assert_eq!(again.borrow().0.gl_buffer(&ctx), 1);
    again.release(&mut ctx);
    set.release(&mut ctx);
    assert_eq!(ctx.pending(), 0);
    assert_eq!(ctx.owner_count(index_slot), 1);
    assert_eq!(ctx.owner_count(source.slot_index()), 3);
    indices.release(&mut ctx);
    assert_eq!(ctx.take_commands(), vec![GlCommand::DeleteBuffer { buffer: 1 }]);
    position.release(&mut ctx);
    normal.release(&mut ctx);
    assert_eq!(ctx.pending(), 0);
    source.release(&mut ctx);
    assert_eq!(ctx.take_commands(), vec![GlCommand::DeleteBuffer { buffer: 2 }]);
}

#[test]
fn empty_vertex_set() {
    let mut ctx = RenderContext::new();
    let set = Vertices::new(&mut ctx);
    let (i, p, a) = set.borrow();
    assert_eq!(i.count, 0);
    assert_eq!(p.count, 0);
    assert!(a.is_empty());
    assert_eq!(i.slot_index(), 0);
    assert_eq!(p.slot_index(), 1);
    assert_eq!(ctx.buffer_count(), 2);
    assert_eq!(ctx.pending(), 0);
}

#[test]
fn vertex_view_of_a_buffer_of_indices_is_refused() {
    let mut ctx = RenderContext::new();
    let indices = GlBuffer::new(&mut ctx);
    let uniforms = GlBuffer::new(&mut ctx);
    let d = descriptor(3, BufferElementType::Int16, 0, 0);
    indices.of_indices(4, &d, &mut ctx).unwrap();
    uniforms.uniform_buffer(5, 64, 1, &mut ctx).unwrap();
    assert_eq!(indices.target(&ctx), BufferTarget::ElementArray);
    assert_eq!(uniforms.target(&ctx), BufferTarget::Uniform);
    ctx.take_commands();
    let mut view = VertexBuffer::new(&mut ctx);
    assert_eq!(view.of_view(&d, &indices, 0, 6, &mut ctx), Err(BufferError::NotVertexBuffer));
    assert_eq!(view.of_view(&d, &uniforms, 0, 6, &mut ctx), Err(BufferError::NotVertexBuffer));
    let mut announced = BufferView::new(&mut ctx);
    assert_eq!(
        announced.create(&d, VertexAttr::Color, &indices, 0, 6, &mut ctx),
        Err(BufferError::NotVertexBuffer)
    );
    assert_eq!(view.gl_buffer(&ctx), 0);
    assert_eq!(view.count, 0);
    assert_eq!(ctx.owner_count(indices.slot_index()), 1);
    assert_eq!(ctx.owner_count(uniforms.slot_index()), 1);
    assert_eq!(ctx.pending(), 0);
    // a source of vertex data is taken up as before
    let vertices = GlBuffer::new(&mut ctx);
    vertices.of_data(6, 6, &mut ctx).unwrap();
    assert_eq!(vertices.target(&ctx), BufferTarget::Array);
    assert_eq!(view.of_view(&d, &vertices, 0, 6, &mut ctx), Ok(()));
    assert_eq!(view.gl_buffer(&ctx), 6);
}
