use model3d_gl::{
    GlCommand, GlProgram, GlShader, RenderContext, ShaderClass, StageOutcome, UniformId, VertexAttr,
};

fn stage(kind: u32, id: u32, compile_status: i32, info_log: &str) -> StageOutcome {
    StageOutcome { kind, id, compile_status, info_log: String::from(info_log) }
}

fn linked(ctx: &mut RenderContext, id: u32) -> GlProgram {
    let program = GlProgram::from_shaders(Vec::new(), id, 1, "", ctx).unwrap();
    assert_eq!(ctx.pending(), 0);
    program
}

#[test]
fn compiled_shader_keeps_its_name() {
    let shader = GlShader::from_source(12, GlShader::vertex_kind(), 1, "").unwrap();
    assert_eq!(shader.id(), 12);
    let shader = GlShader::from_vert_source(13, 1, "warning: unused").unwrap();
    assert_eq!(shader.id(), 13);
    let shader = GlShader::from_frag_source(14, -1, "").unwrap();
    assert_eq!(shader.id(), 14);
}

#[test]
fn compile_failure_names_the_stage() {
    assert_eq!(
        GlShader::from_vert_source(3, 0, "0:1: syntax error").err(),
        Some(String::from("Vertex shader error 0:1: syntax error"))
    );
    assert_eq!(
        GlShader::from_frag_source(3, 0, "0:9: no main").err(),
        Some(String::from("Fragment shader error 0:9: no main"))
    );
    // any stage that is no vertex stage is reported as the fragment stage
    assert_eq!(
        GlShader::from_source(3, 0x8DD9, 0, "").err(),
        Some(String::from("Fragment shader error "))
    );
}

#[test]
fn shader_release_deletes_it() {
    let mut ctx = RenderContext::new();
    let shader = GlShader::from_vert_source(21, 1, "").unwrap();
    shader.release(&mut ctx);
    assert_eq!(ctx.take_commands(), vec![GlCommand::DeleteShader { shader: 21 }]);
}

#[test]
fn all_stages_compile() {
    let mut ctx = RenderContext::new();
    let stages = vec![
        stage(GlShader::vertex_kind(), 4, 1, ""),
        stage(GlShader::fragment_kind(), 5, 1, ""),
    ];
    let shaders = GlProgram::compile_program(&stages, &mut ctx).unwrap();
    assert_eq!(shaders.iter().map(|s| s.id()).collect::<Vec<u32>>(), vec![4, 5]);
    assert_eq!(ctx.pending(), 0);
    let none = GlProgram::compile_program(&Vec::new(), &mut ctx).unwrap();
    assert!(none.is_empty());
}

#[test]
fn first_compile_failure_ends_it() {
    let mut ctx = RenderContext::new();
    let stages = vec![
        stage(GlShader::vertex_kind(), 4, 1, ""),
        stage(GlShader::vertex_kind(), 5, 1, ""),
        stage(GlShader::fragment_kind(), 6, 0, "first"),
        stage(GlShader::vertex_kind(), 7, 0, "second"),
    ];
    assert_eq!(
        GlProgram::compile_program(&stages, &mut ctx).err(),
        Some(String::from("Fragment shader error first"))
    );
    assert_eq!(
        ctx.take_commands(),
        vec![GlCommand::DeleteShader { shader: 4 }, GlCommand::DeleteShader { shader: 5 }]
    );
    let stages = vec![stage(GlShader::vertex_kind(), 4, 0, "at once")];
    assert_eq!(
        GlProgram::compile_program(&stages, &mut ctx).err(),
        Some(String::from("Vertex shader error at once"))
    );
    assert_eq!(ctx.pending(), 0);
}

#[test]
fn attach_then_link() {
    let mut ctx = RenderContext::new();
    let shaders = vec![
        GlShader::from_vert_source(4, 1, "").unwrap(),
        GlShader::from_frag_source(5, 1, "").unwrap(),
    ];
    GlProgram::attach_and_link(&shaders, 9, &mut ctx);
    assert_eq!(
        ctx.take_commands(),
        vec![
            GlCommand::AttachShader { program: 9, shader: 4 },
            GlCommand::AttachShader { program: 9, shader: 5 },
            GlCommand::LinkProgram { program: 9 },
        ]
    );
}

#[test]
fn link_failure_is_reported() {
    let mut ctx = RenderContext::new();
    let shaders = vec![
        GlShader::from_vert_source(4, 1, "").unwrap(),
        GlShader::from_frag_source(5, 1, "").unwrap(),
    ];
    let failed = GlProgram::from_shaders(shaders, 9, 0, "missing varying", &mut ctx);
    assert_eq!(failed.err(), Some(String::from("Shader linking error missing varying")));
    assert_eq!(
        ctx.take_commands(),
        vec![GlCommand::DeleteShader { shader: 4 }, GlCommand::DeleteShader { shader: 5 }]
    );
}

#[test]
fn linked_program_lets_its_stages_go() {
    let mut ctx = RenderContext::new();
    let shaders = vec![
        GlShader::from_vert_source(4, 1, "").unwrap(),
        GlShader::from_frag_source(5, 1, "").unwrap(),
    ];
    let program = GlProgram::from_shaders(shaders, 9, 1, "", &mut ctx).unwrap();
    assert_eq!(program.id(), 9);
    assert!(program.attributes().is_empty());
    assert_eq!(program.uniform(UniformId::ViewMatrix), None);
    assert_eq!(
        ctx.take_commands(),
        vec![
            GlCommand::DetachShader { program: 9, shader: 4 },
            GlCommand::DeleteShader { shader: 4 },
            GlCommand::DetachShader { program: 9, shader: 5 },
            GlCommand::DeleteShader { shader: 5 },
        ]
    );
}

#[test]
fn use_and_release() {
    let mut ctx = RenderContext::new();
    let program = linked(&mut ctx, 9);
    program.set_used(&mut ctx);
    assert_eq!(ctx.take_commands(), vec![GlCommand::UseProgram { program: 9 }]);
    program.release(&mut ctx);
    assert_eq!(ctx.take_commands(), vec![GlCommand::DeleteProgram { program: 9 }]);
}

#[test]
fn attributes_are_kept_in_order() {
    let mut ctx = RenderContext::new();
    let mut program = linked(&mut ctx, 9);
    assert_eq!(program.add_attr_name("vPosition", VertexAttr::Position, 2), Ok(()));
    assert_eq!(program.add_attr_name("vNormal", VertexAttr::Normal, 0), Ok(()));
    assert_eq!(program.add_attr_name("vColor", VertexAttr::Color, i32::MAX), Ok(()));
    assert_eq!(
        program.attributes().to_vec(),
        vec![
            (2, VertexAttr::Position),
            (0, VertexAttr::Normal),
            (0x7FFF_FFFF, VertexAttr::Color),
        ]
    );
}

#[test]
fn missing_attribute_is_reported() {
    let mut ctx = RenderContext::new();
    let mut program = linked(&mut ctx, 9);
    program.add_attr_name("vPosition", VertexAttr::Position, 2).unwrap();
    program.add_uniform_name("uModel", UniformId::ModelMatrix, 4).unwrap();
    assert_eq!(
        program.add_attr_name("vTangent", VertexAttr::Tangent, -1),
        Err(String::from("Unable to find attribute vTangent in program"))
    );
    assert_eq!(
        program.add_attr_name("", VertexAttr::Tangent, i32::MIN),
        Err(String::from("Unable to find attribute  in program"))
    );
    assert_eq!(program.attributes().to_vec(), vec![(2, VertexAttr::Position)]);
    assert_eq!(program.uniform(UniformId::ModelMatrix), Some(4));
}

#[test]
fn missing_uniform_stays_absent() {
    let mut ctx = RenderContext::new();
    let mut program = linked(&mut ctx, 9);
    program.add_attr_name("vPosition", VertexAttr::Position, 2).unwrap();
    assert_eq!(
        program.add_uniform_name("uMeshMatrix", UniformId::MeshMatrix, -1),
        Err(String::from("Unable to find uniform uMeshMatrix in program"))
    );
    assert_eq!(program.uniform(UniformId::MeshMatrix), None);
    assert_eq!(program.add_uniform_name("uModelMatrix", UniformId::ModelMatrix, 3), Ok(()));
    assert_eq!(program.uniform(UniformId::MeshMatrix), None);
    assert_eq!(program.uniform(UniformId::ModelMatrix), Some(3));
    assert_eq!(program.attributes().to_vec(), vec![(2, VertexAttr::Position)]);
    assert_eq!(program.id(), 9);
}

#[test]
fn lookup_failures_are_told_apart() {
    let mut ctx = RenderContext::new();
    let mut program = linked(&mut ctx, 9);
    let attribute = program.add_attr_name("x", VertexAttr::Normal, -1).unwrap_err();
    let uniform = program.add_uniform_name("x", UniformId::User(0), -1).unwrap_err();
    let block = program.add_uniform_buffer_name("x", 0, 0xFFFF_FFFF).unwrap_err();
    assert_eq!(attribute, "Unable to find attribute x in program");
    assert_eq!(uniform, "Unable to find uniform x in program");
    assert_eq!(block, "Unable to find uniform block x in program");
    assert_ne!(attribute, uniform);
    assert_ne!(attribute, block);
    assert_ne!(uniform, block);
}

#[test]
fn uniform_locations() {
    let mut ctx = RenderContext::new();
    let mut program = linked(&mut ctx, 9);
    assert_eq!(program.add_uniform_name("uView", UniformId::ViewMatrix, 0), Ok(()));
    assert_eq!(program.add_uniform_name("uBones", UniformId::BoneMatrices, 7), Ok(()));
    assert_eq!(program.add_uniform_name("uScale", UniformId::BoneScale, -2), Ok(()));
    assert_eq!(program.add_uniform_name("uTime", UniformId::User(1), 11), Ok(()));
    assert_eq!(program.add_uniform_name("uOther", UniformId::User(2), 12), Ok(()));
    assert_eq!(program.add_uniform_name("uTimeAgain", UniformId::User(1), 13), Ok(()));
    assert_eq!(program.uniform(UniformId::ViewMatrix), Some(0));
    assert_eq!(program.uniform(UniformId::BoneMatrices), Some(7));
    assert_eq!(program.uniform(UniformId::BoneScale), Some(-2));
    // the first location that was found for an identifier is the one that counts
    assert_eq!(program.uniform(UniformId::User(1)), Some(11));
    assert_eq!(program.uniform(UniformId::User(2)), Some(12));
    assert_eq!(program.uniform(UniformId::User(3)), None);
    assert_eq!(program.uniform(UniformId::Buffer(1)), None);
    assert_eq!(program.uniform(UniformId::ModelMatrix), None);
}

#[test]
fn uniform_blocks() {
    let mut ctx = RenderContext::new();
    let mut program = linked(&mut ctx, 9);
    assert_eq!(program.add_uniform_buffer_name("Material", 1, 0), Ok(()));
    assert_eq!(program.add_uniform_buffer_name("Lights", 2, 0x7FFF_FFFF), Ok(()));
    assert_eq!(program.add_uniform_buffer_name("Bones", 3, 0x8000_0000), Ok(()));
    assert_eq!(program.add_uniform_buffer_name("World", 4, 0xFFFF_FFFE), Ok(()));
    assert_eq!(
        program.add_uniform_buffer_name("Absent", 5, 0xFFFF_FFFF),
        Err(String::from("Unable to find uniform block Absent in program"))
    );
    assert_eq!(program.uniform(UniformId::Buffer(1)), Some(0));
    assert_eq!(program.uniform(UniformId::Buffer(2)), Some(i32::MAX));
    assert_eq!(program.uniform(UniformId::Buffer(3)), Some(i32::MIN));
    assert_eq!(program.uniform(UniformId::Buffer(4)), Some(-2));
    assert_eq!(program.uniform(UniformId::Buffer(5)), None);
    assert_eq!(program.uniform(UniformId::User(1)), None);
}
