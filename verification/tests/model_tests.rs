use render_core::context::{Blend, Context, Cull, Viewport};
use render_core::error::RendererError;
use render_core::light::{AmbientLight, DirectionalLight, Lights, PointLight};
use render_core::object::{
    CameraBinding, Color, CpuMaterial, CpuMesh, CpuModel, CpuModelPart, InstancedModel, Mat4,
    Material, MaterialKind, Model,
};
use render_core::texture::{ElementType, Interpolation, Texture2D, Wrapping};

fn mesh_with(has_uvs: bool, has_colors: bool) -> CpuMesh {
    CpuMesh { vertex_count: 3, has_uvs, has_colors, transparent_colors: false }
}

fn camera() -> CameraBinding {
    CameraBinding {
        uniform_buffer_id: 0,
        viewport: Viewport { x: 0, y: 0, width: 640, height: 480 },
    }
}

fn shadow_map(ctx: &mut Context) -> usize {
    Texture2D::new_empty(
        ctx,
        4,
        4,
        Interpolation::Nearest,
        Interpolation::Nearest,
        None,
        Wrapping::ClampToEdge,
        Wrapping::ClampToEdge,
        ElementType::RF32,
    )
    .unwrap()
    .id
}

#[test]
fn model_construction_pairs_parts_with_materials() {
    let cpu = CpuModel {
        materials: vec![
            CpuMaterial { name: String::from("metal"), albedo: Color { r: 10, g: 20, b: 30, a: 255 } },
        ],
        parts: vec![
            CpuModelPart {
                name: String::from("hull"),
                material_index: Some(0),
                geometry: mesh_with(true, false),
            },
            CpuModelPart {
                name: String::from("antenna"),
                material_index: None,
                geometry: mesh_with(false, false),
            },
        ],
    };
    let model = Model::new(&cpu).unwrap();
    assert_eq!(model.parts().len(), 2);
    assert_eq!(
        model.parts()[0].material.kind,
        MaterialKind::Lit { color: Color { r: 10, g: 20, b: 30, a: 255 } }
    );
    assert_eq!(
        model.parts()[1].material.kind,
        MaterialKind::Color { color: Color { r: 255, g: 255, b: 255, a: 255 } }
    );
    assert!(model.parts()[0].geometry.has_uvs);
}

#[test]
fn model_construction_names_the_part_with_a_missing_material() {
    let cpu = CpuModel {
        materials: vec![
            CpuMaterial { name: String::from("only"), albedo: Color { r: 0, g: 0, b: 0, a: 255 } },
        ],
        parts: vec![
            CpuModelPart {
                name: String::from("good"),
                material_index: Some(0),
                geometry: mesh_with(false, false),
            },
            CpuModelPart {
                name: String::from("broken"),
                material_index: Some(5),
                geometry: mesh_with(false, false),
            },
        ],
    };
    match Model::new(&cpu) {
        Err(RendererError::MissingMaterial { index, part }) => {
            assert_eq!(index, "5");
            assert_eq!(part, "broken");
        }
        _ => panic!("expected a missing-material error"),
    }
}

#[test]
fn model_construction_reports_the_first_broken_part() {
    let cpu = CpuModel {
        materials: vec![],
        parts: vec![
            CpuModelPart {
                name: String::from("first"),
                material_index: Some(1),
                geometry: mesh_with(false, false),
            },
            CpuModelPart {
                name: String::from("second"),
                material_index: Some(2),
                geometry: mesh_with(false, false),
            },
        ],
    };
    match Model::new(&cpu) {
        Err(RendererError::MissingMaterial { index, part }) => {
            assert_eq!(index, "1");
            assert_eq!(part, "first");
        }
        _ => panic!("expected a missing-material error"),
    }
}

#[test]
fn instanced_model_holds_its_transformation() {
    let transformations = vec![Mat4::identity(), Mat4::identity()];
    let mut model = InstancedModel::new(&transformations, &mesh_with(true, true)).unwrap();
    assert_eq!(model.mesh.instance_count, 2);
    assert_eq!(*model.transformation(), Mat4::identity());
    let moved = Mat4::new([1; 16]);
    model.set_transformation(moved);
    assert_eq!(*model.transformation(), moved);
    assert!(matches!(
        model.aabb(),
        render_core::object::AxisAlignedBoundingBox::Infinite
    ));
}

#[test]
fn render_forward_issues_one_draw_with_bound_lights() {
    let mut ctx = Context::new();
    let shadow = shadow_map(&mut ctx);
    let lights = Lights {
        ambient: Some(AmbientLight { color_x: 1, color_y: 2, color_z: 3 }),
        directional: vec![DirectionalLight { buffer_id: 7, shadow_map_id: shadow }],
        spot: vec![],
        point: vec![PointLight { buffer_id: 9 }],
    };
    let model = InstancedModel::new(&vec![Mat4::identity()], &mesh_with(false, false)).unwrap();
    let material = Material {
        kind: MaterialKind::Lit { color: Color { r: 255, g: 0, b: 0, a: 255 } },
        cull: Cull::Back,
    };

    model.render_forward(&mut ctx, &material, &camera(), &lights).unwrap();

    assert_eq!(ctx.draws.len(), 1);
    let draw = &ctx.draws[0];
    assert_eq!(draw.instance_count, 1);
    assert_eq!(draw.states.cull, Cull::Back);
    assert_eq!(draw.states.blend, Blend::Disabled);
    assert_eq!(draw.viewport.width, 640);

    let names: Vec<&str> = ctx.bindings.iter().map(|b| b.name.as_str()).collect();
    assert_eq!(
        names,
        vec![
            "CameraUniform",
            "ambientColor",
            "directionalShadowMap0",
            "DirectionalLightUniform0",
            "PointLightUniform0",
            "surfaceColor",
        ]
    );
    assert!(ctx.programs[draw.program].fragment_source.contains("calculate_lighting"));
}

#[test]
fn render_forward_compiles_a_combination_once_across_draws() {
    let mut ctx = Context::new();
    let lights = Lights::none();
    let model = InstancedModel::new(&vec![Mat4::identity()], &mesh_with(false, false)).unwrap();
    let material = Material {
        kind: MaterialKind::Color { color: Color { r: 1, g: 2, b: 3, a: 255 } },
        cull: Cull::Disabled,
    };
    model.render_forward(&mut ctx, &material, &camera(), &lights).unwrap();
    model.render_forward(&mut ctx, &material, &camera(), &lights).unwrap();
    assert_eq!(ctx.draws.len(), 2);
    assert_eq!(ctx.programs.len(), 1, "equal combinations share one program");
    assert_eq!(ctx.draws[0].program, ctx.draws[1].program);
}

#[test]
fn render_forward_rejects_material_without_needed_uvs() {
    let mut ctx = Context::new();
    let model = InstancedModel::new(&vec![Mat4::identity()], &mesh_with(false, false)).unwrap();
    let tex = shadow_map(&mut ctx);
    let material = Material { kind: MaterialKind::Textured { texture_id: tex }, cull: Cull::Disabled };
    let r = model.render_forward(&mut ctx, &material, &camera(), &Lights::none());
    match r {
        Err(RendererError::MissingVertexAttribute { attribute }) => {
            assert_eq!(attribute, "uv coordinates")
        }
        _ => panic!("expected a missing-attribute error"),
    }
    assert_eq!(ctx.draws.len(), 0);
    assert_eq!(ctx.bindings.len(), 0);
}

#[test]
fn render_forward_reports_exceeded_light_budget() {
    let mut ctx = Context::new();
    let shadow = shadow_map(&mut ctx);
    let lights = Lights {
        ambient: None,
        directional: vec![DirectionalLight { buffer_id: 0, shadow_map_id: shadow }; 17],
        spot: vec![],
        point: vec![],
    };
    let model = InstancedModel::new(&vec![Mat4::identity()], &mesh_with(false, false)).unwrap();
    let material = Material {
        kind: MaterialKind::Color { color: Color { r: 0, g: 0, b: 0, a: 255 } },
        cull: Cull::Disabled,
    };
    let r = model.render_forward(&mut ctx, &material, &camera(), &lights);
    assert!(matches!(r, Err(RendererError::ContextError { .. })));
    assert_eq!(ctx.bindings.len(), 0, "never silently truncated, nothing bound");
}

#[test]
fn render_forward_aborts_cleanly_on_compile_failure() {
    let mut ctx = Context::new();
    ctx.arm_compile_failure(String::from("composition defect"));
    let model = InstancedModel::new(&vec![Mat4::identity()], &mesh_with(false, false)).unwrap();
    let material = Material {
        kind: MaterialKind::Color { color: Color { r: 0, g: 0, b: 0, a: 255 } },
        cull: Cull::Disabled,
    };
    let r = model.render_forward(&mut ctx, &material, &camera(), &Lights::none());
    match r {
        Err(RendererError::ShaderCompileError { diagnostic }) => {
            assert_eq!(diagnostic, "composition defect")
        }
        _ => panic!("expected a compile error"),
    }
    assert_eq!(ctx.draws.len(), 0, "the render call is aborted");
    assert_eq!(ctx.bindings.len(), 0, "no state is partially bound");
}

#[test]
fn transparent_material_draws_blended_without_depth_writes() {
    let mut ctx = Context::new();
    let model = InstancedModel::new(&vec![Mat4::identity()], &mesh_with(false, false)).unwrap();
    let material = Material {
        kind: MaterialKind::Color { color: Color { r: 0, g: 0, b: 0, a: 128 } },
        cull: Cull::Disabled,
    };
    model.render_forward(&mut ctx, &material, &camera(), &Lights::none()).unwrap();
    let states = ctx.draws[0].states;
    assert_eq!(states.blend, Blend::Transparency);
    assert!(!states.write_mask.depth);
}

#[test]
fn depth_material_draws_with_depth_only_writes() {
    let mut ctx = Context::new();
    let model = InstancedModel::new(&vec![Mat4::identity()], &mesh_with(false, false)).unwrap();
    let material = Material { kind: MaterialKind::Depth, cull: Cull::Front };
    model.render_forward(&mut ctx, &material, &camera(), &Lights::none()).unwrap();
    let states = ctx.draws[0].states;
    assert!(states.write_mask.depth);
    assert!(!states.write_mask.red && !states.write_mask.green);
    assert_eq!(states.cull, Cull::Front);
    // A depth-only material binds no color uniform of its own.
    assert_eq!(ctx.bindings.last().unwrap().name, "ambientColor");
}

#[test]
fn deferred_pass_never_shares_programs_with_forward() {
    let mut ctx = Context::new();
    let model = InstancedModel::new(&vec![Mat4::identity()], &mesh_with(false, false)).unwrap();
    let material = Material {
        kind: MaterialKind::Color { color: Color { r: 0, g: 0, b: 0, a: 255 } },
        cull: Cull::Disabled,
    };
    let viewport = Viewport { x: 0, y: 0, width: 64, height: 64 };
    model.render_forward(&mut ctx, &material, &camera(), &Lights::none()).unwrap();
    model.render_deferred(&mut ctx, &material, &camera(), viewport).unwrap();
    assert_eq!(ctx.programs.len(), 2);
    assert_ne!(ctx.draws[0].program, ctx.draws[1].program);
    let deferred = &ctx.programs[ctx.draws[1].program];
    assert!(deferred.fragment_source.contains("DEFERRED_GEOMETRY_PASS"));
    assert_eq!(ctx.draws[1].viewport, viewport);
}
