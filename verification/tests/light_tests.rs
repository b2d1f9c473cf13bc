use render_core::context::{BoundResource, Context};
use render_core::error::RendererError;
use render_core::light::{
    AmbientLight, DirectionalLight, PointLight, SpotLight, bind_lights,
};
use render_core::shader::{PassKind, SourceKey};
use render_core::texture::{ElementType, Interpolation, Texture2D, Wrapping};

fn shadow_map(ctx: &mut Context) -> usize {
    Texture2D::new_empty(
        ctx,
        4,
        4,
        Interpolation::Nearest,
        Interpolation::Nearest,
        None,
        Wrapping::ClampToEdge,
        Wrapping::ClampToEdge,
        ElementType::RF32,
    )
    .unwrap()
    .id
}

fn program(ctx: &mut Context) -> usize {
    ctx.get_or_compile(&SourceKey {
        material_body: String::from("void fragment() {}\n"),
        directional_count: 2,
        spot_count: 1,
        point_count: 2,
        pass: PassKind::Forward,
    })
    .unwrap()
}

#[test]
fn bind_lights_binds_every_light_in_fixed_order() {
    let mut ctx = Context::new();
    let s0 = shadow_map(&mut ctx);
    let s1 = shadow_map(&mut ctx);
    let s2 = shadow_map(&mut ctx);
    let program = program(&mut ctx);
    let ambient = AmbientLight { color_x: 11, color_y: 22, color_z: 33 };
    let directional = vec![
        DirectionalLight { buffer_id: 100, shadow_map_id: s0 },
        DirectionalLight { buffer_id: 101, shadow_map_id: s1 },
    ];
    let spot = vec![SpotLight { buffer_id: 200, shadow_map_id: s2 }];
    let point = vec![PointLight { buffer_id: 300 }, PointLight { buffer_id: 301 }];

    bind_lights(&mut ctx, program, Some(&ambient), &directional, &spot, &point).unwrap();

    let recs: Vec<(&str, BoundResource)> =
        ctx.bindings.iter().map(|b| (b.name.as_str(), b.resource)).collect();
    assert_eq!(
        recs,
        vec![
            ("ambientColor", BoundResource::Vec3 { x: 11, y: 22, z: 33 }),
            ("directionalShadowMap0", BoundResource::Texture(s0)),
            ("DirectionalLightUniform0", BoundResource::UniformBlock(100)),
            ("directionalShadowMap1", BoundResource::Texture(s1)),
            ("DirectionalLightUniform1", BoundResource::UniformBlock(101)),
            ("spotShadowMap0", BoundResource::Texture(s2)),
            ("SpotLightUniform0", BoundResource::UniformBlock(200)),
            ("PointLightUniform0", BoundResource::UniformBlock(300)),
            ("PointLightUniform1", BoundResource::UniformBlock(301)),
        ]
    );
    assert!(ctx.bindings.iter().all(|b| b.program == program));
}

#[test]
fn bind_lights_without_ambient_binds_zero() {
    let mut ctx = Context::new();
    let program = program(&mut ctx);
    bind_lights(&mut ctx, program, None, &vec![], &vec![], &vec![]).unwrap();
    assert_eq!(ctx.bindings.len(), 1);
    assert_eq!(ctx.bindings[0].name, "ambientColor");
    assert_eq!(ctx.bindings[0].resource, BoundResource::Vec3 { x: 0, y: 0, z: 0 });
}

#[test]
fn bind_lights_rejects_an_exceeded_budget_without_binding() {
    let mut ctx = Context::new();
    let shadow = shadow_map(&mut ctx);
    let program = program(&mut ctx);
    let too_many = vec![SpotLight { buffer_id: 1, shadow_map_id: shadow }; 17];
    let r = bind_lights(&mut ctx, program, None, &vec![], &too_many, &vec![]);
    assert!(matches!(r, Err(RendererError::ContextError { .. })));
    assert_eq!(ctx.bindings.len(), 0);
}
