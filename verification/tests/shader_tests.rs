use render_core::shader::{
    PassKind, SourceKey, compose_fragment_source, compose_vertex_source, dir_block_name,
    dir_shadow_name, phong_fragment_shader, point_block_name, spot_block_name, spot_shadow_name,
    usize_to_decimal,
};

fn count_occurrences(haystack: &str, needle: &str) -> usize {
    let mut count = 0;
    let mut at = 0;
    while let Some(pos) = haystack[at..].find(needle) {
        count += 1;
        at += pos + needle.len();
    }
    count
}

#[test]
fn decimal_rendering() {
    assert_eq!(usize_to_decimal(0), "0");
    assert_eq!(usize_to_decimal(7), "7");
    assert_eq!(usize_to_decimal(10), "10");
    assert_eq!(usize_to_decimal(12345), "12345");
    assert_eq!(usize_to_decimal(1000000), "1000000");
}

#[test]
fn binding_names_carry_the_index() {
    assert_eq!(dir_shadow_name(0), "directionalShadowMap0");
    assert_eq!(dir_shadow_name(12), "directionalShadowMap12");
    assert_eq!(dir_block_name(3), "DirectionalLightUniform3");
    assert_eq!(spot_shadow_name(1), "spotShadowMap1");
    assert_eq!(spot_block_name(0), "SpotLightUniform0");
    assert_eq!(point_block_name(2), "PointLightUniform2");
}

#[test]
fn composition_is_pure() {
    let a = phong_fragment_shader("void fragment() {}\n", 2, 1, 3);
    let b = phong_fragment_shader("void fragment() {}\n", 2, 1, 3);
    assert_eq!(a, b);
}

#[test]
fn changing_any_single_count_changes_the_source() {
    let base = phong_fragment_shader("void fragment() {}\n", 2, 1, 3);
    assert_ne!(base, phong_fragment_shader("void fragment() {}\n", 3, 1, 3));
    assert_ne!(base, phong_fragment_shader("void fragment() {}\n", 1, 1, 3));
    assert_ne!(base, phong_fragment_shader("void fragment() {}\n", 2, 0, 3));
    assert_ne!(base, phong_fragment_shader("void fragment() {}\n", 2, 2, 3));
    assert_ne!(base, phong_fragment_shader("void fragment() {}\n", 2, 1, 2));
    assert_ne!(base, phong_fragment_shader("void fragment() {}\n", 2, 1, 4));
}

#[test]
fn changing_body_or_pass_changes_the_source() {
    let forward = compose_fragment_source("void fragment() { a }\n", 1, 1, 1, PassKind::Forward);
    let other_body =
        compose_fragment_source("void fragment() { b }\n", 1, 1, 1, PassKind::Forward);
    let deferred = compose_fragment_source("void fragment() { a }\n", 1, 1, 1, PassKind::Deferred);
    assert_ne!(forward, other_body);
    assert_ne!(forward, deferred);
}

#[test]
fn lit_fragment_source_declares_and_invokes_each_light_once() {
    // Two directional lights, no spot light, one point light.
    let source = phong_fragment_shader("void fragment() {}\n", 2, 0, 1);

    // Exactly two directional sampler and block declarations, indices 0 and 1.
    assert_eq!(count_occurrences(&source, "uniform sampler2D directionalShadowMap"), 2);
    assert!(source.contains("uniform sampler2D directionalShadowMap0;"));
    assert!(source.contains("uniform sampler2D directionalShadowMap1;"));
    assert_eq!(count_occurrences(&source, "layout (std140) uniform DirectionalLightUniform"), 2);
    assert!(source.contains("layout (std140) uniform DirectionalLightUniform0"));
    assert!(source.contains("layout (std140) uniform DirectionalLightUniform1"));

    // One point uniform declaration, index 0.
    assert_eq!(count_occurrences(&source, "layout (std140) uniform PointLightUniform"), 1);
    assert!(source.contains("layout (std140) uniform PointLightUniform0"));

    // Zero spot declarations.
    assert_eq!(count_occurrences(&source, "spotShadowMap"), 0);
    assert_eq!(count_occurrences(&source, "SpotLightUniform"), 0);

    // The lighting function invokes directional twice, spot zero times,
    // point once, in that order.
    assert_eq!(count_occurrences(&source, "calculate_directional_light(directionalLight"), 2);
    assert_eq!(count_occurrences(&source, "calculate_spot_light(spotLight"), 0);
    assert_eq!(count_occurrences(&source, "calculate_point_light(pointLight"), 1);
    let first_dir = source.find("calculate_directional_light(directionalLight0").unwrap();
    let second_dir = source.find("calculate_directional_light(directionalLight1").unwrap();
    let point = source.find("calculate_point_light(pointLight0").unwrap();
    assert!(first_dir < second_dir);
    assert!(second_dir < point);
}

#[test]
fn ambient_term_is_outside_the_per_light_sequence() {
    let source = phong_fragment_shader("void fragment() {}\n", 1, 1, 1);
    let ambient = source.find("color.rgb += ambientColor;").unwrap();
    let first_light = source.find("calculate_directional_light(directionalLight0").unwrap();
    assert!(ambient < first_light);
    assert_eq!(count_occurrences(&source, "color.rgb += ambientColor;"), 1);
}

#[test]
fn material_body_is_embedded_verbatim() {
    let body = "void fragment() { outColor = vec4(1.0); }\n";
    let source = phong_fragment_shader(body, 0, 0, 0);
    assert!(source.contains(body));
}

#[test]
fn vertex_source_differs_per_pass() {
    let forward = compose_vertex_source(PassKind::Forward);
    let deferred = compose_vertex_source(PassKind::Deferred);
    assert_ne!(forward, deferred);
    assert!(forward.contains("FORWARD_PASS"));
    assert!(deferred.contains("DEFERRED_GEOMETRY_PASS"));
}

#[test]
fn source_keys_compare_componentwise() {
    let a = SourceKey {
        material_body: String::from("body"),
        directional_count: 1,
        spot_count: 2,
        point_count: 3,
        pass: PassKind::Forward,
    };
    let b = a.duplicate();
    assert!(a.key_eq(&b));
    let mut c = a.duplicate();
    c.point_count = 4;
    assert!(!a.key_eq(&c));
    let mut d = a.duplicate();
    d.pass = PassKind::Deferred;
    assert!(!a.key_eq(&d));
    let mut e = a.duplicate();
    e.material_body = String::from("other");
    assert!(!a.key_eq(&e));
}
