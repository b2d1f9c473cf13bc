use render_core::context::Context;
use render_core::error::RendererError;
use render_core::shader::{PassKind, SourceKey};

fn key(body: &str, nd: usize, ns: usize, np: usize, pass: PassKind) -> SourceKey {
    SourceKey {
        material_body: String::from(body),
        directional_count: nd,
        spot_count: ns,
        point_count: np,
        pass,
    }
}

#[test]
fn get_or_compile_compiles_a_combination_at_most_once() {
    let mut ctx = Context::new();
    let k = key("void fragment() {}\n", 2, 0, 1, PassKind::Forward);

    let first = ctx.get_or_compile(&k).unwrap();
    assert_eq!(ctx.programs.len(), 1, "first call compiles");

    let second = ctx.get_or_compile(&k.duplicate()).unwrap();
    assert_eq!(second, first, "equal keys return the same handle");
    assert_eq!(ctx.programs.len(), 1, "second call does not compile");
    assert_eq!(ctx.cache.len(), 1);
}

#[test]
fn distinct_keys_get_distinct_programs() {
    let mut ctx = Context::new();
    let a = ctx.get_or_compile(&key("b\n", 1, 0, 0, PassKind::Forward)).unwrap();
    let b = ctx.get_or_compile(&key("b\n", 2, 0, 0, PassKind::Forward)).unwrap();
    let c = ctx.get_or_compile(&key("b\n", 1, 0, 0, PassKind::Deferred)).unwrap();
    assert_ne!(a, b);
    assert_ne!(a, c);
    assert_eq!(ctx.programs.len(), 3);
}

#[test]
fn compiled_sources_follow_the_key() {
    let mut ctx = Context::new();
    let h = ctx.get_or_compile(&key("void fragment() { x }\n", 1, 1, 0, PassKind::Forward)).unwrap();
    let program = &ctx.programs[h];
    assert!(program.fragment_source.contains("void fragment() { x }\n"));
    assert!(program.fragment_source.contains("directionalShadowMap0"));
    assert!(program.fragment_source.contains("spotShadowMap0"));
    assert!(!program.fragment_source.contains("PointLightUniform"));
    assert!(program.vertex_source.contains("FORWARD_PASS"));
}

#[test]
fn compile_failure_surfaces_the_raw_diagnostic() {
    let mut ctx = Context::new();
    ctx.arm_compile_failure(String::from("0:12: syntax error"));
    let r = ctx.get_or_compile(&key("bad\n", 0, 0, 0, PassKind::Forward));
    match r {
        Err(RendererError::ShaderCompileError { diagnostic }) => {
            assert_eq!(diagnostic, "0:12: syntax error")
        }
        _ => panic!("expected a compile error"),
    }
    assert_eq!(ctx.programs.len(), 0, "a failed compile caches nothing");
    assert_eq!(ctx.cache.len(), 0);
}

#[test]
fn cached_combination_survives_compiler_failure() {
    let mut ctx = Context::new();
    let k = key("ok\n", 0, 0, 0, PassKind::Forward);
    let h = ctx.get_or_compile(&k).unwrap();
    ctx.arm_compile_failure(String::from("broken driver"));
    // The combination was seen before, so no compilation is attempted.
    assert_eq!(ctx.get_or_compile(&k.duplicate()).unwrap(), h);
}

#[test]
fn error_check_consumes_the_pending_report() {
    let mut ctx = Context::new();
    assert!(ctx.error_check().is_ok());
    ctx.arm_context_error(String::from("device lost"));
    match ctx.error_check() {
        Err(RendererError::ContextError { message }) => assert_eq!(message, "device lost"),
        _ => panic!("expected a context error"),
    }
    assert!(ctx.error_check().is_ok(), "the report is consumed");
}
