use render_core::context::{ClearState, Context, FramebufferBinding, RenderStates, Viewport};
use render_core::error::RendererError;
use render_core::rendertarget::RenderTarget;
use render_core::shader::{PassKind, SourceKey};
use render_core::texture::{ElementType, Interpolation, Texture2D, TextureData, Wrapping};

fn texture(ctx: &mut Context, width: u32, height: u32) -> Texture2D {
    Texture2D::new_empty(
        ctx,
        width,
        height,
        Interpolation::Nearest,
        Interpolation::Nearest,
        None,
        Wrapping::ClampToEdge,
        Wrapping::ClampToEdge,
        ElementType::RgbaU8,
    )
    .unwrap()
}

#[test]
fn write_restores_binding_after_success() {
    let mut ctx = Context::new();
    let tex = texture(&mut ctx, 2, 2);
    let target = RenderTarget::new_color(&tex);
    let (ctx, r) = target.write(ctx, &ClearState::none(), |c| (c, Ok(())));
    assert!(r.is_ok());
    assert_eq!(ctx.bound_framebuffer, FramebufferBinding::Screen);
}

#[test]
fn write_restores_binding_when_the_callback_fails() {
    let mut ctx = Context::new();
    let tex = texture(&mut ctx, 2, 2);
    let other = texture(&mut ctx, 2, 2);
    let program = ctx
        .get_or_compile(&SourceKey {
            material_body: String::from("void fragment() {}\n"),
            directional_count: 0,
            spot_count: 0,
            point_count: 0,
            pass: PassKind::Forward,
        })
        .unwrap();

    let target = RenderTarget::new_color(&tex);
    let other_id = other.id;
    let (mut ctx, r) = target.write(ctx, &ClearState::none(), move |mut c: Context| {
        // The callback rebinds elsewhere and then fails.
        c.bound_framebuffer = FramebufferBinding::Attachments {
            colors: vec![other_id],
            depth: None,
        };
        (
            c,
            Err(RendererError::ContextError { message: String::from("lost in the callback") }),
        )
    });
    assert!(r.is_err());
    // The pre-call binding is restored even though the callback failed…
    assert_eq!(ctx.bound_framebuffer, FramebufferBinding::Screen);
    // …so a subsequent draw targets the original attachment.
    ctx.draw(
        program,
        RenderStates::opaque(),
        Viewport { x: 0, y: 0, width: 2, height: 2 },
        1,
    );
    assert_eq!(ctx.draws.last().unwrap().target, FramebufferBinding::Screen);
}

#[test]
fn nested_writes_restore_the_outer_binding_exactly() {
    let mut ctx = Context::new();
    let outer_tex = texture(&mut ctx, 2, 2);
    let inner_tex = texture(&mut ctx, 2, 2);
    let outer = RenderTarget::new_color(&outer_tex);
    let inner = RenderTarget::new_color(&inner_tex);
    let outer_id = outer_tex.id;
    let (ctx, r) = outer.write(ctx, &ClearState::none(), move |c: Context| {
        let expected = FramebufferBinding::Attachments { colors: vec![outer_id], depth: None };
        assert_eq!(c.bound_framebuffer, expected);
        let (c, r) = inner.write(c, &ClearState::none(), |c2| (c2, Ok(())));
        // The inner write overrode and then restored the outer binding.
        assert_eq!(c.bound_framebuffer, expected);
        (c, r)
    });
    assert!(r.is_ok());
    assert_eq!(ctx.bound_framebuffer, FramebufferBinding::Screen);
}

#[test]
fn write_clears_only_the_attached_texture() {
    let mut ctx = Context::new();
    let cleared = texture(&mut ctx, 1, 1);
    let untouched = texture(&mut ctx, 1, 1);
    cleared.fill(&mut ctx, &TextureData::RgbaU8(vec![9, 9, 9, 9])).unwrap();
    untouched.fill(&mut ctx, &TextureData::RgbaU8(vec![8, 8, 8, 8])).unwrap();
    let target = RenderTarget::new_color(&cleared);
    let (ctx, r) = target.write(ctx, &ClearState::color(1, 2, 3, 4), |c| (c, Ok(())));
    assert!(r.is_ok());
    assert_eq!(ctx.textures[cleared.id].data, vec![1, 2, 3, 4]);
    assert_eq!(ctx.textures[untouched.id].data, vec![8, 8, 8, 8]);
}

#[test]
fn depth_attachment_clears_with_the_depth_value() {
    let mut ctx = Context::new();
    let color = texture(&mut ctx, 1, 1);
    let depth = Texture2D::new_empty(
        &mut ctx,
        1,
        1,
        Interpolation::Nearest,
        Interpolation::Nearest,
        None,
        Wrapping::ClampToEdge,
        Wrapping::ClampToEdge,
        ElementType::RF32,
    )
    .unwrap();
    depth.fill(&mut ctx, &TextureData::RF32(vec![123])).unwrap();
    let target = RenderTarget::new(vec![color.id], Some(depth.id));
    let clear = ClearState {
        red: None,
        green: None,
        blue: None,
        alpha: None,
        depth: Some(7),
    };
    let (ctx, r) = target.write(ctx, &clear, |c| (c, Ok(())));
    assert!(r.is_ok());
    assert_eq!(ctx.textures[depth.id].data, vec![7]);
}

#[test]
fn read_depth_reads_the_depth_attachment() {
    let mut ctx = Context::new();
    let color = texture(&mut ctx, 1, 1);
    let depth = Texture2D::new_empty(
        &mut ctx,
        2,
        1,
        Interpolation::Nearest,
        Interpolation::Nearest,
        None,
        Wrapping::ClampToEdge,
        Wrapping::ClampToEdge,
        ElementType::RF32,
    )
    .unwrap();
    depth.fill(&mut ctx, &TextureData::RF32(vec![41, 42])).unwrap();
    let target = RenderTarget::new(vec![color.id], Some(depth.id));
    let values = target
        .read_depth(&ctx, Viewport { x: 1, y: 0, width: 1, height: 1 })
        .unwrap();
    assert_eq!(values, vec![42]);
    match target.read_depth(&ctx, Viewport { x: 0, y: 0, width: 3, height: 1 }) {
        Err(RendererError::ResourceSizeMismatch { expected, actual }) => {
            assert_eq!(expected, 2, "the attachment's element count");
            assert_eq!(actual, 3, "the requested element count");
        }
        _ => panic!("expected a size mismatch"),
    }
}

#[test]
fn read_color_reads_the_first_attachment() {
    let mut ctx = Context::new();
    let tex = texture(&mut ctx, 2, 1);
    tex.fill(&mut ctx, &TextureData::RgbaU8(vec![1, 2, 3, 4, 5, 6, 7, 8])).unwrap();
    let target = RenderTarget::new_color(&tex);
    let values = target
        .read_color(&ctx, Viewport { x: 1, y: 0, width: 1, height: 1 })
        .unwrap();
    assert_eq!(values, vec![5, 6, 7, 8]);
    match target.read_color(&ctx, Viewport { x: 0, y: 0, width: 3, height: 1 }) {
        Err(RendererError::ResourceSizeMismatch { expected, actual }) => {
            assert_eq!(expected, 2 * 1 * 4, "the resource's element count");
            assert_eq!(actual, 3 * 1 * 4, "the requested element count");
        }
        _ => panic!("expected a size mismatch"),
    }
}
