use render_core::context::{ClearState, Context, Viewport};
use render_core::error::RendererError;
use render_core::texture::{
    ColorTargetTexture2D, ElementType, Format, Interpolation, Texture2D, TextureData, Wrapping,
    number_of_mip_maps,
};

fn fresh_context() -> Context {
    Context::new()
}

fn plain_texture(ctx: &mut Context, width: u32, height: u32, element_type: ElementType) -> Texture2D {
    Texture2D::new_empty(
        ctx,
        width,
        height,
        Interpolation::Linear,
        Interpolation::Linear,
        None,
        Wrapping::ClampToEdge,
        Wrapping::ClampToEdge,
        element_type,
    )
    .unwrap()
}

#[test]
fn mip_count_is_one_without_filter() {
    assert_eq!(number_of_mip_maps(None, 1, 1), 1);
    assert_eq!(number_of_mip_maps(None, 256, 256), 1);
    assert_eq!(number_of_mip_maps(None, 1024, 4), 1);
    assert_eq!(number_of_mip_maps(None, u32::MAX, u32::MAX), 1);
}

#[test]
fn mip_count_follows_log2_of_larger_side() {
    assert_eq!(number_of_mip_maps(Some(Interpolation::Linear), 1, 1), 1);
    assert_eq!(number_of_mip_maps(Some(Interpolation::Linear), 2, 2), 2);
    assert_eq!(number_of_mip_maps(Some(Interpolation::Linear), 4, 4), 3);
    assert_eq!(number_of_mip_maps(Some(Interpolation::Nearest), 3, 5), 3);
    assert_eq!(number_of_mip_maps(Some(Interpolation::Linear), 256, 256), 9);
    assert_eq!(number_of_mip_maps(Some(Interpolation::Linear), 1024, 512), 11);
    assert_eq!(number_of_mip_maps(Some(Interpolation::Linear), 1, 1024), 11);
    assert_eq!(number_of_mip_maps(Some(Interpolation::Linear), u32::MAX, 1), 32);
}

#[test]
fn new_empty_records_mip_count_and_zeroed_storage() {
    let mut ctx = fresh_context();
    let tex = Texture2D::new_empty(
        &mut ctx,
        4,
        4,
        Interpolation::Linear,
        Interpolation::Linear,
        Some(Interpolation::Linear),
        Wrapping::Repeat,
        Wrapping::Repeat,
        ElementType::RgbaU8,
    )
    .unwrap();
    assert_eq!(tex.width(), 4);
    assert_eq!(tex.height(), 4);
    assert_eq!(tex.mip_count(), 3);
    assert_eq!(ctx.textures.len(), 1);
    assert_eq!(ctx.textures[0].data.len(), 4 * 4 * 4);
    assert!(ctx.textures[0].data.iter().all(|&v| v == 0));
}

#[test]
fn new_empty_surfaces_driver_error() {
    let mut ctx = fresh_context();
    ctx.arm_context_error(String::from("out of memory"));
    let r = plain_texture_result(&mut ctx);
    match r {
        Err(RendererError::ContextError { message }) => assert_eq!(message, "out of memory"),
        _ => panic!("expected a context error"),
    }
}

fn plain_texture_result(ctx: &mut Context) -> Result<Texture2D, RendererError> {
    Texture2D::new_empty(
        ctx,
        2,
        2,
        Interpolation::Nearest,
        Interpolation::Nearest,
        None,
        Wrapping::ClampToEdge,
        Wrapping::ClampToEdge,
        ElementType::RU8,
    )
}

#[test]
fn new_empty_fails_on_oversized_allocation() {
    let mut ctx = fresh_context();
    let r = Texture2D::new_empty(
        &mut ctx,
        u32::MAX,
        u32::MAX,
        Interpolation::Nearest,
        Interpolation::Nearest,
        None,
        Wrapping::ClampToEdge,
        Wrapping::ClampToEdge,
        ElementType::RgbaU8,
    );
    assert!(matches!(r, Err(RendererError::ContextError { .. })));
    assert_eq!(ctx.textures.len(), 0);
}

fn wrong_length_payload(element_type: ElementType) -> TextureData {
    // One channel value short of a 2x2 upload for every layout.
    match element_type {
        ElementType::RU8 => TextureData::RU8(vec![0; 3]),
        ElementType::RgU8 => TextureData::RgU8(vec![0; 7]),
        ElementType::RgbU8 => TextureData::RgbU8(vec![0; 11]),
        ElementType::RgbaU8 => TextureData::RgbaU8(vec![0; 15]),
        ElementType::RF16 => TextureData::RF16(vec![0; 3]),
        ElementType::RgF16 => TextureData::RgF16(vec![0; 7]),
        ElementType::RgbF16 => TextureData::RgbF16(vec![0; 11]),
        ElementType::RgbaF16 => TextureData::RgbaF16(vec![0; 15]),
        ElementType::RF32 => TextureData::RF32(vec![0; 3]),
        ElementType::RgF32 => TextureData::RgF32(vec![0; 7]),
        ElementType::RgbF32 => TextureData::RgbF32(vec![0; 11]),
        ElementType::RgbaF32 => TextureData::RgbaF32(vec![0; 15]),
    }
}

#[test]
fn fill_rejects_wrong_length_for_every_element_type() {
    let all = [
        ElementType::RU8,
        ElementType::RgU8,
        ElementType::RgbU8,
        ElementType::RgbaU8,
        ElementType::RF16,
        ElementType::RgF16,
        ElementType::RgbF16,
        ElementType::RgbaF16,
        ElementType::RF32,
        ElementType::RgF32,
        ElementType::RgbF32,
        ElementType::RgbaF32,
    ];
    for element_type in all {
        let mut ctx = fresh_context();
        let tex = plain_texture(&mut ctx, 2, 2, element_type);
        let before = ctx.textures[0].data.clone();
        let channels = element_type.channels() as usize;
        let r = tex.fill(&mut ctx, &wrong_length_payload(element_type));
        match r {
            Err(RendererError::ResourceSizeMismatch { expected, actual }) => {
                assert_eq!(expected, 2 * 2 * channels);
                assert_eq!(actual, 2 * 2 * channels - 1);
            }
            _ => panic!("expected a size mismatch for {:?}", element_type),
        }
        assert_eq!(ctx.textures[0].data, before, "failed fill must not mutate");
    }
}

#[test]
fn fill_rejects_mismatched_element_type() {
    let mut ctx = fresh_context();
    let tex = plain_texture(&mut ctx, 2, 2, ElementType::RU8);
    // Right channel count in total, wrong layout.
    let r = tex.fill(&mut ctx, &TextureData::RF32(vec![0; 4]));
    assert!(matches!(r, Err(RendererError::ResourceSizeMismatch { .. })));
}

#[test]
fn fill_uploads_widened_channel_values() {
    let mut ctx = fresh_context();
    let tex = plain_texture(&mut ctx, 2, 2, ElementType::RgU8);
    tex.fill(&mut ctx, &TextureData::RgU8(vec![1, 2, 3, 4, 5, 6, 7, 8])).unwrap();
    assert_eq!(ctx.textures[0].data, vec![1, 2, 3, 4, 5, 6, 7, 8]);
}

#[test]
fn fill_then_read_round_trips() {
    let mut ctx = fresh_context();
    let tex = plain_texture(&mut ctx, 2, 2, ElementType::RU8);
    tex.fill(&mut ctx, &TextureData::RU8(vec![10, 20, 30, 40])).unwrap();
    let all = tex
        .read(&ctx, Viewport { x: 0, y: 0, width: 2, height: 2 })
        .unwrap();
    assert_eq!(all, vec![10, 20, 30, 40]);
}

#[test]
fn read_returns_exact_subrectangle() {
    let mut ctx = fresh_context();
    let tex = plain_texture(&mut ctx, 2, 2, ElementType::RU8);
    tex.fill(&mut ctx, &TextureData::RU8(vec![1, 2, 3, 4])).unwrap();
    let column = tex
        .read(&ctx, Viewport { x: 1, y: 0, width: 1, height: 2 })
        .unwrap();
    assert_eq!(column, vec![2, 4]);
    let row = tex
        .read(&ctx, Viewport { x: 0, y: 1, width: 2, height: 1 })
        .unwrap();
    assert_eq!(row, vec![3, 4]);
}

#[test]
fn read_rejects_viewport_outside_texture() {
    let mut ctx = fresh_context();
    let tex = plain_texture(&mut ctx, 2, 2, ElementType::RU8);
    let r = tex.read(&ctx, Viewport { x: 1, y: 0, width: 2, height: 2 });
    assert!(matches!(r, Err(RendererError::ResourceSizeMismatch { .. })));
    let r = tex.read(&ctx, Viewport { x: -1, y: 0, width: 1, height: 1 });
    assert!(matches!(r, Err(RendererError::ResourceSizeMismatch { .. })));
}

#[test]
fn texture_write_clears_and_restores() {
    let mut ctx = fresh_context();
    let tex = plain_texture(&mut ctx, 2, 2, ElementType::RgbaU8);
    tex.fill(&mut ctx, &TextureData::RgbaU8(vec![9; 16])).unwrap();
    let clear = ClearState::color(1, 2, 3, 4);
    let (ctx, r) = tex.write(ctx, &clear, |c| (c, Ok(())));
    assert!(r.is_ok());
    assert_eq!(
        ctx.bound_framebuffer,
        render_core::context::FramebufferBinding::Screen
    );
    assert_eq!(ctx.textures[0].data, vec![1, 2, 3, 4, 1, 2, 3, 4, 1, 2, 3, 4, 1, 2, 3, 4]);
}

#[test]
fn partial_clear_keeps_unset_channels() {
    let mut ctx = fresh_context();
    let tex = plain_texture(&mut ctx, 1, 1, ElementType::RgbaU8);
    tex.fill(&mut ctx, &TextureData::RgbaU8(vec![9, 9, 9, 9])).unwrap();
    let clear = ClearState {
        red: Some(100),
        green: None,
        blue: Some(50),
        alpha: None,
        depth: None,
    };
    let (ctx, r) = tex.write(ctx, &clear, |c| (c, Ok(())));
    assert!(r.is_ok());
    assert_eq!(ctx.textures[0].data, vec![100, 9, 50, 9]);
}

#[test]
fn texture_from_cpu_descriptor_uploads_its_payload() {
    let mut ctx = fresh_context();
    let cpu = render_core::texture::CpuTexture {
        width: 2,
        height: 1,
        data: TextureData::RgbU8(vec![1, 2, 3, 4, 5, 6]),
        min_filter: Interpolation::Linear,
        mag_filter: Interpolation::Linear,
        mip_map_filter: Some(Interpolation::Linear),
        wrap_s: Wrapping::Repeat,
        wrap_t: Wrapping::Repeat,
    };
    let tex = Texture2D::new(&mut ctx, &cpu).unwrap();
    assert_eq!(tex.width(), 2);
    assert_eq!(tex.mip_count(), 2);
    assert_eq!(ctx.textures[tex.id].data, vec![1, 2, 3, 4, 5, 6]);
}

#[test]
fn texture_from_cpu_descriptor_rejects_short_payload() {
    let mut ctx = fresh_context();
    let cpu = render_core::texture::CpuTexture {
        width: 2,
        height: 2,
        data: TextureData::RU8(vec![1, 2, 3]),
        min_filter: Interpolation::Nearest,
        mag_filter: Interpolation::Nearest,
        mip_map_filter: None,
        wrap_s: Wrapping::ClampToEdge,
        wrap_t: Wrapping::ClampToEdge,
    };
    match Texture2D::new(&mut ctx, &cpu) {
        Err(RendererError::ResourceSizeMismatch { expected, actual }) => {
            assert_eq!(expected, 4);
            assert_eq!(actual, 3);
        }
        _ => panic!("expected a size mismatch"),
    }
}

#[test]
fn float_payloads_travel_as_bit_patterns() {
    let mut ctx = fresh_context();
    let tex = plain_texture(&mut ctx, 1, 1, ElementType::RgbaF32);
    let bits = [
        1.0f32.to_bits(),
        0.5f32.to_bits(),
        0.25f32.to_bits(),
        2.0f32.to_bits(),
    ];
    tex.fill(&mut ctx, &TextureData::RgbaF32(bits.to_vec())).unwrap();
    let back = tex
        .read(&ctx, Viewport { x: 0, y: 0, width: 1, height: 1 })
        .unwrap();
    assert_eq!(back, bits.to_vec());
    assert_eq!(f32::from_bits(back[1]), 0.5);
}

#[test]
fn color_target_texture_wraps_texture() {
    let mut ctx = fresh_context();
    let target = ColorTargetTexture2D::new(
        &mut ctx,
        8,
        8,
        Interpolation::Linear,
        Interpolation::Linear,
        Some(Interpolation::Linear),
        Wrapping::Repeat,
        Wrapping::Repeat,
        Format::Rgba,
        ElementType::RgbaU8,
    )
    .unwrap();
    assert_eq!(target.texture().width(), 8);
    assert_eq!(target.texture().mip_count(), 4);
}
