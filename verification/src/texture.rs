//! Texture resources: pixel element layout, mip-chain sizing, and the 2D
//! texture type with upload (`fill`), scoped render (`write`) and readback
//! (`read`).

use vstd::prelude::*;

use crate::context::ClearState;
use crate::context::Context;
use crate::context::Viewport;
use crate::error::RendererError;

verus! {

/// Filtering used when sampling a texture.
#[derive(Clone, Copy, Debug, PartialEq, Eq, Structural)]
pub enum Interpolation {
    Nearest,
    Linear,
}

/// Behaviour when sampling outside of [0, 1] coordinates.
#[derive(Clone, Copy, Debug, PartialEq, Eq, Structural)]
pub enum Wrapping {
    Repeat,
    MirroredRepeat,
    ClampToEdge,
}

/// The pixel element layout of a texture: channel count and the width and
/// kind of each channel. Fixed at construction of a resource, it decides the
/// internal format and the accepted upload length for the resource's
/// lifetime.
#[derive(Clone, Copy, Debug, PartialEq, Eq, Structural)]
pub enum ElementType {
    RU8,
    RgU8,
    RgbU8,
    RgbaU8,
    RF16,
    RgF16,
    RgbF16,
    RgbaF16,
    RF32,
    RgF32,
    RgbF32,
    RgbaF32,
}

impl ElementType {
    /// How many channels one pixel of this layout has.
    pub open spec fn spec_channels(self) -> nat {
        match self {
            ElementType::RU8 | ElementType::RF16 | ElementType::RF32 => 1,
            ElementType::RgU8 | ElementType::RgF16 | ElementType::RgF32 => 2,
            ElementType::RgbU8 | ElementType::RgbF16 | ElementType::RgbF32 => 3,
            ElementType::RgbaU8 | ElementType::RgbaF16 | ElementType::RgbaF32 => 4,
        }
    }

    /// How many bytes one channel of this layout occupies.
    pub open spec fn spec_channel_byte_size(self) -> nat {
        match self {
            ElementType::RU8 | ElementType::RgU8 | ElementType::RgbU8 | ElementType::RgbaU8 => 1,
            ElementType::RF16 | ElementType::RgF16 | ElementType::RgbF16
                | ElementType::RgbaF16 => 2,
            ElementType::RF32 | ElementType::RgF32 | ElementType::RgbF32
                | ElementType::RgbaF32 => 4,
        }
    }

    pub fn channels(self) -> (r: u32)
        ensures
            r == self.spec_channels(),
            1 <= r <= 4,
    {
        match self {
            ElementType::RU8 | ElementType::RF16 | ElementType::RF32 => 1,
            ElementType::RgU8 | ElementType::RgF16 | ElementType::RgF32 => 2,
            ElementType::RgbU8 | ElementType::RgbF16 | ElementType::RgbF32 => 3,
            ElementType::RgbaU8 | ElementType::RgbaF16 | ElementType::RgbaF32 => 4,
        }
    }

    pub fn channel_byte_size(self) -> (r: u32)
        ensures
            r == self.spec_channel_byte_size(),
    {
        match self {
            ElementType::RU8 | ElementType::RgU8 | ElementType::RgbU8 | ElementType::RgbaU8 => 1,
            ElementType::RF16 | ElementType::RgF16 | ElementType::RgbF16
                | ElementType::RgbaF16 => 2,
            ElementType::RF32 | ElementType::RgF32 | ElementType::RgbF32
                | ElementType::RgbaF32 => 4,
        }
    }
}

/// Pixel data for an upload, one variant per supported element layout. The
/// payload is a flat sequence of channel values in row-major order,
/// `width * height * channels` of them for a full-extent upload. Wide
/// channels carry their bit patterns (`u16` for half floats, `u32` for
/// single floats), so that the layout is exact while the data stays plain.
#[derive(Clone, Debug)]
pub enum TextureData {
    RU8(Vec<u8>),
    RgU8(Vec<u8>),
    RgbU8(Vec<u8>),
    RgbaU8(Vec<u8>),
    RF16(Vec<u16>),
    RgF16(Vec<u16>),
    RgbF16(Vec<u16>),
    RgbaF16(Vec<u16>),
    RF32(Vec<u32>),
    RgF32(Vec<u32>),
    RgbF32(Vec<u32>),
    RgbaF32(Vec<u32>),
}

impl TextureData {
    /// The element layout this payload is for.
    pub open spec fn spec_element_type(self) -> ElementType {
        match self {
            TextureData::RU8(_) => ElementType::RU8,
            TextureData::RgU8(_) => ElementType::RgU8,
            TextureData::RgbU8(_) => ElementType::RgbU8,
            TextureData::RgbaU8(_) => ElementType::RgbaU8,
            TextureData::RF16(_) => ElementType::RF16,
            TextureData::RgF16(_) => ElementType::RgF16,
            TextureData::RgbF16(_) => ElementType::RgbF16,
            TextureData::RgbaF16(_) => ElementType::RgbaF16,
            TextureData::RF32(_) => ElementType::RF32,
            TextureData::RgF32(_) => ElementType::RgF32,
            TextureData::RgbF32(_) => ElementType::RgbF32,
            TextureData::RgbaF32(_) => ElementType::RgbaF32,
        }
    }

    /// The number of channel values in the payload.
    pub open spec fn spec_len(self) -> nat {
        self.spec_channel_values().len()
    }

    /// The payload as one sequence of channel values, each widened to `u32`.
    pub open spec fn spec_channel_values(self) -> Seq<u32> {
        match self {
            TextureData::RU8(v) | TextureData::RgU8(v) | TextureData::RgbU8(v)
                | TextureData::RgbaU8(v) => v@.map_values(|x: u8| x as u32),
            TextureData::RF16(v) | TextureData::RgF16(v) | TextureData::RgbF16(v)
                | TextureData::RgbaF16(v) => v@.map_values(|x: u16| x as u32),
            TextureData::RF32(v) | TextureData::RgF32(v) | TextureData::RgbF32(v)
                | TextureData::RgbaF32(v) => v@,
        }
    }

    pub fn element_type(&self) -> (r: ElementType)
        ensures
            r == self.spec_element_type(),
    {
        match self {
            TextureData::RU8(_) => ElementType::RU8,
            TextureData::RgU8(_) => ElementType::RgU8,
            TextureData::RgbU8(_) => ElementType::RgbU8,
            TextureData::RgbaU8(_) => ElementType::RgbaU8,
            TextureData::RF16(_) => ElementType::RF16,
            TextureData::RgF16(_) => ElementType::RgF16,
            TextureData::RgbF16(_) => ElementType::RgbF16,
            TextureData::RgbaF16(_) => ElementType::RgbaF16,
            TextureData::RF32(_) => ElementType::RF32,
            TextureData::RgF32(_) => ElementType::RgF32,
            TextureData::RgbF32(_) => ElementType::RgbF32,
            TextureData::RgbaF32(_) => ElementType::RgbaF32,
        }
    }

    pub fn len(&self) -> (r: usize)
        ensures
            r == self.spec_len(),
    {
        match self {
            TextureData::RU8(v) | TextureData::RgU8(v) | TextureData::RgbU8(v)
                | TextureData::RgbaU8(v) => v.len(),
            TextureData::RF16(v) | TextureData::RgF16(v) | TextureData::RgbF16(v)
                | TextureData::RgbaF16(v) => v.len(),
            TextureData::RF32(v) | TextureData::RgF32(v) | TextureData::RgbF32(v)
                | TextureData::RgbaF32(v) => v.len(),
        }
    }

    /// Widens the payload to one `u32` channel value per entry.
    pub fn channel_values(&self) -> (r: Vec<u32>)
        ensures
            r@ == self.spec_channel_values(),
    {
        match self {
            TextureData::RU8(v) | TextureData::RgU8(v) | TextureData::RgbU8(v)
                | TextureData::RgbaU8(v) => widen_u8(v),
            TextureData::RF16(v) | TextureData::RgF16(v) | TextureData::RgbF16(v)
                | TextureData::RgbaF16(v) => widen_u16(v),
            TextureData::RF32(v) | TextureData::RgF32(v) | TextureData::RgbF32(v)
                | TextureData::RgbaF32(v) => copy_u32(v),
        }
    }
}

fn widen_u8(v: &Vec<u8>) -> (r: Vec<u32>)
    ensures
        r@ == v@.map_values(|x: u8| x as u32),
{
    let mut r: Vec<u32> = Vec::new();
    let mut i: usize = 0;
    while i < v.len()
        invariant
            i <= v.len(),
            r@ == v@.subrange(0, i as int).map_values(|x: u8| x as u32),
        decreases v.len() - i,
    {
        r.push(v[i] as u32);
        i = i + 1;
        proof {
            assert(v@.subrange(0, i as int).map_values(|x: u8| x as u32) =~= v@.subrange(
                0,
                i - 1,
            ).map_values(|x: u8| x as u32).push(v@[i - 1] as u32));
        }
    }
    proof {
        assert(v@.subrange(0, v@.len() as int) =~= v@);
    }
    r
}

fn widen_u16(v: &Vec<u16>) -> (r: Vec<u32>)
    ensures
        r@ == v@.map_values(|x: u16| x as u32),
{
    let mut r: Vec<u32> = Vec::new();
    let mut i: usize = 0;
    while i < v.len()
        invariant
            i <= v.len(),
            r@ == v@.subrange(0, i as int).map_values(|x: u16| x as u32),
        decreases v.len() - i,
    {
        r.push(v[i] as u32);
        i = i + 1;
        proof {
            assert(v@.subrange(0, i as int).map_values(|x: u16| x as u32) =~= v@.subrange(
                0,
                i - 1,
            ).map_values(|x: u16| x as u32).push(v@[i - 1] as u32));
        }
    }
    proof {
        assert(v@.subrange(0, v@.len() as int) =~= v@);
    }
    r
}

fn copy_u32(v: &Vec<u32>) -> (r: Vec<u32>)
    ensures
        r@ == v@,
{
    let mut r: Vec<u32> = Vec::new();
    let mut i: usize = 0;
    while i < v.len()
        invariant
            i <= v.len(),
            r@ == v@.subrange(0, i as int),
        decreases v.len() - i,
    {
        r.push(v[i]);
        i = i + 1;
        proof {
            assert(v@.subrange(0, i as int) =~= v@.subrange(0, i - 1).push(v@[i - 1]));
        }
    }
    proof {
        assert(v@.subrange(0, v@.len() as int) =~= v@);
    }
    r
}

/// A texture as delivered by a CPU-side asset loader: dimensions, sampling
/// parameters and the raw payload, already decoded into plain values.
#[derive(Clone, Debug)]
pub struct CpuTexture {
    pub width: u32,
    pub height: u32,
    pub data: TextureData,
    pub min_filter: Interpolation,
    pub mag_filter: Interpolation,
    pub mip_map_filter: Option<Interpolation>,
    pub wrap_s: Wrapping,
    pub wrap_t: Wrapping,
}

/// `log2(n)` rounded down, with `log2_floor(0) == 0` and `log2_floor(1) == 0`.
pub open spec fn log2_floor(n: nat) -> nat
    decreases n,
{
    if n <= 1 {
        0
    } else {
        1 + log2_floor(n / 2)
    }
}

/// The length of the mip chain of a `width` x `height` resource: `1` when no
/// mip filter is requested, else `log2(max(width, height))` rounded down,
/// plus one.
pub open spec fn spec_mip_count(mip_filter_requested: bool, width: u32, height: u32) -> nat {
    if !mip_filter_requested {
        1
    } else {
        log2_floor(vstd::math::max(width as int, height as int) as nat) + 1
    }
}

/// Computes the mip-chain length for a texture of the given size.
pub fn number_of_mip_maps(mip_map_filter: Option<Interpolation>, width: u32, height: u32) -> (r:
    u32)
    ensures
        r == spec_mip_count(mip_map_filter is Some, width, height),
{
    if mip_map_filter.is_none() {
        return 1;
    }
    let mut size: u32 = if width >= height {
        width
    } else {
        height
    };
    let ghost size0 = size;
    proof {
        vstd::arithmetic::power2::lemma2_to64();
        lemma_log2_floor_below_pow(size as nat, 32);
    }
    let mut count: u32 = 1;
    while size > 1
        invariant
            count >= 1,
            count - 1 + log2_floor(size as nat) == log2_floor(size0 as nat),
            log2_floor(size0 as nat) <= 31,
        decreases size,
    {
        size = size / 2;
        count = count + 1;
    }
    count
}

/// `log2_floor(n)` is below `k` whenever `n` is below the `k`-th power of
/// two; in particular a `u32` value's `log2_floor` is at most 31, so the mip
/// count fits a `u32`.
proof fn lemma_log2_floor_below_pow(n: nat, k: nat)
    requires
        k >= 1,
        n < vstd::arithmetic::power2::pow2(k),
    ensures
        log2_floor(n) <= k - 1,
    decreases k,
{
    vstd::arithmetic::power2::lemma_pow2_unfold(k);
    vstd::arithmetic::power2::lemma2_to64();
    if n > 1 && k > 1 {
        lemma_log2_floor_below_pow(n / 2, (k - 1) as nat);
    }
}

/// A 2D texture resource: one GPU texture whose storage lives in the
/// context, with its dimensions, element layout and mip-chain length fixed
/// at creation.
#[derive(Clone, Copy, Debug, PartialEq, Eq, Structural)]
pub struct Texture2D {
    pub id: usize,
    pub width: u32,
    pub height: u32,
    pub number_of_mip_maps: u32,
    pub element_type: ElementType,
}

impl Texture2D {
    /// The resource names a storage of the context and mirrors its
    /// dimensions, layout and mip count.
    pub open spec fn valid(self, ctx: Context) -> bool {
        &&& self.id < ctx.textures@.len()
        &&& ctx.textures@[self.id as int].width == self.width
        &&& ctx.textures@[self.id as int].height == self.height
        &&& ctx.textures@[self.id as int].element_type == self.element_type
        &&& ctx.textures@[self.id as int].mip_count == self.number_of_mip_maps
    }

    /// The number of channel values an upload or full readback must have.
    pub open spec fn spec_expected_len(self) -> int {
        self.width * self.height * self.element_type.spec_channels()
    }

    /// Constructs a new empty 2D texture. The internal format follows from
    /// `element_type`; the mip-chain length follows from the requested mip
    /// filter and the dimensions and is never recomputed. When the chain
    /// has length 1 the mip filter is ignored for sampling purposes. Fails
    /// with a context-level error if allocation fails or the driver
    /// reported an error.
    pub fn new_empty(
        ctx: &mut Context,
        width: u32,
        height: u32,
        min_filter: Interpolation,
        mag_filter: Interpolation,
        mip_map_filter: Option<Interpolation>,
        wrap_s: Wrapping,
        wrap_t: Wrapping,
        element_type: ElementType,
    ) -> (r: Result<Texture2D, RendererError>)
        requires
            old(ctx).wf(),
        ensures
            final(ctx).wf(),
            match r {
                Ok(t) => {
                    &&& old(ctx).pending_error is None
                    &&& width * height * element_type.spec_channels() <= usize::MAX
                    &&& t.id == old(ctx).textures@.len()
                    &&& t.width == width
                    &&& t.height == height
                    &&& t.element_type == element_type
                    &&& t.number_of_mip_maps == spec_mip_count(
                        mip_map_filter is Some,
                        width,
                        height,
                    )
                    &&& t.valid(*final(ctx))
                    &&& final(ctx).textures@.len() == old(ctx).textures@.len() + 1
                    &&& forall|i: int|
                        0 <= i < old(ctx).textures@.len() ==> final(ctx).textures@[i] == old(ctx).textures@[i]
                    &&& final(ctx).textures@[t.id as int].data@ == Seq::<u32>::new(
                        (width * height * element_type.spec_channels()) as nat,
                        |i: int| 0u32,
                    )
                    &&& Context::same_but_textures(*old(ctx), *final(ctx))
                },
                Err(e) => {
                    &&& e is ContextError
                    &&& (width * height * element_type.spec_channels() > usize::MAX || old(ctx).pending_error is Some)
                    &&& final(ctx).pending_error is None
                    &&& final(ctx).textures@ == old(ctx).textures@ || (width * height
                        * element_type.spec_channels() <= usize::MAX && final(ctx).textures@.len()
                        == old(ctx).textures@.len() + 1)
                },
            },
    {
        let mips = number_of_mip_maps(mip_map_filter, width, height);
        let id = match ctx.allocate_texture(width, height, element_type, mips) {
            Ok(id) => id,
            Err(e) => {
                let check = ctx.error_check();
                return match check {
                    Ok(()) => Err(e),
                    Err(e2) => Err(e2),
                };
            },
        };
        match ctx.error_check() {
            Ok(()) => Ok(
                Texture2D { id, width, height, number_of_mip_maps: mips, element_type },
            ),
            Err(e) => Err(e),
        }
    }

    /// Constructs a new texture from a CPU-side texture descriptor,
    /// allocating storage per its element layout and uploading its payload.
    /// Succeeds exactly when the payload holds one value per channel of
    /// every pixel, the pixel count fits host memory, and the driver
    /// reported no error.
    pub fn new(ctx: &mut Context, cpu_texture: &CpuTexture) -> (r: Result<
        Texture2D,
        RendererError,
    >)
        requires
            old(ctx).wf(),
        ensures
            final(ctx).wf(),
            match r {
                Ok(t) => {
                    &&& cpu_texture.data.spec_len() == cpu_texture.width * cpu_texture.height
                        * cpu_texture.data.spec_element_type().spec_channels()
                    &&& cpu_texture.width * cpu_texture.height
                        * cpu_texture.data.spec_element_type().spec_channels() <= usize::MAX
                    &&& old(ctx).pending_error is None
                    &&& t.width == cpu_texture.width
                    &&& t.height == cpu_texture.height
                    &&& t.element_type == cpu_texture.data.spec_element_type()
                    &&& t.number_of_mip_maps == spec_mip_count(
                        cpu_texture.mip_map_filter is Some,
                        cpu_texture.width,
                        cpu_texture.height,
                    )
                    &&& t.valid(*final(ctx))
                    &&& final(ctx).textures@[t.id as int].data@
                        == cpu_texture.data.spec_channel_values()
                },
                Err(e) => match e {
                    RendererError::ResourceSizeMismatch { expected, actual } => {
                        &&& cpu_texture.width * cpu_texture.height
                            * cpu_texture.data.spec_element_type().spec_channels() <= usize::MAX
                        &&& old(ctx).pending_error is None
                        &&& cpu_texture.data.spec_len() != cpu_texture.width * cpu_texture.height
                            * cpu_texture.data.spec_element_type().spec_channels()
                        &&& expected == cpu_texture.width * cpu_texture.height
                            * cpu_texture.data.spec_element_type().spec_channels()
                        &&& actual == cpu_texture.data.spec_len()
                    },
                    RendererError::ContextError { .. } => {
                        cpu_texture.width * cpu_texture.height
                            * cpu_texture.data.spec_element_type().spec_channels() > usize::MAX
                            || old(ctx).pending_error is Some
                    },
                    _ => false,
                },
            },
    {
        Texture2D::new_with_data(ctx, cpu_texture)
    }

    fn new_with_data(ctx: &mut Context, cpu_texture: &CpuTexture) -> (r: Result<
        Texture2D,
        RendererError,
    >)
        requires
            old(ctx).wf(),
        ensures
            final(ctx).wf(),
            match r {
                Ok(t) => {
                    &&& cpu_texture.data.spec_len() == cpu_texture.width * cpu_texture.height
                        * cpu_texture.data.spec_element_type().spec_channels()
                    &&& cpu_texture.width * cpu_texture.height
                        * cpu_texture.data.spec_element_type().spec_channels() <= usize::MAX
                    &&& old(ctx).pending_error is None
                    &&& t.width == cpu_texture.width
                    &&& t.height == cpu_texture.height
                    &&& t.element_type == cpu_texture.data.spec_element_type()
                    &&& t.number_of_mip_maps == spec_mip_count(
                        cpu_texture.mip_map_filter is Some,
                        cpu_texture.width,
                        cpu_texture.height,
                    )
                    &&& t.valid(*final(ctx))
                    &&& final(ctx).textures@[t.id as int].data@
                        == cpu_texture.data.spec_channel_values()
                },
                Err(e) => match e {
                    RendererError::ResourceSizeMismatch { expected, actual } => {
                        &&& cpu_texture.width * cpu_texture.height
                            * cpu_texture.data.spec_element_type().spec_channels() <= usize::MAX
                        &&& old(ctx).pending_error is None
                        &&& cpu_texture.data.spec_len() != cpu_texture.width * cpu_texture.height
                            * cpu_texture.data.spec_element_type().spec_channels()
                        &&& expected == cpu_texture.width * cpu_texture.height
                            * cpu_texture.data.spec_element_type().spec_channels()
                        &&& actual == cpu_texture.data.spec_len()
                    },
                    RendererError::ContextError { .. } => {
                        cpu_texture.width * cpu_texture.height
                            * cpu_texture.data.spec_element_type().spec_channels() > usize::MAX
                            || old(ctx).pending_error is Some
                    },
                    _ => false,
                },
            },
    {
        let element_type = cpu_texture.data.element_type();
        let texture = match Texture2D::new_empty(
            ctx,
            cpu_texture.width,
            cpu_texture.height,
            cpu_texture.min_filter,
            cpu_texture.mag_filter,
            cpu_texture.mip_map_filter,
            cpu_texture.wrap_s,
            cpu_texture.wrap_t,
            element_type,
        ) {
            Ok(t) => t,
            Err(e) => {
                return Err(e);
            },
        };
        match texture.fill(ctx, &cpu_texture.data) {
            Ok(()) => Ok(texture),
            Err(e) => Err(e),
        }
    }

    /// Fills this texture with the given data, uploading it as a sub-image
    /// covering the full extent. Fails with a size mismatch, without
    /// touching the resource, unless the payload is for this resource's
    /// element layout and holds exactly `width * height * channels` values.
    pub fn fill(&self, ctx: &mut Context, data: &TextureData) -> (r: Result<(), RendererError>)
        requires
            old(ctx).wf(),
            self.valid(*old(ctx)),
        ensures
            final(ctx).wf(),
            self.valid(*final(ctx)),
            match r {
                Ok(()) => {
                    &&& data.spec_element_type() == self.element_type
                    &&& data.spec_len() == self.spec_expected_len()
                    &&& old(ctx).pending_error is None
                    &&& final(ctx).textures@[self.id as int].data@
                        == data.spec_channel_values()
                    &&& final(ctx).textures@.len() == old(ctx).textures@.len()
                    &&& forall|t: int|
                        0 <= t < old(ctx).textures@.len() && t != self.id ==> final(ctx).textures@[t] == old(ctx).textures@[t]
                    &&& Context::same_but_textures(*old(ctx), *final(ctx))
                },
                Err(e) => match e {
                    RendererError::ResourceSizeMismatch { expected, actual } => {
                        &&& !(data.spec_element_type() == self.element_type
                            && data.spec_len() == self.spec_expected_len())
                        &&& expected == self.spec_expected_len()
                        &&& actual == data.spec_len()
                        &&& *final(ctx) == *old(ctx)
                    },
                    RendererError::ContextError { .. } => {
                        &&& data.spec_element_type() == self.element_type
                        &&& data.spec_len() == self.spec_expected_len()
                        &&& old(ctx).pending_error is Some
                        &&& final(ctx).pending_error is None
                        &&& final(ctx).textures@[self.id as int].data@
                            == data.spec_channel_values()
                    },
                    _ => false,
                },
            },
    {
        let expected = ctx.textures[self.id].data.len();
        proof {
            assert(expected == self.spec_expected_len());
        }
        let matching = data.element_type() == self.element_type;
        let actual = data.len();
        if !matching || actual != expected {
            return Err(RendererError::ResourceSizeMismatch { expected, actual });
        }
        let values = data.channel_values();
        ctx.upload_texture_data(self.id, values);
        ctx.error_check()
    }

    /// Renders whatever the callback draws into this texture: builds a
    /// transient render target with this texture as the sole color
    /// attachment and no depth attachment, clears it per `clear_state`,
    /// runs the callback, and restores the previous framebuffer binding
    /// unconditionally — also when the callback fails. Depth-testing state
    /// is meaningless here since no depth attachment exists; use a render
    /// target with both attachments for combined color and depth writes.
    pub fn write<F: FnOnce(Context) -> (Context, Result<(), RendererError>)>(
        &self,
        ctx: Context,
        clear_state: &ClearState,
        render: F,
    ) -> (r: (Context, Result<(), RendererError>))
        requires
            ctx.wf(),
            self.valid(ctx),
            forall|c: Context| #[trigger] call_requires(render, (c,)),
        ensures
            r.0.bound_framebuffer == ctx.bound_framebuffer,
            crate::rendertarget::spec_write_post(
                seq![self.id],
                None,
                ctx,
                *clear_state,
                render,
                r.0,
                r.1,
            ),
    {
        crate::rendertarget::RenderTarget::new_color(self).write(ctx, clear_state, render)
    }

    /// Reads back the channel values of this texture's pixels inside
    /// `viewport`, through a transient single-color-attachment target:
    /// exactly `viewport.width * viewport.height * channels` values, or a
    /// size-mismatch failure when the viewport does not lie within the
    /// texture.
    pub fn read(&self, ctx: &Context, viewport: Viewport) -> (r: Result<Vec<u32>, RendererError>)
        requires
            ctx.wf(),
            self.valid(*ctx),
        ensures
            match r {
                Ok(values) => {
                    let ch = self.element_type.spec_channels();
                    &&& viewport.spec_inside(self.width, self.height)
                    &&& values@.len() == viewport.width * viewport.height * ch
                    &&& forall|row: int, col: int, c: int|
                        0 <= row < viewport.height && 0 <= col < viewport.width && 0 <= c < ch
                            ==> values@[#[trigger] crate::context::pixel_index(
                            viewport.width as int,
                            ch as int,
                            row,
                            col,
                            c,
                        )] == ctx.textures@[self.id as int].data@[crate::context::pixel_index(
                            self.width as int,
                            ch as int,
                            viewport.y + row,
                            viewport.x + col,
                            c,
                        )]
                },
                Err(e) => {
                    &&& !viewport.spec_inside(self.width, self.height)
                    &&& e is ResourceSizeMismatch
                },
            },
    {
        crate::rendertarget::RenderTarget::new_color(self).read_color(ctx, viewport)
    }

    /// The width of this texture.
    pub fn width(&self) -> (r: u32)
        ensures
            r == self.width,
    {
        self.width
    }

    /// The height of this texture.
    pub fn height(&self) -> (r: u32)
        ensures
            r == self.height,
    {
        self.height
    }

    /// The mip-chain length of this texture, fixed at creation.
    pub fn mip_count(&self) -> (r: u32)
        ensures
            r == self.number_of_mip_maps,
    {
        self.number_of_mip_maps
    }
}

/// A color format a render-target texture is requested with.
#[derive(Clone, Copy, Debug, PartialEq, Eq, Structural)]
pub enum Format {
    R,
    Rg,
    Rgb,
    Rgba,
}

impl Format {
    pub open spec fn spec_color_channel_count(self) -> nat {
        match self {
            Format::R => 1,
            Format::Rg => 2,
            Format::Rgb => 3,
            Format::Rgba => 4,
        }
    }

    pub fn color_channel_count(self) -> (r: u32)
        ensures
            r == self.spec_color_channel_count(),
    {
        match self {
            Format::R => 1,
            Format::Rg => 2,
            Format::Rgb => 3,
            Format::Rgba => 4,
        }
    }
}

/// A 2D color texture that can be rendered into and read from; a thin layer
/// over [`Texture2D`] kept for callers that pass an explicit format.
#[derive(Clone, Copy, Debug, PartialEq, Eq, Structural)]
pub struct ColorTargetTexture2D {
    pub tex: Texture2D,
}

impl ColorTargetTexture2D {
    /// Constructs a new 2D color target texture. The element layout decides
    /// the stored format; a single-channel layout together with a
    /// multi-channel format is contradictory and excluded.
    pub fn new(
        ctx: &mut Context,
        width: u32,
        height: u32,
        min_filter: Interpolation,
        mag_filter: Interpolation,
        mip_map_filter: Option<Interpolation>,
        wrap_s: Wrapping,
        wrap_t: Wrapping,
        format: Format,
        element_type: ElementType,
    ) -> (r: Result<ColorTargetTexture2D, RendererError>)
        requires
            old(ctx).wf(),
            !(element_type.spec_channels() == 1 && format.spec_color_channel_count() > 1),
        ensures
            final(ctx).wf(),
            match r {
                Ok(t) => {
                    &&& old(ctx).pending_error is None
                    &&& width * height * element_type.spec_channels() <= usize::MAX
                    &&& t.tex.width == width
                    &&& t.tex.height == height
                    &&& t.tex.element_type == element_type
                    &&& t.tex.number_of_mip_maps == spec_mip_count(
                        mip_map_filter is Some,
                        width,
                        height,
                    )
                    &&& t.tex.valid(*final(ctx))
                    &&& final(ctx).textures@[t.tex.id as int].data@ == Seq::<u32>::new(
                        (width * height * element_type.spec_channels()) as nat,
                        |i: int| 0u32,
                    )
                },
                Err(e) => {
                    &&& e is ContextError
                    &&& (width * height * element_type.spec_channels() > usize::MAX || old(
                        ctx,
                    ).pending_error is Some)
                },
            },
    {
        match Texture2D::new_empty(
            ctx,
            width,
            height,
            min_filter,
            mag_filter,
            mip_map_filter,
            wrap_s,
            wrap_t,
            element_type,
        ) {
            Ok(tex) => Ok(ColorTargetTexture2D { tex }),
            Err(e) => Err(e),
        }
    }

    /// The underlying texture resource.
    pub fn texture(&self) -> (r: &Texture2D)
        ensures
            r == self.tex,
    {
        &self.tex
    }
}

} // verus!
