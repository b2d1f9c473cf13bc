//! Scoped render-target bindings: a set of color attachments and an
//! optional depth attachment bound for the duration of one render callback,
//! with the previous binding restored unconditionally on exit — also when
//! the callback fails.

use vstd::prelude::*;

use crate::context::BindingModel;
use crate::context::ClearState;
use crate::context::Context;
use crate::context::FramebufferBinding;
use crate::context::Viewport;
use crate::context::pixel_index;
use crate::context::spec_cleared_color;
use crate::context::spec_cleared_depth;
use crate::error::RendererError;
use crate::texture::Texture2D;

verus! {

/// A render target: the texture handles draws write into. Exists only for
/// the duration of one scoped write or read call.
#[derive(Clone, Debug, PartialEq)]
pub struct RenderTarget {
    pub colors: Vec<usize>,
    pub depth: Option<usize>,
}

/// All attachments name distinct storages of the context.
pub open spec fn spec_target_valid(colors: Seq<usize>, depth: Option<usize>, ctx: Context) -> bool {
    &&& forall|k: int| 0 <= k < colors.len() ==> #[trigger] colors[k] < ctx.textures@.len()
    &&& forall|k1: int, k2: int|
        0 <= k1 < k2 < colors.len() ==> #[trigger] colors[k1] != #[trigger] colors[k2]
    &&& match depth {
        Some(d) => d < ctx.textures@.len() && forall|k: int|
            0 <= k < colors.len() ==> #[trigger] colors[k] != d,
        None => true,
    }
}

/// `mid` is `pre` with the given attachments bound as the framebuffer and
/// their storages cleared per `clear`; everything else is unchanged.
pub open spec fn spec_bound_and_cleared(
    colors: Seq<usize>,
    depth: Option<usize>,
    pre: Context,
    clear: ClearState,
    mid: Context,
) -> bool {
    &&& mid.bound_framebuffer.model() == (BindingModel::Attachments { colors, depth })
    &&& mid.textures@.len() == pre.textures@.len()
    &&& forall|t: int|
        0 <= t < pre.textures@.len() && !colors.contains(t as usize) && Some(t as usize) != depth
            ==> mid.textures@[t] == pre.textures@[t]
    &&& forall|k: int|
        0 <= k < colors.len() ==> {
            let t = #[trigger] colors[k] as int;
            &&& mid.textures@[t].width == pre.textures@[t].width
            &&& mid.textures@[t].height == pre.textures@[t].height
            &&& mid.textures@[t].element_type == pre.textures@[t].element_type
            &&& mid.textures@[t].mip_count == pre.textures@[t].mip_count
            &&& spec_cleared_color(
                pre.textures@[t].data@,
                mid.textures@[t].data@,
                pre.textures@[t].element_type.spec_channels(),
                clear,
            )
        }
    &&& match depth {
        Some(d) => {
            &&& mid.textures@[d as int].width == pre.textures@[d as int].width
            &&& mid.textures@[d as int].height == pre.textures@[d as int].height
            &&& mid.textures@[d as int].element_type == pre.textures@[d as int].element_type
            &&& mid.textures@[d as int].mip_count == pre.textures@[d as int].mip_count
            &&& spec_cleared_depth(
                pre.textures@[d as int].data@,
                mid.textures@[d as int].data@,
                clear.depth,
            )
        },
        None => true,
    }
    &&& mid.programs == pre.programs
    &&& mid.cache == pre.cache
    &&& mid.bindings == pre.bindings
    &&& mid.draws == pre.draws
    &&& mid.compile_diagnostic == pre.compile_diagnostic
    &&& mid.pending_error == pre.pending_error
    &&& mid.wf()
}

/// What a scoped write leaves behind: some context `mid` was built from
/// `pre` by binding and clearing the attachments, the callback took `mid`
/// to `out` with result `res`, and the returned context is `out` with the
/// incoming framebuffer binding restored.
pub open spec fn spec_write_post<F: FnOnce(Context) -> (Context, Result<(), RendererError>)>(
    colors: Seq<usize>,
    depth: Option<usize>,
    pre: Context,
    clear: ClearState,
    render: F,
    out_ctx: Context,
    res: Result<(), RendererError>,
) -> bool {
    exists|mid: Context, out: Context|
        {
            &&& spec_bound_and_cleared(colors, depth, pre, clear, mid)
            &&& #[trigger] call_ensures(render, (mid,), (out, res))
            &&& spec_same_except_binding(out, out_ctx)
        }
}

/// `a` and `b` agree on every field but the framebuffer binding.
pub open spec fn spec_same_except_binding(a: Context, b: Context) -> bool {
    &&& b.textures == a.textures
    &&& b.programs == a.programs
    &&& b.cache == a.cache
    &&& b.bindings == a.bindings
    &&& b.draws == a.draws
    &&& b.compile_diagnostic == a.compile_diagnostic
    &&& b.pending_error == a.pending_error
}

fn copy_ids(v: &Vec<usize>) -> (r: Vec<usize>)
    ensures
        r@ == v@,
{
    let mut r: Vec<usize> = Vec::new();
    let mut i: usize = 0;
    while i < v.len()
        invariant
            i <= v.len(),
            r@ == v@.subrange(0, i as int),
        decreases v.len() - i,
    {
        r.push(v[i]);
        i = i + 1;
        proof {
            assert(v@.subrange(0, i as int) =~= v@.subrange(0, i - 1).push(v@[i - 1]));
        }
    }
    proof {
        assert(v@.subrange(0, v@.len() as int) =~= v@);
    }
    r
}

impl RenderTarget {
    /// All attachments name distinct storages of the context.
    pub open spec fn valid(self, ctx: Context) -> bool {
        spec_target_valid(self.colors@, self.depth, ctx)
    }

    /// A render target over the given color attachments and optional depth
    /// attachment.
    pub fn new(colors: Vec<usize>, depth: Option<usize>) -> (r: RenderTarget)
        ensures
            r.colors@ == colors@,
            r.depth == depth,
    {
        RenderTarget { colors, depth }
    }

    /// A render target with one texture as the sole color attachment and no
    /// depth attachment.
    pub fn new_color(color: &Texture2D) -> (r: RenderTarget)
        ensures
            r.colors@ == seq![color.id],
            r.depth is None,
    {
        let mut colors: Vec<usize> = Vec::new();
        colors.push(color.id);
        proof {
            assert(colors@ =~= seq![color.id]);
        }
        RenderTarget { colors, depth: None }
    }

    /// Binds this target's attachments, clears them per `clear_state`, runs
    /// `render`, and restores the framebuffer binding that was active
    /// before the call — unconditionally, also when the callback fails: the
    /// returned context's binding is always the incoming one.
    pub fn write<F: FnOnce(Context) -> (Context, Result<(), RendererError>)>(
        &self,
        ctx: Context,
        clear_state: &ClearState,
        render: F,
    ) -> (r: (Context, Result<(), RendererError>))
        requires
            ctx.wf(),
            self.valid(ctx),
            forall|c: Context| #[trigger] call_requires(render, (c,)),
        ensures
            r.0.bound_framebuffer == ctx.bound_framebuffer,
            spec_write_post(self.colors@, self.depth, ctx, *clear_state, render, r.0, r.1),
    {
        let ghost pre = ctx;
        let mut ctx = ctx;
        let cs = copy_ids(&self.colors);
        let mut previous = FramebufferBinding::Attachments { colors: cs, depth: self.depth };
        core::mem::swap(&mut ctx.bound_framebuffer, &mut previous);
        ctx.clear_attachments(&self.colors, self.depth, clear_state);
        let ghost mid = ctx;
        let (out, res) = render(ctx);
        let mut out = out;
        let ghost out0 = out;
        out.bound_framebuffer = previous;
        proof {
            assert(spec_bound_and_cleared(self.colors@, self.depth, pre, *clear_state, mid));
            assert(call_ensures(render, (mid,), (out0, res)));
            assert(spec_same_except_binding(out0, out));
            assert(spec_write_post(
                self.colors@,
                self.depth,
                pre,
                *clear_state,
                render,
                out,
                res,
            ));
        }
        (out, res)
    }

    /// Reads back the pixels of the first color attachment inside
    /// `viewport`: exactly `viewport.width * viewport.height * channels`
    /// channel values, or a size-mismatch failure when the viewport does
    /// not lie within the attachment.
    pub fn read_color(&self, ctx: &Context, viewport: Viewport) -> (r: Result<
        Vec<u32>,
        RendererError,
    >)
        requires
            ctx.wf(),
            self.valid(*ctx),
            self.colors@.len() >= 1,
        ensures
            match r {
                Ok(values) => {
                    let t = self.colors@[0] as int;
                    let ch = ctx.textures@[t].element_type.spec_channels();
                    &&& viewport.spec_inside(ctx.textures@[t].width, ctx.textures@[t].height)
                    &&& values@.len() == viewport.width * viewport.height * ch
                    &&& forall|row: int, col: int, c: int|
                        0 <= row < viewport.height && 0 <= col < viewport.width && 0 <= c < ch
                            ==> values@[#[trigger] pixel_index(
                            viewport.width as int,
                            ch as int,
                            row,
                            col,
                            c,
                        )] == ctx.textures@[t].data@[pixel_index(
                            ctx.textures@[t].width as int,
                            ch as int,
                            viewport.y + row,
                            viewport.x + col,
                            c,
                        )]
                },
                Err(e) => {
                    let t = self.colors@[0] as int;
                    let ch = ctx.textures@[t].element_type.spec_channels();
                    &&& !viewport.spec_inside(ctx.textures@[t].width, ctx.textures@[t].height)
                    &&& e matches RendererError::ResourceSizeMismatch { expected, actual }
                        && expected == ctx.textures@[t].data@.len() && actual == (
                    if viewport.width * viewport.height * ch > usize::MAX {
                        usize::MAX as int
                    } else {
                        viewport.width * viewport.height * ch
                    })
                },
            },
    {
        let id = self.colors[0];
        let st_width = ctx.textures[id].width;
        let st_height = ctx.textures[id].height;
        if !viewport.inside(st_width, st_height) {
            let expected = ctx.textures[id].data.len();
            let actual = requested_element_count(
                viewport,
                ctx.textures[id].element_type.channels(),
            );
            return Err(RendererError::ResourceSizeMismatch { expected, actual });
        }
        Ok(ctx.read_texture_rect(id, viewport))
    }

    /// Reads back the values of the depth attachment inside `viewport`:
    /// exactly `viewport.width * viewport.height * channels` channel
    /// values, or a size-mismatch failure when the viewport does not lie
    /// within the attachment.
    pub fn read_depth(&self, ctx: &Context, viewport: Viewport) -> (r: Result<
        Vec<u32>,
        RendererError,
    >)
        requires
            ctx.wf(),
            self.valid(*ctx),
            self.depth is Some,
        ensures
            match r {
                Ok(values) => {
                    let t = self.depth->Some_0 as int;
                    let ch = ctx.textures@[t].element_type.spec_channels();
                    &&& viewport.spec_inside(ctx.textures@[t].width, ctx.textures@[t].height)
                    &&& values@.len() == viewport.width * viewport.height * ch
                    &&& forall|row: int, col: int, c: int|
                        0 <= row < viewport.height && 0 <= col < viewport.width && 0 <= c < ch
                            ==> values@[#[trigger] pixel_index(
                            viewport.width as int,
                            ch as int,
                            row,
                            col,
                            c,
                        )] == ctx.textures@[t].data@[pixel_index(
                            ctx.textures@[t].width as int,
                            ch as int,
                            viewport.y + row,
                            viewport.x + col,
                            c,
                        )]
                },
                Err(e) => {
                    let t = self.depth->Some_0 as int;
                    let ch = ctx.textures@[t].element_type.spec_channels();
                    &&& !viewport.spec_inside(ctx.textures@[t].width, ctx.textures@[t].height)
                    &&& e matches RendererError::ResourceSizeMismatch { expected, actual }
                        && expected == ctx.textures@[t].data@.len() && actual == (
                    if viewport.width * viewport.height * ch > usize::MAX {
                        usize::MAX as int
                    } else {
                        viewport.width * viewport.height * ch
                    })
                },
            },
    {
        let id = match self.depth {
            Option::Some(d) => d,
            Option::None => vstd::pervasive::unreached(),
        };
        let st_width = ctx.textures[id].width;
        let st_height = ctx.textures[id].height;
        if !viewport.inside(st_width, st_height) {
            let expected = ctx.textures[id].data.len();
            let actual = requested_element_count(
                viewport,
                ctx.textures[id].element_type.channels(),
            );
            return Err(RendererError::ResourceSizeMismatch { expected, actual });
        }
        Ok(ctx.read_texture_rect(id, viewport))
    }
}

/// The number of channel values a readback over `viewport` asks for,
/// saturated at the largest host length.
fn requested_element_count(viewport: Viewport, channels: u32) -> (r: usize)
    requires
        1 <= channels <= 4,
    ensures
        r == (if viewport.width * viewport.height * channels > usize::MAX {
            usize::MAX as int
        } else {
            viewport.width * viewport.height * channels
        }),
{
    let width = viewport.width;
    let height = viewport.height;
    proof {
        assert((width as int) * (height as int) <= 0xffffffff * 0xffffffff) by (nonlinear_arith)
            requires
                width <= 0xffffffff,
                height <= 0xffffffff,
        ;
        assert((width as int) * (height as int) * (channels as int) <= 0xffffffff * 0xffffffff
            * 4) by (nonlinear_arith)
            requires
                width <= 0xffffffff,
                height <= 0xffffffff,
                channels <= 4,
        ;
    }
    let requested: u128 = (width as u128) * (height as u128) * (channels as u128);
    if requested > usize::MAX as u128 {
        usize::MAX
    } else {
        requested as usize
    }
}

} // verus!
