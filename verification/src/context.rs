//! A plain-value model of the GPU driver state the core drives: texture
//! storages, compiled programs and their cache, the framebuffer binding,
//! recorded uniform/texture bindings, and the issued draws.
//!
//! Every operation of the core is a verified transition on this state; a
//! host layer mirrors the transitions onto a real driver, on the one thread
//! that owns it.

use vstd::prelude::*;

use crate::error::RendererError;
use crate::shader::PassKind;
use crate::shader::SourceKey;
use crate::shader::compose_fragment_source;
use crate::shader::compose_vertex_source;
use crate::shader::key_eqv;
use crate::shader::spec_compose;
use crate::shader::spec_vertex_source;
use crate::texture::ElementType;

verus! {

/// The rectangular pixel region a render or read operation targets.
#[derive(Clone, Copy, Debug, PartialEq, Eq, Structural)]
pub struct Viewport {
    pub x: i32,
    pub y: i32,
    pub width: u32,
    pub height: u32,
}

impl Viewport {
    /// Whether the region lies within a `width` x `height` resource.
    pub open spec fn spec_inside(self, width: u32, height: u32) -> bool {
        &&& self.x >= 0
        &&& self.y >= 0
        &&& self.x + self.width <= width
        &&& self.y + self.height <= height
    }

    pub fn inside(&self, width: u32, height: u32) -> (r: bool)
        ensures
            r == self.spec_inside(width, height),
    {
        self.x >= 0 && self.y >= 0 && (self.x as i64 + self.width as i64) <= width as i64 && (
        self.y as i64 + self.height as i64) <= height as i64
    }
}

/// Blending applied when a draw writes a color attachment.
#[derive(Clone, Copy, Debug, PartialEq, Eq, Structural)]
pub enum Blend {
    Disabled,
    Transparency,
}

/// Which triangle faces a draw culls.
#[derive(Clone, Copy, Debug, PartialEq, Eq, Structural)]
pub enum Cull {
    Disabled,
    Back,
    Front,
    FrontAndBack,
}

/// The depth comparison a draw tests fragments with.
#[derive(Clone, Copy, Debug, PartialEq, Eq, Structural)]
pub enum DepthTest {
    Less,
    LessOrEqual,
    Always,
}

/// Which channels a draw may write.
#[derive(Clone, Copy, Debug, PartialEq, Eq, Structural)]
pub struct WriteMask {
    pub red: bool,
    pub green: bool,
    pub blue: bool,
    pub alpha: bool,
    pub depth: bool,
}

impl WriteMask {
    /// All channels writable.
    pub fn all() -> (r: WriteMask)
        ensures
            r == (WriteMask { red: true, green: true, blue: true, alpha: true, depth: true }),
    {
        WriteMask { red: true, green: true, blue: true, alpha: true, depth: true }
    }

    /// Only the color channels writable.
    pub fn color_only() -> (r: WriteMask)
        ensures
            r == (WriteMask { red: true, green: true, blue: true, alpha: true, depth: false }),
    {
        WriteMask { red: true, green: true, blue: true, alpha: true, depth: false }
    }

    /// Only the depth channel writable.
    pub fn depth_only() -> (r: WriteMask)
        ensures
            r == (WriteMask { red: false, green: false, blue: false, alpha: false, depth: true }),
    {
        WriteMask { red: false, green: false, blue: false, alpha: false, depth: true }
    }
}

/// The blend/cull/depth/write-mask state a draw is issued under.
#[derive(Clone, Copy, Debug, PartialEq, Eq, Structural)]
pub struct RenderStates {
    pub blend: Blend,
    pub cull: Cull,
    pub depth_test: DepthTest,
    pub write_mask: WriteMask,
}

impl RenderStates {
    /// The default state: no blending, no culling, less-than depth test, all
    /// channels writable.
    pub fn opaque() -> (r: RenderStates)
        ensures
            r == (RenderStates {
                blend: Blend::Disabled,
                cull: Cull::Disabled,
                depth_test: DepthTest::Less,
                write_mask: WriteMask { red: true, green: true, blue: true, alpha: true, depth: true },
            }),
    {
        RenderStates {
            blend: Blend::Disabled,
            cull: Cull::Disabled,
            depth_test: DepthTest::Less,
            write_mask: WriteMask::all(),
        }
    }
}

/// What a render pass clears before its callback runs: each color channel
/// (as a widened channel value) and the depth value, independently optional.
#[derive(Clone, Copy, Debug)]
pub struct ClearState {
    pub red: Option<u32>,
    pub green: Option<u32>,
    pub blue: Option<u32>,
    pub alpha: Option<u32>,
    pub depth: Option<u32>,
}

impl ClearState {
    /// Clears nothing.
    pub fn none() -> (r: ClearState)
        ensures
            r.red is None && r.green is None && r.blue is None && r.alpha is None
                && r.depth is None,
    {
        ClearState { red: None, green: None, blue: None, alpha: None, depth: None }
    }

    /// Clears all four color channels, not depth.
    pub fn color(red: u32, green: u32, blue: u32, alpha: u32) -> (r: ClearState)
        ensures
            r.red == Some(red) && r.green == Some(green) && r.blue == Some(blue) && r.alpha
                == Some(alpha) && r.depth is None,
    {
        ClearState { red: Some(red), green: Some(green), blue: Some(blue), alpha: Some(alpha), depth: None }
    }

    /// Clears all four color channels and depth.
    pub fn color_and_depth(red: u32, green: u32, blue: u32, alpha: u32, depth: u32) -> (r:
        ClearState)
        ensures
            r.red == Some(red) && r.green == Some(green) && r.blue == Some(blue) && r.alpha
                == Some(alpha) && r.depth == Some(depth),
    {
        ClearState {
            red: Some(red),
            green: Some(green),
            blue: Some(blue),
            alpha: Some(alpha),
            depth: Some(depth),
        }
    }

    /// The clear value of color channel `c` (0 red, 1 green, 2 blue, 3
    /// alpha).
    pub open spec fn spec_channel(self, c: int) -> Option<u32> {
        if c == 0 {
            self.red
        } else if c == 1 {
            self.green
        } else if c == 2 {
            self.blue
        } else {
            self.alpha
        }
    }
}

/// The framebuffer binding draws are issued against: the default target (the
/// screen) or a set of texture attachments.
#[derive(Clone, Debug, PartialEq)]
pub enum FramebufferBinding {
    Screen,
    Attachments { colors: Vec<usize>, depth: Option<usize> },
}

/// The mathematical shape of a framebuffer binding.
#[verifier::ext_equal]
pub enum BindingModel {
    Screen,
    Attachments { colors: Seq<usize>, depth: Option<usize> },
}

impl FramebufferBinding {
    pub open spec fn model(self) -> BindingModel {
        match self {
            FramebufferBinding::Screen => BindingModel::Screen,
            FramebufferBinding::Attachments { colors, depth } => BindingModel::Attachments {
                colors: colors@,
                depth,
            },
        }
    }

    /// A structurally fresh copy with the same model.
    pub fn duplicate(&self) -> (r: FramebufferBinding)
        ensures
            r.model() == self.model(),
    {
        match self {
            FramebufferBinding::Screen => FramebufferBinding::Screen,
            FramebufferBinding::Attachments { colors, depth } => {
                let mut cs: Vec<usize> = Vec::new();
                let mut i: usize = 0;
                while i < colors.len()
                    invariant
                        i <= colors.len(),
                        cs@ == colors@.subrange(0, i as int),
                    decreases colors.len() - i,
                {
                    cs.push(colors[i]);
                    i = i + 1;
                    proof {
                        assert(colors@.subrange(0, i as int) =~= colors@.subrange(0, i - 1).push(
                            colors@[i - 1],
                        ));
                    }
                }
                proof {
                    assert(colors@.subrange(0, colors@.len() as int) =~= colors@);
                }
                FramebufferBinding::Attachments { colors: cs, depth: *depth }
            },
        }
    }
}

/// GPU-side storage of one texture: dimensions, element layout, mip-chain
/// length, and the stored channel values (widened to `u32`), row-major,
/// channels interleaved.
#[derive(Clone, Debug, PartialEq)]
pub struct TextureStorage {
    pub width: u32,
    pub height: u32,
    pub element_type: ElementType,
    pub mip_count: u32,
    pub data: Vec<u32>,
}

impl TextureStorage {
    /// Storage is well-formed when it holds exactly one value per channel of
    /// every pixel.
    pub open spec fn wf(self) -> bool {
        self.data@.len() == self.width * self.height * self.element_type.spec_channels()
    }
}

/// One compiled program: the two source strings it was compiled and linked
/// from. The handle of a program is its index in the context's program list.
#[derive(Clone, Debug, PartialEq)]
pub struct ProgramRecord {
    pub vertex_source: String,
    pub fragment_source: String,
}

/// What a binding record attaches under a name.
#[derive(Clone, Copy, Debug, PartialEq, Eq, Structural)]
pub enum BoundResource {
    /// A texture handle bound to a sampler name.
    Texture(usize),
    /// A uniform buffer handle bound to a block name.
    UniformBlock(usize),
    /// Three widened channel values bound to a vec3 uniform name.
    Vec3 { x: u32, y: u32, z: u32 },
    /// Four widened channel values bound to a vec4 uniform name.
    Vec4 { x: u32, y: u32, z: u32, w: u32 },
}

/// One per-draw resource binding: which program, under which declared name,
/// and what was attached.
#[derive(Clone, Debug, PartialEq)]
pub struct BindingRecord {
    pub program: usize,
    pub name: String,
    pub resource: BoundResource,
}

/// One issued draw: the program it ran, the framebuffer binding it targeted,
/// the render state and viewport it was issued under, and how many
/// instances it drew.
#[derive(Clone, Debug, PartialEq)]
pub struct DrawRecord {
    pub program: usize,
    pub target: FramebufferBinding,
    pub states: RenderStates,
    pub viewport: Viewport,
    pub instance_count: usize,
}

/// The key's five components, compared at the level of views.
pub open spec fn key_matches(
    k: SourceKey,
    body: Seq<char>,
    nd: int,
    ns: int,
    np: int,
    pass: PassKind,
) -> bool {
    &&& k.material_body@ == body
    &&& k.directional_count == nd
    &&& k.spot_count == ns
    &&& k.point_count == np
    &&& k.pass == pass
}

/// Whether the cache holds an entry for this combination of material body,
/// light counts and pass kind.
pub open spec fn spec_cache_has_combination(
    cache: Seq<(SourceKey, usize)>,
    body: Seq<char>,
    nd: int,
    ns: int,
    np: int,
    pass: PassKind,
) -> bool {
    exists|i: int|
        0 <= i < cache.len() && key_matches((#[trigger] cache[i]).0, body, nd, ns, np, pass)
}

/// The first cached handle for a key equal to `key`, if any.
pub open spec fn cache_lookup(cache: Seq<(SourceKey, usize)>, key: SourceKey) -> Option<usize>
    decreases cache.len(),
{
    if cache.len() == 0 {
        None
    } else if key_eqv(cache[0].0, key) {
        Some(cache[0].1)
    } else {
        cache_lookup(cache.drop_first(), key)
    }
}

/// The modelled driver state.
#[derive(Debug)]
pub struct Context {
    /// Texture storages, indexed by handle.
    pub textures: Vec<TextureStorage>,
    /// Compiled programs, indexed by handle.
    pub programs: Vec<ProgramRecord>,
    /// The program cache: source key to program handle, at most one entry
    /// per key.
    pub cache: Vec<(SourceKey, usize)>,
    /// The framebuffer binding draws currently target.
    pub bound_framebuffer: FramebufferBinding,
    /// Every uniform/texture binding recorded so far, in order.
    pub bindings: Vec<BindingRecord>,
    /// Every draw issued so far, in order.
    pub draws: Vec<DrawRecord>,
    /// When set, the next compilation fails with this diagnostic.
    pub compile_diagnostic: Option<String>,
    /// When set, the next post-call error check fails with this message.
    pub pending_error: Option<String>,
}

impl Context {
    /// Context validity: every cached handle names a program whose sources
    /// are exactly the composition of its key, the cache holds at most one
    /// entry per key, and every texture storage is well-formed. In
    /// particular the cache never holds two distinct programs for equal
    /// keys, and never reuses a program across unequal keys.
    pub open spec fn wf(self) -> bool {
        &&& forall|i: int|
            0 <= i < self.cache@.len() ==> (#[trigger] self.cache@[i]).1 < self.programs@.len()
        &&& forall|i: int, j: int|
            0 <= i < j < self.cache@.len() ==> !key_eqv(
                (#[trigger] self.cache@[i]).0,
                (#[trigger] self.cache@[j]).0,
            )
        &&& forall|i: int, j: int|
            0 <= i < j < self.cache@.len() ==> (#[trigger] self.cache@[i]).1
                != (#[trigger] self.cache@[j]).1
        &&& forall|i: int|
            0 <= i < self.cache@.len() ==> {
                let entry = #[trigger] self.cache@[i];
                &&& self.programs@[entry.1 as int].fragment_source@ == spec_compose(
                    entry.0.material_body@,
                    entry.0.directional_count as nat,
                    entry.0.spot_count as nat,
                    entry.0.point_count as nat,
                    entry.0.pass,
                )
                &&& self.programs@[entry.1 as int].vertex_source@ == spec_vertex_source(
                    entry.0.pass,
                )
            }
        &&& forall|i: int| 0 <= i < self.textures@.len() ==> (#[trigger] self.textures@[i]).wf()
    }

    /// A fresh context: nothing allocated, nothing cached, nothing drawn,
    /// the screen bound.
    pub fn new() -> (r: Context)
        ensures
            r.wf(),
            r.textures@.len() == 0,
            r.programs@.len() == 0,
            r.cache@.len() == 0,
            r.bound_framebuffer == FramebufferBinding::Screen,
            r.bindings@.len() == 0,
            r.draws@.len() == 0,
            r.compile_diagnostic is None,
            r.pending_error is None,
    {
        Context {
            textures: Vec::new(),
            programs: Vec::new(),
            cache: Vec::new(),
            bound_framebuffer: FramebufferBinding::Screen,
            bindings: Vec::new(),
            draws: Vec::new(),
            compile_diagnostic: None,
            pending_error: None,
        }
    }

    /// Arms the model so that the next compilation fails with `diagnostic`,
    /// standing for a driver that rejects a program.
    pub fn arm_compile_failure(&mut self, diagnostic: String)
        ensures
            *final(self) == (Context { compile_diagnostic: Some(diagnostic), ..*old(self) }),
    {
        self.compile_diagnostic = Some(diagnostic);
    }

    /// Arms the model so that the next post-call error check fails with
    /// `message`, standing for a driver-level failure.
    pub fn arm_context_error(&mut self, message: String)
        ensures
            *final(self) == (Context { pending_error: Some(message), ..*old(self) }),
    {
        self.pending_error = Some(message);
    }

    /// The post-call error check: fails with a context-level error exactly
    /// when the driver reported one, and consumes the report.
    pub fn error_check(&mut self) -> (r: Result<(), RendererError>)
        ensures
            *final(self) == (Context { pending_error: None, ..*old(self) }),
            match r {
                Ok(()) => old(self).pending_error is None,
                Err(e) => old(self).pending_error matches Some(m) && e matches
                    RendererError::ContextError { message } && message@ == m@,
            },
    {
        let r = match &self.pending_error {
            Option::None => Ok(()),
            Option::Some(m) => Err(RendererError::ContextError { message: m.clone() }),
        };
        self.pending_error = None;
        r
    }

    /// All fields except the texture list unchanged.
    pub open spec fn same_but_textures(pre: Context, post: Context) -> bool {
        &&& post.programs == pre.programs
        &&& post.cache == pre.cache
        &&& post.bound_framebuffer == pre.bound_framebuffer
        &&& post.bindings == pre.bindings
        &&& post.draws == pre.draws
        &&& post.compile_diagnostic == pre.compile_diagnostic
        &&& post.pending_error == pre.pending_error
    }

    /// All fields except programs and cache unchanged.
    pub open spec fn same_but_programs(pre: Context, post: Context) -> bool {
        &&& post.textures == pre.textures
        &&& post.bound_framebuffer == pre.bound_framebuffer
        &&& post.bindings == pre.bindings
        &&& post.draws == pre.draws
        &&& post.compile_diagnostic == pre.compile_diagnostic
        &&& post.pending_error == pre.pending_error
    }

    /// All fields except the binding records unchanged.
    pub open spec fn same_but_bindings(pre: Context, post: Context) -> bool {
        &&& post.textures == pre.textures
        &&& post.programs == pre.programs
        &&& post.cache == pre.cache
        &&& post.bound_framebuffer == pre.bound_framebuffer
        &&& post.draws == pre.draws
        &&& post.compile_diagnostic == pre.compile_diagnostic
        &&& post.pending_error == pre.pending_error
    }

    /// All fields except the draw records unchanged.
    pub open spec fn same_but_draws(pre: Context, post: Context) -> bool {
        &&& post.textures == pre.textures
        &&& post.programs == pre.programs
        &&& post.cache == pre.cache
        &&& post.bound_framebuffer == pre.bound_framebuffer
        &&& post.bindings == pre.bindings
        &&& post.compile_diagnostic == pre.compile_diagnostic
        &&& post.pending_error == pre.pending_error
    }

    /// Allocates immutable storage for a texture of the given size, layout
    /// and mip-chain length, zero-initialized, and returns its handle.
    /// Fails with a context-level error exactly when the pixel count does
    /// not fit host memory.
    pub fn allocate_texture(
        &mut self,
        width: u32,
        height: u32,
        element_type: ElementType,
        mip_count: u32,
    ) -> (r: Result<usize, RendererError>)
        requires
            old(self).wf(),
        ensures
            final(self).wf(),
            match r {
                Ok(id) => {
                    &&& width * height * element_type.spec_channels() <= usize::MAX
                    &&& id == old(self).textures@.len()
                    &&& final(self).textures@.len() == old(self).textures@.len() + 1
                    &&& forall|i: int|
                        0 <= i < old(self).textures@.len() ==> final(self).textures@[i] == old(self).textures@[i]
                    &&& final(self).textures@[id as int].width == width
                    &&& final(self).textures@[id as int].height == height
                    &&& final(self).textures@[id as int].element_type == element_type
                    &&& final(self).textures@[id as int].mip_count == mip_count
                    &&& final(self).textures@[id as int].data@ == Seq::<u32>::new(
                        (width * height * element_type.spec_channels()) as nat,
                        |i: int| 0u32,
                    )
                    &&& Context::same_but_textures(*old(self), *final(self))
                },
                Err(e) => {
                    &&& width * height * element_type.spec_channels() > usize::MAX
                    &&& e is ContextError
                    &&& *final(self) == *old(self)
                },
            },
    {
        let ch = element_type.channels();
        proof {
            assert((width as int) * (height as int) * (ch as int) <= 0xffffffff * 0xffffffff * 4)
                by (nonlinear_arith)
                requires
                    width <= 0xffffffff,
                    height <= 0xffffffff,
                    ch <= 4,
            ;
        }
        let total128: u128 = (width as u128) * (height as u128) * (ch as u128);
        if total128 > usize::MAX as u128 {
            return Err(
                RendererError::ContextError {
                    message: String::from_str("texture storage allocation failed"),
                },
            );
        }
        let total: usize = total128 as usize;
        let mut data: Vec<u32> = Vec::new();
        let mut i: usize = 0;
        while i < total
            invariant
                i <= total,
                data@.len() == i,
                forall|j: int| 0 <= j < i ==> data@[j] == 0u32,
            decreases total - i,
        {
            data.push(0u32);
            i = i + 1;
        }
        let id = self.textures.len();
        self.textures.push(
            TextureStorage { width, height, element_type, mip_count, data },
        );
        proof {
            assert(self.textures@[id as int].data@ =~= Seq::<u32>::new(
                (width * height * element_type.spec_channels()) as nat,
                |i: int| 0u32,
            ));
        }
        Ok(id)
    }
}

/// `cache_lookup` misses exactly when no entry's key is equal to `key`.
pub proof fn lemma_cache_lookup_none(cache: Seq<(SourceKey, usize)>, key: SourceKey)
    ensures
        (cache_lookup(cache, key) is None) <==> (forall|i: int|
            0 <= i < cache.len() ==> !key_eqv((#[trigger] cache[i]).0, key)),
    decreases cache.len(),
{
    if cache.len() > 0 {
        lemma_cache_lookup_none(cache.drop_first(), key);
        assert(forall|i: int|
            1 <= i < cache.len() ==> cache.drop_first()[i - 1] == #[trigger] cache[i]);
    }
}

/// `cache_lookup` finds the entry at `i` when it is the first whose key is
/// equal to `key`.
pub proof fn lemma_cache_lookup_found(cache: Seq<(SourceKey, usize)>, key: SourceKey, i: int)
    requires
        0 <= i < cache.len(),
        key_eqv(cache[i].0, key),
        forall|j: int| 0 <= j < i ==> !key_eqv((#[trigger] cache[j]).0, key),
    ensures
        cache_lookup(cache, key) == Some(cache[i].1),
    decreases cache.len(),
{
    if i > 0 {
        assert(forall|j: int|
            0 <= j < i - 1 ==> cache.drop_first()[j] == #[trigger] cache[j + 1]);
        lemma_cache_lookup_found(cache.drop_first(), key, i - 1);
    }
}

/// `cache_lookup` misses exactly when the cache holds no entry for the
/// key's combination of material body, light counts and pass kind.
pub proof fn lemma_lookup_matches_combination(cache: Seq<(SourceKey, usize)>, key: SourceKey)
    ensures
        (cache_lookup(cache, key) is None) <==> !spec_cache_has_combination(
            cache,
            key.material_body@,
            key.directional_count as int,
            key.spot_count as int,
            key.point_count as int,
            key.pass,
        ),
{
    lemma_cache_lookup_none(cache, key);
    assert(forall|i: int|
        0 <= i < cache.len() ==> (key_eqv((#[trigger] cache[i]).0, key) <==> key_matches(
            cache[i].0,
            key.material_body@,
            key.directional_count as int,
            key.spot_count as int,
            key.point_count as int,
            key.pass,
        )));
}

/// A hit names some entry whose key is equal to the one looked up.
pub proof fn lemma_cache_lookup_entry(cache: Seq<(SourceKey, usize)>, key: SourceKey)
    ensures
        match cache_lookup(cache, key) {
            Some(h) => exists|i: int|
                0 <= i < cache.len() && (#[trigger] cache[i]).1 == h && key_eqv(cache[i].0, key),
            None => true,
        },
    decreases cache.len(),
{
    if cache.len() > 0 && !key_eqv(cache[0].0, key) {
        lemma_cache_lookup_entry(cache.drop_first(), key);
        if cache_lookup(cache, key) is Some {
            let i = choose|i: int|
                0 <= i < cache.drop_first().len() && (#[trigger] cache.drop_first()[i]).1
                    == cache_lookup(cache, key)->Some_0 && key_eqv(cache.drop_first()[i].0, key);
            assert(cache[i + 1] == cache.drop_first()[i]);
        }
    }
}

/// In a well-formed context a cache hit hands back a program whose sources
/// are exactly the composition of the key looked up.
pub proof fn lemma_cache_lookup_sound(c: Context, key: SourceKey)
    requires
        c.wf(),
    ensures
        match cache_lookup(c.cache@, key) {
            Some(h) => {
                &&& h < c.programs@.len()
                &&& c.programs@[h as int].fragment_source@ == spec_compose(
                    key.material_body@,
                    key.directional_count as nat,
                    key.spot_count as nat,
                    key.point_count as nat,
                    key.pass,
                )
                &&& c.programs@[h as int].vertex_source@ == spec_vertex_source(key.pass)
            },
            None => true,
        },
{
    lemma_cache_lookup_entry(c.cache@, key);
}

/// A cache where a key missed, extended with an entry for that key, hits
/// for every equal key and returns the inserted handle. Together with the
/// contract of `Context::get_or_compile` this says that two calls with
/// equal keys invoke compilation exactly once and hand back the same
/// handle both times.
pub proof fn lemma_cache_hit_after_insert(
    cache: Seq<(SourceKey, usize)>,
    key1: SourceKey,
    key2: SourceKey,
    h: usize,
)
    requires
        cache_lookup(cache, key1) is None,
        key_eqv(key1, key2),
    ensures
        cache_lookup(cache.push((key1, h)), key2) == Some(h),
    decreases cache.len(),
{
    lemma_cache_lookup_none(cache, key1);
    if cache.len() == 0 {
        assert(cache.push((key1, h))[0] == (key1, h));
    } else {
        assert(cache.push((key1, h)).drop_first() =~= cache.drop_first().push((key1, h)));
        lemma_cache_lookup_none(cache.drop_first(), key1);
        lemma_cache_hit_after_insert(cache.drop_first(), key1, key2, h);
    }
}

impl Context {
    fn find_cached(&self, key: &SourceKey) -> (r: Option<usize>)
        ensures
            r == cache_lookup(self.cache@, *key),
    {
        let mut i: usize = 0;
        while i < self.cache.len()
            invariant
                i <= self.cache@.len(),
                forall|j: int| 0 <= j < i ==> !key_eqv((#[trigger] self.cache@[j]).0, *key),
            decreases self.cache@.len() - i,
        {
            if self.cache[i].0.key_eq(key) {
                proof {
                    lemma_cache_lookup_found(self.cache@, *key, i as int);
                }
                return Some(self.cache[i].1);
            }
            i = i + 1;
        }
        proof {
            lemma_cache_lookup_none(self.cache@, *key);
        }
        None
    }

    /// Returns the program for `key`, compiling it at most once per context
    /// lifetime: a key seen before returns the cached handle and changes
    /// nothing; an unseen key composes the vertex and fragment sources from
    /// the key, invokes compilation once, caches and returns the new
    /// handle. Compilation failure surfaces the raw diagnostic and caches
    /// nothing, so no state is partially bound.
    pub fn get_or_compile(&mut self, key: &SourceKey) -> (r: Result<usize, RendererError>)
        requires
            old(self).wf(),
        ensures
            final(self).wf(),
            match cache_lookup(old(self).cache@, *key) {
                Some(h) => r == Ok::<usize, RendererError>(h) && *final(self) == *old(self),
                None => {
                    match old(self).compile_diagnostic {
                        Some(d) => {
                            &&& r matches Err(e) && e matches RendererError::ShaderCompileError {
                                diagnostic,
                            } && diagnostic@ == d@
                            &&& *final(self) == *old(self)
                        },
                        None => {
                            &&& r == Ok::<usize, RendererError>(old(self).programs@.len() as usize)
                            &&& final(self).programs@.len() == old(self).programs@.len() + 1
                            &&& forall|i: int|
                                0 <= i < old(self).programs@.len() ==> final(self).programs@[i] == old(self).programs@[i]
                            &&& final(self).programs@.last().vertex_source@ == spec_vertex_source(
                                key.pass,
                            )
                            &&& final(self).programs@.last().fragment_source@ == spec_compose(
                                key.material_body@,
                                key.directional_count as nat,
                                key.spot_count as nat,
                                key.point_count as nat,
                                key.pass,
                            )
                            &&& final(self).cache@.len() == old(self).cache@.len() + 1
                            &&& forall|i: int|
                                0 <= i < old(self).cache@.len() ==> final(self).cache@[i] == old(self).cache@[i]
                            &&& key_eqv(final(self).cache@.last().0, *key)
                            &&& final(self).cache@.last().1 == old(self).programs@.len()
                            &&& Context::same_but_programs(*old(self), *final(self))
                        },
                    }
                },
            },
    {
        if let Some(h) = self.find_cached(key) {
            return Ok(h);
        }
        match &self.compile_diagnostic {
            Option::Some(d) => Err(RendererError::ShaderCompileError { diagnostic: d.clone() }),
            Option::None => {
                let vertex_source = compose_vertex_source(key.pass);
                let fragment_source = compose_fragment_source(
                    key.material_body.as_str(),
                    key.directional_count,
                    key.spot_count,
                    key.point_count,
                    key.pass,
                );
                let h = self.programs.len();
                self.programs.push(ProgramRecord { vertex_source, fragment_source });
                self.cache.push((key.duplicate(), h));
                proof {
                    lemma_cache_lookup_none(old(self).cache@, *key);
                    assert forall|i: int, j: int|
                        0 <= i < j < self.cache@.len() implies !key_eqv(
                        (#[trigger] self.cache@[i]).0,
                        (#[trigger] self.cache@[j]).0,
                    ) by {
                        if j == self.cache@.len() - 1 {
                            assert(!key_eqv(old(self).cache@[i].0, *key));
                        }
                    }
                }
                Ok(h)
            },
        }
    }

    /// Binds a texture handle to a sampler name of a program, recording the
    /// binding.
    pub fn use_texture(&mut self, program: usize, name: String, texture_id: usize) -> (r: Result<
        (),
        RendererError,
    >)
        requires
            program < old(self).programs@.len(),
            texture_id < old(self).textures@.len(),
        ensures
            r is Ok,
            final(self).bindings@ == old(self).bindings@.push(
                BindingRecord { program, name, resource: BoundResource::Texture(texture_id) },
            ),
            Context::same_but_bindings(*old(self), *final(self)),
    {
        self.bindings.push(
            BindingRecord { program, name, resource: BoundResource::Texture(texture_id) },
        );
        Ok(())
    }

    /// Binds a uniform buffer handle to a block name of a program,
    /// recording the binding.
    pub fn use_uniform_block(&mut self, program: usize, name: String, buffer_id: usize)
        requires
            program < old(self).programs@.len(),
        ensures
            final(self).bindings@ == old(self).bindings@.push(
                BindingRecord { program, name, resource: BoundResource::UniformBlock(buffer_id) },
            ),
            Context::same_but_bindings(*old(self), *final(self)),
    {
        self.bindings.push(
            BindingRecord { program, name, resource: BoundResource::UniformBlock(buffer_id) },
        );
    }

    /// Binds three widened channel values to a vec3 uniform name of a
    /// program, recording the binding.
    pub fn use_uniform_vec3(&mut self, program: usize, name: String, x: u32, y: u32, z: u32) -> (r:
        Result<(), RendererError>)
        requires
            program < old(self).programs@.len(),
        ensures
            r is Ok,
            final(self).bindings@ == old(self).bindings@.push(
                BindingRecord { program, name, resource: BoundResource::Vec3 { x, y, z } },
            ),
            Context::same_but_bindings(*old(self), *final(self)),
    {
        self.bindings.push(
            BindingRecord { program, name, resource: BoundResource::Vec3 { x, y, z } },
        );
        Ok(())
    }

    /// Binds four widened channel values to a vec4 uniform name of a
    /// program, recording the binding.
    pub fn use_uniform_vec4(
        &mut self,
        program: usize,
        name: String,
        x: u32,
        y: u32,
        z: u32,
        w: u32,
    ) -> (r: Result<(), RendererError>)
        requires
            program < old(self).programs@.len(),
        ensures
            r is Ok,
            final(self).bindings@ == old(self).bindings@.push(
                BindingRecord { program, name, resource: BoundResource::Vec4 { x, y, z, w } },
            ),
            Context::same_but_bindings(*old(self), *final(self)),
    {
        self.bindings.push(
            BindingRecord { program, name, resource: BoundResource::Vec4 { x, y, z, w } },
        );
        Ok(())
    }

    /// Issues a draw with the given program, state and viewport against the
    /// currently bound framebuffer, recording it.
    pub fn draw(
        &mut self,
        program: usize,
        states: RenderStates,
        viewport: Viewport,
        instance_count: usize,
    )
        requires
            program < old(self).programs@.len(),
        ensures
            final(self).draws@.len() == old(self).draws@.len() + 1,
            forall|i: int| 0 <= i < old(self).draws@.len() ==> final(self).draws@[i] == old(self).draws@[i],
            final(self).draws@.last().program == program,
            final(self).draws@.last().states == states,
            final(self).draws@.last().viewport == viewport,
            final(self).draws@.last().instance_count == instance_count,
            final(self).draws@.last().target.model() == old(self).bound_framebuffer.model(),
            Context::same_but_draws(*old(self), *final(self)),
    {
        let target = self.bound_framebuffer.duplicate();
        self.draws.push(DrawRecord { program, target, states, viewport, instance_count });
    }
}

/// Flat index of channel `c` of the pixel at column `col`, row `row` of a
/// row-major, channel-interleaved image that is `width` pixels wide with
/// `channels` channels.
pub open spec fn pixel_index(width: int, channels: int, row: int, col: int, c: int) -> int {
    (row * width + col) * channels + c
}

proof fn lemma_pixel_index_bound(w: int, h: int, ch: int, col: int, row: int, c: int)
    requires
        0 <= col < w,
        0 <= row < h,
        0 <= c < ch,
    ensures
        0 <= row * w + col < w * h,
        0 <= pixel_index(w, ch, row, col, c) < w * h * ch,
{
    assert(0 <= row * w + col < w * h && 0 <= (row * w + col) * ch + c < w * h * ch)
        by (nonlinear_arith)
        requires
            0 <= col < w,
            0 <= row < h,
            0 <= c < ch,
    ;
}

proof fn lemma_pixel_index_lt(
    w: int,
    ch: int,
    r1: int,
    c1: int,
    k1: int,
    r2: int,
    c2: int,
    k2: int,
)
    requires
        0 <= r1,
        0 <= c1 < w,
        0 <= k1 < ch,
        0 <= c2 < w,
        0 <= k2 < ch,
        (r1 < r2) || (r1 == r2 && c1 < c2) || (r1 == r2 && c1 == c2 && k1 < k2),
    ensures
        pixel_index(w, ch, r1, c1, k1) < pixel_index(w, ch, r2, c2, k2),
{
    assert((r1 * w + c1) * ch + k1 < (r2 * w + c2) * ch + k2) by (nonlinear_arith)
        requires
            0 <= r1,
            0 <= c1 < w,
            0 <= k1 < ch,
            0 <= c2 < w,
            0 <= k2 < ch,
            (r1 < r2) || (r1 == r2 && c1 < c2) || (r1 == r2 && c1 == c2 && k1 < k2),
    ;
}

/// `post` is `pre` with every color channel that `clear` sets overwritten
/// by the clear value: entry `i` belongs to channel `i % channels`, and is
/// replaced when `clear` holds a value for that channel, kept otherwise.
pub open spec fn spec_cleared_color(
    pre: Seq<u32>,
    post: Seq<u32>,
    channels: nat,
    clear: ClearState,
) -> bool {
    &&& post.len() == pre.len()
    &&& forall|i: int|
        0 <= i < pre.len() ==> post[i] == (match clear.spec_channel(i % (channels as int)) {
            Some(v) => v,
            None => pre[i],
        })
}

/// `post` is `pre` with every entry overwritten by the depth clear value if
/// one is set, `pre` unchanged otherwise.
pub open spec fn spec_cleared_depth(pre: Seq<u32>, post: Seq<u32>, depth: Option<u32>) -> bool {
    &&& post.len() == pre.len()
    &&& forall|i: int|
        0 <= i < pre.len() ==> post[i] == (match depth {
            Some(v) => v,
            None => pre[i],
        })
}

fn cleared_color_data(data: &Vec<u32>, channels: usize, clear: &ClearState) -> (r: Vec<u32>)
    requires
        1 <= channels <= 4,
    ensures
        spec_cleared_color(data@, r@, channels as nat, *clear),
{
    let mut r: Vec<u32> = Vec::new();
    let mut i: usize = 0;
    let mut c: usize = 0;
    while i < data.len()
        invariant
            1 <= channels <= 4,
            i <= data@.len(),
            r@.len() == i,
            0 <= c < channels,
            c == i as int % channels as int,
            forall|j: int|
                0 <= j < i ==> r@[j] == (match clear.spec_channel(j % (channels as int)) {
                    Some(v) => v,
                    None => data@[j],
                }),
        decreases data@.len() - i,
    {
        let value = match c {
            0 => clear.red,
            1 => clear.green,
            2 => clear.blue,
            _ => clear.alpha,
        };
        match value {
            Option::Some(v) => r.push(v),
            Option::None => r.push(data[i]),
        }
        proof {
            vstd::arithmetic::div_mod::lemma_fundamental_div_mod(i as int, channels as int);
            assert(i as int + 1 == (i as int / channels as int) * (channels as int) + (c as int
                + 1)) by (nonlinear_arith)
                requires
                    i as int == (channels as int) * (i as int / channels as int) + c as int,
            ;
            if c + 1 < channels {
                vstd::arithmetic::div_mod::lemma_fundamental_div_mod_converse(
                    i as int + 1,
                    channels as int,
                    i as int / channels as int,
                    c as int + 1,
                );
            } else {
                assert(i as int + 1 == (i as int / channels as int + 1) * channels as int + 0)
                    by (nonlinear_arith)
                    requires
                        i as int == channels as int * (i as int / channels as int) + c,
                        c + 1 == channels,
                ;
                vstd::arithmetic::div_mod::lemma_fundamental_div_mod_converse(
                    i as int + 1,
                    channels as int,
                    i as int / channels as int + 1,
                    0,
                );
            }
        }
        i = i + 1;
        c = c + 1;
        if c == channels {
            c = 0;
        }
    }
    r
}

fn cleared_depth_data(data: &Vec<u32>, depth: Option<u32>) -> (r: Vec<u32>)
    ensures
        spec_cleared_depth(data@, r@, depth),
{
    let mut r: Vec<u32> = Vec::new();
    let mut i: usize = 0;
    while i < data.len()
        invariant
            i <= data@.len(),
            r@.len() == i,
            forall|j: int|
                0 <= j < i ==> r@[j] == (match depth {
                    Some(v) => v,
                    None => data@[j],
                }),
        decreases data@.len() - i,
    {
        match depth {
            Option::Some(v) => r.push(v),
            Option::None => r.push(data[i]),
        }
        i = i + 1;
    }
    r
}

impl Context {
    /// Replaces the stored channel values of texture `id`, keeping its
    /// dimensions, layout and mip count.
    fn replace_texture_data(&mut self, id: usize, new_data: Vec<u32>)
        requires
            id < old(self).textures@.len(),
        ensures
            final(self).textures@.len() == old(self).textures@.len(),
            forall|t: int|
                0 <= t < old(self).textures@.len() && t != id ==> final(self).textures@[t] == old(
                    self,
                ).textures@[t],
            final(self).textures@[id as int].width == old(self).textures@[id as int].width,
            final(self).textures@[id as int].height == old(self).textures@[id as int].height,
            final(self).textures@[id as int].element_type == old(self).textures@[
                id as int
            ].element_type,
            final(self).textures@[id as int].mip_count == old(self).textures@[id as int].mip_count,
            final(self).textures@[id as int].data@ == new_data@,
            Context::same_but_textures(*old(self), *final(self)),
    {
        let st = &self.textures[id];
        let replacement = TextureStorage {
            width: st.width,
            height: st.height,
            element_type: st.element_type,
            mip_count: st.mip_count,
            data: new_data,
        };
        self.textures.remove(id);
        self.textures.insert(id, replacement);
        proof {
            assert(forall|t: int|
                0 <= t < old(self).textures@.len() && t != id ==> final(self).textures@[t] == old(
                    self,
                ).textures@[t]);
        }
    }

    /// Uploads channel values as a sub-image covering the full extent of
    /// texture `id`.
    pub fn upload_texture_data(&mut self, id: usize, values: Vec<u32>)
        requires
            old(self).wf(),
            id < old(self).textures@.len(),
            values@.len() == old(self).textures@[id as int].data@.len(),
        ensures
            final(self).wf(),
            final(self).textures@.len() == old(self).textures@.len(),
            forall|t: int|
                0 <= t < old(self).textures@.len() && t != id ==> final(self).textures@[t] == old(
                    self,
                ).textures@[t],
            final(self).textures@[id as int].width == old(self).textures@[id as int].width,
            final(self).textures@[id as int].height == old(self).textures@[id as int].height,
            final(self).textures@[id as int].element_type == old(self).textures@[
                id as int
            ].element_type,
            final(self).textures@[id as int].mip_count == old(self).textures@[id as int].mip_count,
            final(self).textures@[id as int].data@ == values@,
            Context::same_but_textures(*old(self), *final(self)),
    {
        self.replace_texture_data(id, values);
    }

    /// Clears the attached color textures and the attached depth texture
    /// per the given clear state, one attachment at a time.
    pub fn clear_attachments(
        &mut self,
        colors: &Vec<usize>,
        depth: Option<usize>,
        clear: &ClearState,
    )
        requires
            old(self).wf(),
            forall|k: int| 0 <= k < colors@.len() ==> #[trigger] colors@[k] < old(self).textures@.len(),
            forall|k1: int, k2: int|
                0 <= k1 < k2 < colors@.len() ==> #[trigger] colors@[k1] != #[trigger] colors@[k2],
            match depth {
                Some(d) => d < old(self).textures@.len() && forall|k: int|
                    0 <= k < colors@.len() ==> #[trigger] colors@[k] != d,
                None => true,
            },
        ensures
            final(self).wf(),
            final(self).textures@.len() == old(self).textures@.len(),
            forall|t: int|
                0 <= t < old(self).textures@.len() && !colors@.contains(t as usize) && Some(
                    t as usize,
                ) != depth ==> final(self).textures@[t] == old(self).textures@[t],
            forall|k: int|
                0 <= k < colors@.len() ==> {
                    let t = #[trigger] colors@[k] as int;
                    &&& final(self).textures@[t].width == old(self).textures@[t].width
                    &&& final(self).textures@[t].height == old(self).textures@[t].height
                    &&& final(self).textures@[t].element_type == old(
                        self,
                    ).textures@[t].element_type
                    &&& final(self).textures@[t].mip_count == old(self).textures@[t].mip_count
                    &&& spec_cleared_color(
                        old(self).textures@[t].data@,
                        final(self).textures@[t].data@,
                        old(self).textures@[t].element_type.spec_channels(),
                        *clear,
                    )
                },
            match depth {
                Some(d) => {
                    &&& final(self).textures@[d as int].width == old(self).textures@[
                        d as int
                    ].width
                    &&& final(self).textures@[d as int].height == old(self).textures@[
                        d as int
                    ].height
                    &&& final(self).textures@[d as int].element_type == old(self).textures@[
                        d as int
                    ].element_type
                    &&& final(self).textures@[d as int].mip_count == old(self).textures@[
                        d as int
                    ].mip_count
                    &&& spec_cleared_depth(
                        old(self).textures@[d as int].data@,
                        final(self).textures@[d as int].data@,
                        clear.depth,
                    )
                },
                None => true,
            },
            Context::same_but_textures(*old(self), *final(self)),
    {
        let mut k: usize = 0;
        while k < colors.len()
            invariant
                self.wf(),
                self.textures@.len() == old(self).textures@.len(),
                k <= colors@.len(),
                forall|k2: int|
                    0 <= k2 < colors@.len() ==> #[trigger] colors@[k2] < old(
                        self,
                    ).textures@.len(),
                forall|k1: int, k2: int|
                    0 <= k1 < k2 < colors@.len() ==> #[trigger] colors@[k1]
                        != #[trigger] colors@[k2],
                forall|t: int|
                    0 <= t < old(self).textures@.len() && !colors@.subrange(0, k as int).contains(
                        t as usize,
                    ) ==> self.textures@[t] == old(self).textures@[t],
                forall|k2: int|
                    0 <= k2 < k ==> {
                        let t = #[trigger] colors@[k2] as int;
                        &&& self.textures@[t].width == old(self).textures@[t].width
                        &&& self.textures@[t].height == old(self).textures@[t].height
                        &&& self.textures@[t].element_type == old(self).textures@[t].element_type
                        &&& self.textures@[t].mip_count == old(self).textures@[t].mip_count
                        &&& spec_cleared_color(
                            old(self).textures@[t].data@,
                            self.textures@[t].data@,
                            old(self).textures@[t].element_type.spec_channels(),
                            *clear,
                        )
                    },
                Context::same_but_textures(*old(self), *self),
            decreases colors@.len() - k,
        {
            let id = colors[k];
            let ghost pre = self.textures@;
            proof {
                if colors@.subrange(0, k as int).contains(colors@[k as int]) {
                    let j = choose|j: int|
                        0 <= j < k && #[trigger] colors@.subrange(0, k as int)[j]
                            == colors@[k as int];
                    assert(colors@[j] == colors@[k as int]);
                }
            }
            let channels = self.textures[id].element_type.channels() as usize;
            let new_data = cleared_color_data(&self.textures[id].data, channels, clear);
            self.replace_texture_data(id, new_data);
            k = k + 1;
            proof {
                assert forall|t: int|
                    0 <= t < old(self).textures@.len() && !colors@.subrange(0, k as int).contains(
                        t as usize,
                    ) implies self.textures@[t] == old(self).textures@[t] by {
                    assert(colors@.subrange(0, k as int)[k as int - 1] == colors@[k as int - 1]);
                    assert(t != colors@[k as int - 1]);
                    if colors@.subrange(0, k as int - 1).contains(t as usize) {
                        let j = choose|j: int|
                            0 <= j < k - 1 && #[trigger] colors@.subrange(0, k as int - 1)[j]
                                == t as usize;
                        assert(colors@.subrange(0, k as int)[j] == t as usize);
                    }
                    assert(self.textures@[t] == pre[t]);
                }
            }
        }
        proof {
            assert(colors@.subrange(0, colors@.len() as int) =~= colors@);
        }
        if let Option::Some(d) = depth {
            let new_data = cleared_depth_data(&self.textures[d].data, clear.depth);
            self.replace_texture_data(d, new_data);
        }
    }

    /// Reads back the channel values of the pixels of texture `id` inside
    /// `viewport`, row-major from the viewport origin, channels
    /// interleaved: exactly `viewport.width * viewport.height * channels`
    /// values.
    pub fn read_texture_rect(&self, id: usize, viewport: Viewport) -> (r: Vec<u32>)
        requires
            self.wf(),
            id < self.textures@.len(),
            viewport.spec_inside(self.textures@[id as int].width, self.textures@[id as int].height),
        ensures
            r@.len() == viewport.width * viewport.height * self.textures@[
                id as int
            ].element_type.spec_channels(),
            forall|row: int, col: int, c: int|
                0 <= row < viewport.height && 0 <= col < viewport.width && 0 <= c < self.textures@[
                    id as int
                ].element_type.spec_channels() ==> r@[#[trigger] pixel_index(
                    viewport.width as int,
                    self.textures@[id as int].element_type.spec_channels() as int,
                    row,
                    col,
                    c,
                )] == self.textures@[id as int].data@[pixel_index(
                    self.textures@[id as int].width as int,
                    self.textures@[id as int].element_type.spec_channels() as int,
                    viewport.y + row,
                    viewport.x + col,
                    c,
                )],
    {
        let st = &self.textures[id];
        let ghost g_w = st.width as int;
        let ghost g_h = st.height as int;
        let channels = st.element_type.channels() as usize;
        let ghost g_ch = channels as int;
        let mut out: Vec<u32> = Vec::new();
        let mut row: usize = 0;
        while row < viewport.height as usize
            invariant
                self.wf(),
                id < self.textures@.len(),
                st == self.textures@[id as int],
                viewport.spec_inside(st.width, st.height),
                g_w == st.width as int,
                g_h == st.height as int,
                channels == st.element_type.spec_channels(),
                g_ch == channels as int,
                1 <= channels <= 4,
                row <= viewport.height,
                out@.len() == row as int * viewport.width as int * g_ch,
                forall|r2: int, c2: int, c3: int|
                    0 <= r2 < row && 0 <= c2 < viewport.width && 0 <= c3 < g_ch ==> out@[
                        #[trigger] pixel_index(viewport.width as int, g_ch, r2, c2, c3)
                    ] == st.data@[pixel_index(g_w, g_ch, viewport.y + r2, viewport.x + c2, c3)],
            decreases viewport.height - row,
        {
            let mut col: usize = 0;
            while col < viewport.width as usize
                invariant
                    self.wf(),
                    id < self.textures@.len(),
                    st == self.textures@[id as int],
                    viewport.spec_inside(st.width, st.height),
                    g_w == st.width as int,
                    g_h == st.height as int,
                    channels == st.element_type.spec_channels(),
                    g_ch == channels as int,
                    1 <= channels <= 4,
                    row < viewport.height,
                    col <= viewport.width,
                    out@.len() == (row as int * viewport.width as int + col as int) * g_ch,
                    forall|r2: int, c2: int, c3: int|
                        (0 <= r2 < row && 0 <= c2 < viewport.width && 0 <= c3 < g_ch) || (r2 == row
                            && 0 <= c2 < col && 0 <= c3 < g_ch) ==> out@[
                            #[trigger] pixel_index(viewport.width as int, g_ch, r2, c2, c3)
                        ] == st.data@[pixel_index(g_w, g_ch, viewport.y + r2, viewport.x + c2, c3)],
                decreases viewport.width - col,
            {
                let sy = viewport.y as usize + row;
                let sx = viewport.x as usize + col;
                let dlen: usize = st.data.len();
                proof {
                    lemma_pixel_index_bound(g_w, g_h, g_ch, sx as int, sy as int, 0);
                    assert(st.data@.len() == g_w * g_h * g_ch) by (nonlinear_arith)
                        requires
                            st.data@.len() == st.width * st.height
                                * st.element_type.spec_channels(),
                            g_w == st.width as int,
                            g_h == st.height as int,
                            g_ch == st.element_type.spec_channels() as int,
                    ;
                    assert((sy as int * g_w + sx as int) * g_ch + g_ch <= g_w * g_h * g_ch)
                        by (nonlinear_arith)
                        requires
                            0 <= sx < g_w,
                            0 <= sy < g_h,
                            g_ch >= 1,
                    ;
                    assert(sy as int * g_w <= (sy as int * g_w + sx as int) * g_ch)
                        by (nonlinear_arith)
                        requires
                            0 <= sx,
                            0 <= sy,
                            g_w >= 1,
                            g_ch >= 1,
                    ;
                }
                let base = (sy * (st.width as usize) + sx) * channels;
                let mut c: usize = 0;
                while c < channels
                    invariant
                        self.wf(),
                        id < self.textures@.len(),
                        st == self.textures@[id as int],
                        viewport.spec_inside(st.width, st.height),
                        g_w == st.width as int,
                        g_h == st.height as int,
                        channels == st.element_type.spec_channels(),
                        g_ch == channels as int,
                        1 <= channels <= 4,
                        row < viewport.height,
                        col < viewport.width,
                        c <= channels,
                        sy == viewport.y + row,
                        sx == viewport.x + col,
                        sy < st.height,
                        sx < st.width,
                        st.data@.len() == g_w * g_h * g_ch,
                        base == (sy as int * g_w + sx as int) * g_ch,
                        dlen == st.data@.len(),
                        base + channels <= dlen,
                        out@.len() == (row as int * viewport.width as int + col as int) * g_ch
                            + c as int,
                        forall|r2: int, c2: int, c3: int|
                            (0 <= r2 < row && 0 <= c2 < viewport.width && 0 <= c3 < g_ch) || (r2
                                == row && 0 <= c2 < col && 0 <= c3 < g_ch) || (r2 == row && c2
                                == col && 0 <= c3 < c) ==> out@[
                                #[trigger] pixel_index(viewport.width as int, g_ch, r2, c2, c3)
                            ] == st.data@[pixel_index(
                                g_w,
                                g_ch,
                                viewport.y + r2,
                                viewport.x + c2,
                                c3,
                            )],
                    decreases channels - c,
                {
                    proof {
                        assert(base + c < st.data@.len());
                    }
                    out.push(st.data[base + c]);
                    c = c + 1;
                    proof {
                        assert forall|r2: int, c2: int, c3: int|
                            (0 <= r2 < row && 0 <= c2 < viewport.width && 0 <= c3 < g_ch) || (r2
                                == row && 0 <= c2 < col && 0 <= c3 < g_ch) || (r2 == row && c2
                                == col && 0 <= c3 < c) implies out@[#[trigger] pixel_index(
                            viewport.width as int,
                            g_ch,
                            r2,
                            c2,
                            c3,
                        )] == st.data@[pixel_index(
                            g_w,
                            g_ch,
                            viewport.y + r2,
                            viewport.x + c2,
                            c3,
                        )] by {
                            if r2 == row && c2 == col && c3 == c - 1 {
                                assert(pixel_index(viewport.width as int, g_ch, r2, c2, c3)
                                    == out@.len() - 1);
                                assert(base + c3 == pixel_index(
                                    g_w,
                                    g_ch,
                                    viewport.y + r2,
                                    viewport.x + c2,
                                    c3,
                                ));
                            } else {
                                lemma_pixel_index_lt(
                                    viewport.width as int,
                                    g_ch,
                                    r2,
                                    c2,
                                    c3,
                                    row as int,
                                    col as int,
                                    c as int - 1,
                                );
                            }
                        }
                    }
                }
                col = col + 1;
                proof {
                    assert((row as int * viewport.width as int + (col as int - 1)) * g_ch + g_ch
                        == (row as int * viewport.width as int + col as int) * g_ch)
                        by (nonlinear_arith);
                }
            }
            row = row + 1;
            proof {
                assert((row as int - 1) * viewport.width as int * g_ch + viewport.width as int
                    * g_ch == row as int * viewport.width as int * g_ch) by (nonlinear_arith);
                assert(((row as int - 1) * viewport.width as int + viewport.width as int) * g_ch
                    == row as int * viewport.width as int * g_ch) by (nonlinear_arith);
            }
        }
        proof {
            assert(viewport.height as int * viewport.width as int * g_ch == viewport.width
                * viewport.height * st.element_type.spec_channels()) by (nonlinear_arith)
                requires
                    g_ch == st.element_type.spec_channels() as int,
            ;
        }
        out
    }
}

} // verus!
