//! Geometry, materials, and the forward/deferred draw dispatch: the unit
//! passed into a render pass is an object — a geometry and a material —
//! and dispatch uniformly derives render state, composes or fetches the
//! program, binds camera, light and material resources, and issues the
//! draw.

use vstd::prelude::*;

use crate::context::Context;
use crate::context::Cull;
use crate::context::Blend;
use crate::context::BoundResource;
use crate::context::BindingRecord;
use crate::context::DepthTest;
use crate::context::RenderStates;
use crate::context::Viewport;
use crate::context::WriteMask;
use crate::context::spec_cache_has_combination;
use crate::context::cache_lookup;
use crate::context::key_matches;
use crate::context::lemma_cache_lookup_sound;
use crate::context::lemma_lookup_matches_combination;
use crate::error::RendererError;
use crate::light::Lights;
use crate::light::bind_lights;
use crate::light::spec_light_binding_count;
use crate::light::spec_lights_bound_at;
use crate::shader::PassKind;
use crate::shader::SourceKey;
use crate::shader::dec_rep;
use crate::shader::key_eqv;
use crate::shader::spec_compose;
use crate::shader::usize_to_decimal;

verus! {

/// An sRGBA color with one byte per channel.
#[derive(Clone, Copy, Debug, PartialEq, Eq, Structural)]
pub struct Color {
    pub r: u8,
    pub g: u8,
    pub b: u8,
    pub a: u8,
}

impl Color {
    /// A color is transparent when its alpha is below opaque.
    pub open spec fn spec_is_transparent(self) -> bool {
        self.a < 255
    }

    pub fn is_transparent(self) -> (r: bool)
        ensures
            r == self.spec_is_transparent(),
    {
        self.a < 255
    }
}

/// The material variants dispatch can shade with.
#[derive(Clone, Copy, Debug, PartialEq, Eq, Structural)]
pub enum MaterialKind {
    /// A flat color.
    Color { color: Color },
    /// Depth only: no color output.
    Depth,
    /// An sRGB texture sampled at the geometry's texture coordinates.
    Textured { texture_id: usize },
    /// Shaded with the active lights.
    Lit { color: Color },
}

/// A material: a shader-fragment variant together with the face culling it
/// renders under.
#[derive(Clone, Copy, Debug, PartialEq, Eq, Structural)]
pub struct Material {
    pub kind: MaterialKind,
    pub cull: Cull,
}

impl Default for Material {
    /// The default material: opaque white flat color, no culling.
    fn default() -> (r: Material)
        ensures
            r == (Material {
                kind: MaterialKind::Color { color: Color { r: 255, g: 255, b: 255, a: 255 } },
                cull: Cull::Disabled,
            }),
    {
        Material {
            kind: MaterialKind::Color { color: Color { r: 255, g: 255, b: 255, a: 255 } },
            cull: Cull::Disabled,
        }
    }
}

impl Material {
    /// Whether this material needs texture coordinates from the geometry.
    pub open spec fn spec_requires_uv(self) -> bool {
        self.kind is Textured
    }

    pub fn requires_uv(&self) -> (r: bool)
        ensures
            r == self.spec_requires_uv(),
    {
        match self.kind {
            MaterialKind::Textured { .. } => true,
            _ => false,
        }
    }

    /// Whether this material itself renders transparently.
    pub open spec fn spec_is_transparent(self) -> bool {
        match self.kind {
            MaterialKind::Color { color } => color.spec_is_transparent(),
            MaterialKind::Lit { color } => color.spec_is_transparent(),
            _ => false,
        }
    }

    pub fn is_transparent(&self) -> (r: bool)
        ensures
            r == self.spec_is_transparent(),
    {
        match self.kind {
            MaterialKind::Color { color } => color.is_transparent(),
            MaterialKind::Lit { color } => color.is_transparent(),
            _ => false,
        }
    }

    /// The render state a forward draw with this material uses: a
    /// depth-only material writes only depth, transparent output blends and
    /// leaves depth unwritten, opaque output writes everything; the
    /// material's culling applies in every case.
    pub open spec fn spec_render_states(self, geometry_transparent: bool) -> RenderStates {
        if self.kind is Depth {
            RenderStates {
                blend: Blend::Disabled,
                cull: self.cull,
                depth_test: DepthTest::Less,
                write_mask: WriteMask {
                    red: false,
                    green: false,
                    blue: false,
                    alpha: false,
                    depth: true,
                },
            }
        } else if geometry_transparent || self.spec_is_transparent() {
            RenderStates {
                blend: Blend::Transparency,
                cull: self.cull,
                depth_test: DepthTest::Less,
                write_mask: WriteMask {
                    red: true,
                    green: true,
                    blue: true,
                    alpha: true,
                    depth: false,
                },
            }
        } else {
            RenderStates {
                blend: Blend::Disabled,
                cull: self.cull,
                depth_test: DepthTest::Less,
                write_mask: WriteMask { red: true, green: true, blue: true, alpha: true, depth: true },
            }
        }
    }

    pub fn render_states(&self, geometry_transparent: bool) -> (r: RenderStates)
        ensures
            r == self.spec_render_states(geometry_transparent),
    {
        if matches!(self.kind, MaterialKind::Depth) {
            RenderStates {
                blend: Blend::Disabled,
                cull: self.cull,
                depth_test: DepthTest::Less,
                write_mask: WriteMask::depth_only(),
            }
        } else if geometry_transparent || self.is_transparent() {
            RenderStates {
                blend: Blend::Transparency,
                cull: self.cull,
                depth_test: DepthTest::Less,
                write_mask: WriteMask::color_only(),
            }
        } else {
            RenderStates {
                blend: Blend::Disabled,
                cull: self.cull,
                depth_test: DepthTest::Less,
                write_mask: WriteMask::all(),
            }
        }
    }

    /// The render state a deferred geometry-pass draw uses: opaque, all
    /// channels written, the material's culling.
    pub open spec fn spec_render_states_deferred(self) -> RenderStates {
        RenderStates {
            blend: Blend::Disabled,
            cull: self.cull,
            depth_test: DepthTest::Less,
            write_mask: WriteMask { red: true, green: true, blue: true, alpha: true, depth: true },
        }
    }

    pub fn render_states_deferred(&self) -> (r: RenderStates)
        ensures
            r == self.spec_render_states_deferred(),
    {
        RenderStates {
            blend: Blend::Disabled,
            cull: self.cull,
            depth_test: DepthTest::Less,
            write_mask: WriteMask::all(),
        }
    }

    /// The forward-pass shader body this material supplies, depending on
    /// whether the geometry carries per-vertex colors.
    pub open spec fn spec_shader_body(self, has_vertex_colors: bool) -> Seq<char> {
        match self.kind {
            MaterialKind::Color { .. } => if has_vertex_colors {
                "uniform vec4 surfaceColor;\nin vec4 col;\nvoid fragment()\n{\n    outColor = surfaceColor * col;\n}\n"@
            } else {
                "uniform vec4 surfaceColor;\nvoid fragment()\n{\n    outColor = surfaceColor;\n}\n"@
            },
            MaterialKind::Depth => "void fragment()\n{\n    outColor = vec4(gl_FragCoord.z);\n}\n"@,
            MaterialKind::Textured { .. } => "uniform sampler2D tex;\nin vec2 uvs;\nvoid fragment()\n{\n    outColor = texture(tex, uvs);\n}\n"@,
            MaterialKind::Lit { .. } => "uniform vec4 surfaceColor;\nvoid fragment()\n{\n    vec4 color = vec4(0.0, 0.0, 0.0, surfaceColor.a);\n    calculate_lighting(color, surfaceColor.rgb, position, normal, 1.0, 1.0, 32.0);\n    outColor = color;\n}\n"@,
        }
    }

    pub fn shader_body(&self, has_vertex_colors: bool) -> (r: String)
        ensures
            r@ == self.spec_shader_body(has_vertex_colors),
    {
        match self.kind {
            MaterialKind::Color { .. } => if has_vertex_colors {
                String::from_str(
                    "uniform vec4 surfaceColor;\nin vec4 col;\nvoid fragment()\n{\n    outColor = surfaceColor * col;\n}\n",
                )
            } else {
                String::from_str(
                    "uniform vec4 surfaceColor;\nvoid fragment()\n{\n    outColor = surfaceColor;\n}\n",
                )
            },
            MaterialKind::Depth => String::from_str(
                "void fragment()\n{\n    outColor = vec4(gl_FragCoord.z);\n}\n",
            ),
            MaterialKind::Textured { .. } => String::from_str(
                "uniform sampler2D tex;\nin vec2 uvs;\nvoid fragment()\n{\n    outColor = texture(tex, uvs);\n}\n",
            ),
            MaterialKind::Lit { .. } => String::from_str(
                "uniform vec4 surfaceColor;\nvoid fragment()\n{\n    vec4 color = vec4(0.0, 0.0, 0.0, surfaceColor.a);\n    calculate_lighting(color, surfaceColor.rgb, position, normal, 1.0, 1.0, 32.0);\n    outColor = color;\n}\n",
            ),
        }
    }

    /// The geometry-pass shader body this material supplies under the
    /// deferred pass kind: it writes surface attributes, not shaded color.
    pub open spec fn spec_deferred_shader_body(self, has_vertex_colors: bool) -> Seq<char> {
        if has_vertex_colors {
            "uniform vec4 surfaceColor;\nin vec4 col;\nlayout (location = 1) out vec4 outNormal;\nvoid fragment()\n{\n    outColor = surfaceColor * col;\n    outNormal = vec4(normalize(normal), gl_FragCoord.z);\n}\n"@
        } else {
            "uniform vec4 surfaceColor;\nlayout (location = 1) out vec4 outNormal;\nvoid fragment()\n{\n    outColor = surfaceColor;\n    outNormal = vec4(normalize(normal), gl_FragCoord.z);\n}\n"@
        }
    }

    pub fn deferred_shader_body(&self, has_vertex_colors: bool) -> (r: String)
        ensures
            r@ == self.spec_deferred_shader_body(has_vertex_colors),
    {
        if has_vertex_colors {
            String::from_str(
                "uniform vec4 surfaceColor;\nin vec4 col;\nlayout (location = 1) out vec4 outNormal;\nvoid fragment()\n{\n    outColor = surfaceColor * col;\n    outNormal = vec4(normalize(normal), gl_FragCoord.z);\n}\n",
            )
        } else {
            String::from_str(
                "uniform vec4 surfaceColor;\nlayout (location = 1) out vec4 outNormal;\nvoid fragment()\n{\n    outColor = surfaceColor;\n    outNormal = vec4(normalize(normal), gl_FragCoord.z);\n}\n",
            )
        }
    }

    /// A textured material's sampled texture names a storage of the
    /// context.
    pub open spec fn valid(self, ctx: Context) -> bool {
        match self.kind {
            MaterialKind::Textured { texture_id } => texture_id < ctx.textures@.len(),
            _ => true,
        }
    }

    /// How many binding records this material's own uniforms append.
    pub open spec fn spec_uniform_record_count(self) -> int {
        match self.kind {
            MaterialKind::Depth => 0,
            _ => 1,
        }
    }

    /// The one binding record this material's own uniforms append, if any:
    /// its color under `surfaceColor`, or its texture under `tex`.
    pub open spec fn spec_uniform_record(self, program: usize, rec: BindingRecord) -> bool {
        match self.kind {
            MaterialKind::Color { color } | MaterialKind::Lit { color } => {
                &&& rec.program == program
                &&& rec.name@ == "surfaceColor"@
                &&& rec.resource == (BoundResource::Vec4 {
                    x: color.r as u32,
                    y: color.g as u32,
                    z: color.b as u32,
                    w: color.a as u32,
                })
            },
            MaterialKind::Depth => true,
            MaterialKind::Textured { texture_id } => {
                &&& rec.program == program
                &&& rec.name@ == "tex"@
                &&& rec.resource == BoundResource::Texture(texture_id)
            },
        }
    }

    /// Binds this material's own uniforms to `program`, recording them.
    fn bind_uniforms(&self, ctx: &mut Context, program: usize) -> (r: Result<(), RendererError>)
        requires
            old(ctx).wf(),
            program < old(ctx).programs@.len(),
            self.valid(*old(ctx)),
        ensures
            r is Ok,
            final(ctx).wf(),
            final(ctx).bindings@.len() == old(ctx).bindings@.len()
                + self.spec_uniform_record_count(),
            forall|j: int|
                0 <= j < old(ctx).bindings@.len() ==> final(ctx).bindings@[j] == old(
                    ctx,
                ).bindings@[j],
            self.spec_uniform_record_count() == 1 ==> self.spec_uniform_record(
                program,
                final(ctx).bindings@.last(),
            ),
            Context::same_but_bindings(*old(ctx), *final(ctx)),
    {
        match self.kind {
            MaterialKind::Color { color } | MaterialKind::Lit { color } => ctx.use_uniform_vec4(
                program,
                String::from_str("surfaceColor"),
                color.r as u32,
                color.g as u32,
                color.b as u32,
                color.a as u32,
            ),
            MaterialKind::Depth => Ok(()),
            MaterialKind::Textured { texture_id } => ctx.use_texture(
                program,
                String::from_str("tex"),
                texture_id,
            ),
        }
    }
}

/// The camera as dispatch consumes it: its GPU-side uniform buffer and the
/// viewport it renders.
#[derive(Clone, Copy, Debug, PartialEq, Eq, Structural)]
pub struct CameraBinding {
    pub uniform_buffer_id: usize,
    pub viewport: Viewport,
}

/// A local-to-world transformation, its sixteen entries carried as widened
/// channel values in column-major order.
#[derive(Clone, Copy, Debug, PartialEq, Eq)]
pub struct Mat4 {
    pub entries: [u32; 16],
}

/// The bit pattern of one in the transformation's entry encoding.
pub const ONE_BITS: u32 = 0x3F80_0000;

impl Mat4 {
    /// The identity transformation.
    pub fn identity() -> (r: Mat4)
        ensures
            r.entries@ =~= seq![
                ONE_BITS, 0u32, 0u32, 0u32, 0u32, ONE_BITS, 0u32, 0u32, 0u32, 0u32, ONE_BITS,
                0u32, 0u32, 0u32, 0u32, ONE_BITS,
            ],
    {
        let entries: [u32; 16] = [
            ONE_BITS, 0, 0, 0, 0, ONE_BITS, 0, 0, 0, 0, ONE_BITS, 0, 0, 0, 0, ONE_BITS,
        ];
        Mat4 { entries }
    }

    pub fn new(entries: [u32; 16]) -> (r: Mat4)
        ensures
            r.entries == entries,
    {
        Mat4 { entries }
    }
}

/// A bounding volume of a geometry.
#[derive(Clone, Copy, Debug, PartialEq, Eq, Structural)]
pub enum AxisAlignedBoundingBox {
    /// The unbounded volume: contains everything.
    Infinite,
}

impl AxisAlignedBoundingBox {
    pub fn new_infinite() -> (r: AxisAlignedBoundingBox)
        ensures
            r is Infinite,
    {
        AxisAlignedBoundingBox::Infinite
    }
}

/// A mesh as delivered by a CPU-side asset loader, reduced to what dispatch
/// reads: how many vertices it has and which attributes it carries.
#[derive(Clone, Copy, Debug, PartialEq, Eq, Structural)]
pub struct CpuMesh {
    pub vertex_count: usize,
    pub has_uvs: bool,
    pub has_colors: bool,
    pub transparent_colors: bool,
}

/// A GPU-side mesh: the attribute surface dispatch decides over.
#[derive(Clone, Copy, Debug, PartialEq, Eq, Structural)]
pub struct Mesh {
    pub vertex_count: usize,
    pub has_uvs: bool,
    pub has_colors: bool,
    pub transparent_colors: bool,
}

impl Mesh {
    pub fn new(cpu_mesh: &CpuMesh) -> (r: Mesh)
        ensures
            r.vertex_count == cpu_mesh.vertex_count,
            r.has_uvs == cpu_mesh.has_uvs,
            r.has_colors == cpu_mesh.has_colors,
            r.transparent_colors == cpu_mesh.transparent_colors,
    {
        Mesh {
            vertex_count: cpu_mesh.vertex_count,
            has_uvs: cpu_mesh.has_uvs,
            has_colors: cpu_mesh.has_colors,
            transparent_colors: cpu_mesh.transparent_colors,
        }
    }
}

/// A mesh drawn many times per draw call, one instance per transformation.
#[derive(Clone, Copy, Debug, PartialEq, Eq)]
pub struct InstancedMesh {
    pub mesh: Mesh,
    pub instance_count: usize,
    pub transformation: Mat4,
}

impl Lights {
    /// Every shadow map names a storage of the context.
    pub open spec fn valid(self, ctx: Context) -> bool {
        &&& forall|k: int|
            0 <= k < self.directional@.len() ==> (#[trigger] self.directional@[k]).shadow_map_id
                < ctx.textures@.len()
        &&& forall|k: int|
            0 <= k < self.spot@.len() ==> (#[trigger] self.spot@[k]).shadow_map_id
                < ctx.textures@.len()
    }
}

/// A model that draws the same mesh many times per draw call.
#[derive(Clone, Copy, Debug, PartialEq, Eq)]
pub struct InstancedModel {
    pub mesh: InstancedMesh,
    pub cull: Cull,
}

impl InstancedModel {
    /// An instanced model over a CPU-side mesh, one instance per
    /// transformation, with the identity as its own transformation.
    pub fn new(transformations: &Vec<Mat4>, cpu_mesh: &CpuMesh) -> (r: Result<
        InstancedModel,
        RendererError,
    >)
        ensures
            r matches Ok(m) && {
                &&& m.mesh.mesh == Mesh {
                    vertex_count: cpu_mesh.vertex_count,
                    has_uvs: cpu_mesh.has_uvs,
                    has_colors: cpu_mesh.has_colors,
                    transparent_colors: cpu_mesh.transparent_colors,
                }
                &&& m.mesh.instance_count == transformations@.len()
                &&& m.cull == Cull::Disabled
            },
    {
        Ok(
            InstancedModel {
                mesh: InstancedMesh {
                    mesh: Mesh::new(cpu_mesh),
                    instance_count: transformations.len(),
                    transformation: Mat4::identity(),
                },
                cull: Cull::Disabled,
            },
        )
    }

    /// The local-to-world transformation applied to this geometry.
    pub fn transformation(&self) -> (r: &Mat4)
        ensures
            r == self.mesh.transformation,
    {
        &self.mesh.transformation
    }

    /// Sets the local-to-world transformation applied to this geometry.
    pub fn set_transformation(&mut self, transformation: Mat4)
        ensures
            final(self).mesh.transformation == transformation,
            final(self).mesh.mesh == old(self).mesh.mesh,
            final(self).mesh.instance_count == old(self).mesh.instance_count,
            final(self).cull == old(self).cull,
    {
        self.mesh.transformation = transformation;
    }

    /// The bounding volume of this geometry.
    pub fn aabb(&self) -> (r: AxisAlignedBoundingBox)
        ensures
            r is Infinite,
    {
        AxisAlignedBoundingBox::new_infinite()
    }

    /// Renders the object in a forward pass: derives the render state from
    /// the material and the geometry's transparency, composes or fetches
    /// the forward program for the material body and the light counts,
    /// binds camera, lights and material, and issues one draw against the
    /// currently bound framebuffer.
    ///
    /// Fails before any state changes when the material needs texture
    /// coordinates the geometry lacks, when a light kind exceeds the slot
    /// budget, or when the combination is uncached and compilation fails.
    #[verifier::rlimit(100)]
    #[verifier::spinoff_prover]
    pub fn render_forward(
        &self,
        ctx: &mut Context,
        material: &Material,
        camera: &CameraBinding,
        lights: &Lights,
    ) -> (r: Result<(), RendererError>)
        requires
            old(ctx).wf(),
            material.valid(*old(ctx)),
            lights.valid(*old(ctx)),
        ensures
            final(ctx).wf(),
            match r {
                Ok(()) => {
                    let body = material.spec_shader_body(self.mesh.mesh.has_colors);
                    let nd = lights.directional@.len() as int;
                    let ns = lights.spot@.len() as int;
                    let np = lights.point@.len() as int;
                    let oldb = old(ctx).bindings@.len() as int;
                    let program = final(ctx).draws@.last().program;
                    &&& !(material.spec_requires_uv() && !self.mesh.mesh.has_uvs)
                    &&& lights.spec_within_budget()
                    &&& (spec_cache_has_combination(
                        old(ctx).cache@,
                        body,
                        nd,
                        ns,
                        np,
                        PassKind::Forward,
                    ) || old(ctx).compile_diagnostic is None)
                    &&& (if spec_cache_has_combination(
                        old(ctx).cache@,
                        body,
                        nd,
                        ns,
                        np,
                        PassKind::Forward,
                    ) {
                        &&& final(ctx).programs@ == old(ctx).programs@
                        &&& final(ctx).cache@ == old(ctx).cache@
                        &&& exists|i: int|
                            0 <= i < old(ctx).cache@.len() && key_matches(
                                (#[trigger] old(ctx).cache@[i]).0,
                                body,
                                nd,
                                ns,
                                np,
                                PassKind::Forward,
                            ) && old(ctx).cache@[i].1 == program
                    } else {
                        &&& program == old(ctx).programs@.len()
                        &&& final(ctx).programs@.len() == old(ctx).programs@.len() + 1
                        &&& final(ctx).cache@.len() == old(ctx).cache@.len() + 1
                        &&& forall|i: int|
                            0 <= i < old(ctx).cache@.len() ==> final(ctx).cache@[i] == old(
                                ctx,
                            ).cache@[i]
                        &&& key_matches(
                            final(ctx).cache@.last().0,
                            body,
                            nd,
                            ns,
                            np,
                            PassKind::Forward,
                        )
                        &&& final(ctx).cache@.last().1 == program
                    })
                    &&& program < final(ctx).programs@.len()
                    &&& final(ctx).programs@[program as int].fragment_source@ == spec_compose(
                        body,
                        nd as nat,
                        ns as nat,
                        np as nat,
                        PassKind::Forward,
                    )
                    &&& final(ctx).draws@.len() == old(ctx).draws@.len() + 1
                    &&& forall|j: int|
                        0 <= j < old(ctx).draws@.len() ==> final(ctx).draws@[j] == old(
                            ctx,
                        ).draws@[j]
                    &&& final(ctx).draws@.last().states == material.spec_render_states(
                        self.mesh.mesh.has_colors && self.mesh.mesh.transparent_colors,
                    )
                    &&& final(ctx).draws@.last().viewport == camera.viewport
                    &&& final(ctx).draws@.last().instance_count == self.mesh.instance_count
                    &&& final(ctx).draws@.last().target.model() == old(
                        ctx,
                    ).bound_framebuffer.model()
                    &&& final(ctx).bindings@.len() == oldb + 1 + spec_light_binding_count(
                        nd,
                        ns,
                        np,
                    ) + material.spec_uniform_record_count()
                    &&& forall|j: int|
                        0 <= j < oldb ==> final(ctx).bindings@[j] == old(ctx).bindings@[j]
                    &&& final(ctx).bindings@[oldb].program == program
                    &&& final(ctx).bindings@[oldb].name@ == "CameraUniform"@
                    &&& final(ctx).bindings@[oldb].resource == BoundResource::UniformBlock(
                        camera.uniform_buffer_id,
                    )
                    &&& spec_lights_bound_at(
                        final(ctx).bindings@,
                        oldb + 1,
                        program,
                        lights.ambient,
                        lights.directional@,
                        lights.spot@,
                        lights.point@,
                    )
                    &&& material.spec_uniform_record_count() == 1 ==> material.spec_uniform_record(
                        program,
                        final(ctx).bindings@.last(),
                    )
                    &&& final(ctx).textures@ == old(ctx).textures@
                    &&& final(ctx).bound_framebuffer == old(ctx).bound_framebuffer
                    &&& final(ctx).compile_diagnostic == old(ctx).compile_diagnostic
                    &&& final(ctx).pending_error == old(ctx).pending_error
                },
                Err(e) => {
                    &&& *final(ctx) == *old(ctx)
                    &&& match e {
                        RendererError::MissingVertexAttribute { attribute } => {
                            &&& material.spec_requires_uv()
                            &&& !self.mesh.mesh.has_uvs
                            &&& attribute@ == "uv coordinates"@
                        },
                        RendererError::ContextError { .. } => {
                            &&& !(material.spec_requires_uv() && !self.mesh.mesh.has_uvs)
                            &&& !lights.spec_within_budget()
                        },
                        RendererError::ShaderCompileError { diagnostic } => {
                            &&& !(material.spec_requires_uv() && !self.mesh.mesh.has_uvs)
                            &&& lights.spec_within_budget()
                            &&& !spec_cache_has_combination(
                                old(ctx).cache@,
                                material.spec_shader_body(self.mesh.mesh.has_colors),
                                lights.directional@.len() as int,
                                lights.spot@.len() as int,
                                lights.point@.len() as int,
                                PassKind::Forward,
                            )
                            &&& old(ctx).compile_diagnostic matches Some(d) && diagnostic@ == d@
                        },
                        _ => false,
                    }
                },
            },
    {
        if material.requires_uv() && !self.mesh.mesh.has_uvs {
            return Err(
                RendererError::MissingVertexAttribute {
                    attribute: String::from_str("uv coordinates"),
                },
            );
        }
        if !lights.within_budget() {
            return Err(
                RendererError::ContextError {
                    message: String::from_str("light-slot budget exceeded"),
                },
            );
        }
        let body = material.shader_body(self.mesh.mesh.has_colors);
        let key = SourceKey {
            material_body: body,
            directional_count: lights.directional.len(),
            spot_count: lights.spot.len(),
            point_count: lights.point.len(),
            pass: PassKind::Forward,
        };
        proof {
            lemma_lookup_matches_combination(ctx.cache@, key);
            lemma_cache_lookup_sound(*ctx, key);
        }
        let program = match ctx.get_or_compile(&key) {
            Ok(p) => p,
            Err(e) => {
                return Err(e);
            },
        };
        proof {
            if let Some(h) = cache_lookup(old(ctx).cache@, key) {
                crate::context::lemma_cache_lookup_entry(old(ctx).cache@, key);
                let i = choose|i: int|
                    0 <= i < old(ctx).cache@.len() && (#[trigger] old(ctx).cache@[i]).1 == h
                        && key_eqv(old(ctx).cache@[i].0, key);
                assert(key_matches(
                    old(ctx).cache@[i].0,
                    material.spec_shader_body(self.mesh.mesh.has_colors),
                    lights.directional@.len() as int,
                    lights.spot@.len() as int,
                    lights.point@.len() as int,
                    PassKind::Forward,
                ) && old(ctx).cache@[i].1 == program);
            }
        }
        ctx.use_uniform_block(program, String::from_str("CameraUniform"), camera.uniform_buffer_id);
        let ambient_ref = match &lights.ambient {
            Option::Some(a) => Some(a),
            Option::None => None,
        };
        let lr = bind_lights(ctx, program, ambient_ref, &lights.directional, &lights.spot, &lights.point);
        if let Err(e) = lr {
            return Err(e);
        }
        let mr = material.bind_uniforms(ctx, program);
        if let Err(e) = mr {
            return Err(e);
        }
        let states = material.render_states(self.mesh.mesh.has_colors
            && self.mesh.mesh.transparent_colors);
        ctx.draw(program, states, camera.viewport, self.mesh.instance_count);
        Ok(())
    }

    /// Renders the object's geometry and surface material parameters in a
    /// deferred geometry pass: the material supplies its geometry-pass
    /// shader body, the program is composed or fetched under the deferred
    /// pass kind (never sharing cache entries with forward programs), the
    /// camera and the material are bound, and one draw is issued over the
    /// given viewport. A separate lighting pass resolves lights later, so
    /// none are bound here.
    #[verifier::rlimit(100)]
    #[verifier::spinoff_prover]
    pub fn render_deferred(
        &self,
        ctx: &mut Context,
        material: &Material,
        camera: &CameraBinding,
        viewport: Viewport,
    ) -> (r: Result<(), RendererError>)
        requires
            old(ctx).wf(),
            material.valid(*old(ctx)),
        ensures
            final(ctx).wf(),
            match r {
                Ok(()) => {
                    let body = material.spec_deferred_shader_body(self.mesh.mesh.has_colors);
                    let oldb = old(ctx).bindings@.len() as int;
                    let program = final(ctx).draws@.last().program;
                    &&& !(material.spec_requires_uv() && !self.mesh.mesh.has_uvs)
                    &&& (spec_cache_has_combination(
                        old(ctx).cache@,
                        body,
                        0,
                        0,
                        0,
                        PassKind::Deferred,
                    ) || old(ctx).compile_diagnostic is None)
                    &&& (if spec_cache_has_combination(
                        old(ctx).cache@,
                        body,
                        0,
                        0,
                        0,
                        PassKind::Deferred,
                    ) {
                        &&& final(ctx).programs@ == old(ctx).programs@
                        &&& final(ctx).cache@ == old(ctx).cache@
                        &&& exists|i: int|
                            0 <= i < old(ctx).cache@.len() && key_matches(
                                (#[trigger] old(ctx).cache@[i]).0,
                                body,
                                0,
                                0,
                                0,
                                PassKind::Deferred,
                            ) && old(ctx).cache@[i].1 == program
                    } else {
                        &&& program == old(ctx).programs@.len()
                        &&& final(ctx).programs@.len() == old(ctx).programs@.len() + 1
                        &&& final(ctx).cache@.len() == old(ctx).cache@.len() + 1
                        &&& forall|i: int|
                            0 <= i < old(ctx).cache@.len() ==> final(ctx).cache@[i] == old(
                                ctx,
                            ).cache@[i]
                        &&& key_matches(
                            final(ctx).cache@.last().0,
                            body,
                            0,
                            0,
                            0,
                            PassKind::Deferred,
                        )
                        &&& final(ctx).cache@.last().1 == program
                    })
                    &&& program < final(ctx).programs@.len()
                    &&& final(ctx).programs@[program as int].fragment_source@ == spec_compose(
                        body,
                        0,
                        0,
                        0,
                        PassKind::Deferred,
                    )
                    &&& final(ctx).draws@.len() == old(ctx).draws@.len() + 1
                    &&& forall|j: int|
                        0 <= j < old(ctx).draws@.len() ==> final(ctx).draws@[j] == old(
                            ctx,
                        ).draws@[j]
                    &&& final(ctx).draws@.last().states
                        == material.spec_render_states_deferred()
                    &&& final(ctx).draws@.last().viewport == viewport
                    &&& final(ctx).draws@.last().instance_count == self.mesh.instance_count
                    &&& final(ctx).draws@.last().target.model() == old(
                        ctx,
                    ).bound_framebuffer.model()
                    &&& final(ctx).bindings@.len() == oldb + 1
                        + material.spec_uniform_record_count()
                    &&& forall|j: int|
                        0 <= j < oldb ==> final(ctx).bindings@[j] == old(ctx).bindings@[j]
                    &&& final(ctx).bindings@[oldb].program == program
                    &&& final(ctx).bindings@[oldb].name@ == "CameraUniform"@
                    &&& final(ctx).bindings@[oldb].resource == BoundResource::UniformBlock(
                        camera.uniform_buffer_id,
                    )
                    &&& material.spec_uniform_record_count() == 1 ==> material.spec_uniform_record(
                        program,
                        final(ctx).bindings@.last(),
                    )
                    &&& final(ctx).textures@ == old(ctx).textures@
                    &&& final(ctx).bound_framebuffer == old(ctx).bound_framebuffer
                    &&& final(ctx).compile_diagnostic == old(ctx).compile_diagnostic
                    &&& final(ctx).pending_error == old(ctx).pending_error
                },
                Err(e) => {
                    &&& *final(ctx) == *old(ctx)
                    &&& match e {
                        RendererError::MissingVertexAttribute { attribute } => {
                            &&& material.spec_requires_uv()
                            &&& !self.mesh.mesh.has_uvs
                            &&& attribute@ == "uv coordinates"@
                        },
                        RendererError::ShaderCompileError { diagnostic } => {
                            &&& !(material.spec_requires_uv() && !self.mesh.mesh.has_uvs)
                            &&& !spec_cache_has_combination(
                                old(ctx).cache@,
                                material.spec_deferred_shader_body(self.mesh.mesh.has_colors),
                                0,
                                0,
                                0,
                                PassKind::Deferred,
                            )
                            &&& old(ctx).compile_diagnostic matches Some(d) && diagnostic@ == d@
                        },
                        _ => false,
                    }
                },
            },
    {
        if material.requires_uv() && !self.mesh.mesh.has_uvs {
            return Err(
                RendererError::MissingVertexAttribute {
                    attribute: String::from_str("uv coordinates"),
                },
            );
        }
        let body = material.deferred_shader_body(self.mesh.mesh.has_colors);
        let key = SourceKey {
            material_body: body,
            directional_count: 0,
            spot_count: 0,
            point_count: 0,
            pass: PassKind::Deferred,
        };
        proof {
            lemma_lookup_matches_combination(ctx.cache@, key);
            lemma_cache_lookup_sound(*ctx, key);
        }
        let program = match ctx.get_or_compile(&key) {
            Ok(p) => p,
            Err(e) => {
                return Err(e);
            },
        };
        proof {
            if let Some(h) = cache_lookup(old(ctx).cache@, key) {
                crate::context::lemma_cache_lookup_entry(old(ctx).cache@, key);
                let i = choose|i: int|
                    0 <= i < old(ctx).cache@.len() && (#[trigger] old(ctx).cache@[i]).1 == h
                        && key_eqv(old(ctx).cache@[i].0, key);
                assert(key_matches(
                    old(ctx).cache@[i].0,
                    material.spec_deferred_shader_body(self.mesh.mesh.has_colors),
                    0,
                    0,
                    0,
                    PassKind::Deferred,
                ) && old(ctx).cache@[i].1 == program);
            }
        }
        ctx.use_uniform_block(program, String::from_str("CameraUniform"), camera.uniform_buffer_id);
        let mr = material.bind_uniforms(ctx, program);
        if let Err(e) = mr {
            return Err(e);
        }
        let states = material.render_states_deferred();
        ctx.draw(program, states, viewport, self.mesh.instance_count);
        Ok(())
    }
}

/// A material as delivered by a CPU-side asset loader: what the core reads
/// from it.
#[derive(Clone, Debug, PartialEq)]
pub struct CpuMaterial {
    pub name: String,
    pub albedo: Color,
}

impl Material {
    /// The material built from a CPU-side material: lit shading with its
    /// albedo.
    pub open spec fn spec_from_cpu(cpu: CpuMaterial) -> Material {
        Material { kind: MaterialKind::Lit { color: cpu.albedo }, cull: Cull::Disabled }
    }

    pub fn from_cpu_material(cpu: &CpuMaterial) -> (r: Material)
        ensures
            r == Material::spec_from_cpu(*cpu),
    {
        Material { kind: MaterialKind::Lit { color: cpu.albedo }, cull: Cull::Disabled }
    }
}

/// One part of a CPU-side model: a named mesh and the index of the
/// material it uses, if any.
#[derive(Clone, Debug, PartialEq)]
pub struct CpuModelPart {
    pub name: String,
    pub material_index: Option<usize>,
    pub geometry: CpuMesh,
}

/// A model as delivered by a CPU-side asset loader: its materials and its
/// parts.
#[derive(Clone, Debug, PartialEq)]
pub struct CpuModel {
    pub materials: Vec<CpuMaterial>,
    pub parts: Vec<CpuModelPart>,
}

/// A geometry together with the material it renders with.
#[derive(Clone, Copy, Debug, PartialEq, Eq, Structural)]
pub struct Gm {
    pub geometry: Mesh,
    pub material: Material,
}

/// A part references a material slot the model does not have.
pub open spec fn spec_part_missing_material(part: CpuModelPart, n_materials: int) -> bool {
    match part.material_index {
        Some(i) => i >= n_materials,
        None => false,
    }
}

/// A 3D model: a list of mesh geometries paired with materials.
#[derive(Clone, Debug, PartialEq)]
pub struct Model {
    pub parts: Vec<Gm>,
}

impl Model {
    /// Constructs a model from a CPU-side model: one geometry-material
    /// pair per part, the part's indexed material or the default when it
    /// names none. Fails, naming the part, exactly when a part references
    /// a material index that is out of range — the first such part.
    pub fn new(cpu_model: &CpuModel) -> (r: Result<Model, RendererError>)
        ensures
            match r {
                Ok(m) => {
                    &&& forall|k: int|
                        0 <= k < cpu_model.parts@.len() ==> !spec_part_missing_material(
                            #[trigger] cpu_model.parts@[k],
                            cpu_model.materials@.len() as int,
                        )
                    &&& m.parts@.len() == cpu_model.parts@.len()
                    &&& forall|k: int|
                        0 <= k < cpu_model.parts@.len() ==> {
                            let part = #[trigger] cpu_model.parts@[k];
                            &&& m.parts@[k].geometry == Mesh {
                                vertex_count: part.geometry.vertex_count,
                                has_uvs: part.geometry.has_uvs,
                                has_colors: part.geometry.has_colors,
                                transparent_colors: part.geometry.transparent_colors,
                            }
                            &&& m.parts@[k].material == (match part.material_index {
                                Some(i) => Material::spec_from_cpu(cpu_model.materials@[i as int]),
                                None => Material {
                                    kind: MaterialKind::Color {
                                        color: Color { r: 255, g: 255, b: 255, a: 255 },
                                    },
                                    cull: Cull::Disabled,
                                },
                            })
                        }
                },
                Err(e) => {
                    &&& e matches RendererError::MissingMaterial { index, part } && exists|k: int|
                        {
                            &&& 0 <= k < cpu_model.parts@.len()
                            &&& spec_part_missing_material(
                                #[trigger] cpu_model.parts@[k],
                                cpu_model.materials@.len() as int,
                            )
                            &&& forall|j: int|
                                0 <= j < k ==> !spec_part_missing_material(
                                    #[trigger] cpu_model.parts@[j],
                                    cpu_model.materials@.len() as int,
                                )
                            &&& index@ == dec_rep(
                                cpu_model.parts@[k].material_index->Some_0 as nat,
                            )
                            &&& part@ == cpu_model.parts@[k].name@
                        }
                },
            },
    {
        let mut materials: Vec<Material> = Vec::new();
        let mut i: usize = 0;
        while i < cpu_model.materials.len()
            invariant
                i <= cpu_model.materials@.len(),
                materials@.len() == i,
                forall|j: int|
                    0 <= j < i ==> materials@[j] == Material::spec_from_cpu(
                        #[trigger] cpu_model.materials@[j],
                    ),
            decreases cpu_model.materials@.len() - i,
        {
            materials.push(Material::from_cpu_material(&cpu_model.materials[i]));
            i = i + 1;
        }
        let mut gms: Vec<Gm> = Vec::new();
        let mut k: usize = 0;
        while k < cpu_model.parts.len()
            invariant
                k <= cpu_model.parts@.len(),
                materials@.len() == cpu_model.materials@.len(),
                forall|j: int|
                    0 <= j < materials@.len() ==> materials@[j] == Material::spec_from_cpu(
                        #[trigger] cpu_model.materials@[j],
                    ),
                gms@.len() == k,
                forall|j: int|
                    0 <= j < k ==> !spec_part_missing_material(
                        #[trigger] cpu_model.parts@[j],
                        cpu_model.materials@.len() as int,
                    ),
                forall|j: int|
                    0 <= j < k ==> {
                        let part = #[trigger] cpu_model.parts@[j];
                        &&& gms@[j].geometry == Mesh {
                            vertex_count: part.geometry.vertex_count,
                            has_uvs: part.geometry.has_uvs,
                            has_colors: part.geometry.has_colors,
                            transparent_colors: part.geometry.transparent_colors,
                        }
                        &&& gms@[j].material == (match part.material_index {
                            Some(i) => Material::spec_from_cpu(cpu_model.materials@[i as int]),
                            None => Material {
                                kind: MaterialKind::Color {
                                    color: Color { r: 255, g: 255, b: 255, a: 255 },
                                },
                                cull: Cull::Disabled,
                            },
                        })
                    },
            decreases cpu_model.parts@.len() - k,
        {
            let part = &cpu_model.parts[k];
            let material = match part.material_index {
                Option::Some(mi) => {
                    if mi >= materials.len() {
                        return Err(
                            RendererError::MissingMaterial {
                                index: usize_to_decimal(mi),
                                part: part.name.clone(),
                            },
                        );
                    }
                    materials[mi]
                },
                Option::None => Material::default(),
            };
            gms.push(Gm { geometry: Mesh::new(&part.geometry), material });
            k = k + 1;
        }
        Ok(Model { parts: gms })
    }

    /// The geometry-material pairs of this model.
    pub fn parts(&self) -> (r: &Vec<Gm>)
        ensures
            r == self.parts,
    {
        &self.parts
    }
}

} // verus!
