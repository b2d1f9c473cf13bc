//! Lights and the draw-time binding glue.
//!
//! Each directional or spot light owns one uniform buffer and one
//! shadow-map texture; each point light owns one uniform buffer; the
//! ambient light contributes one additive color term outside the per-light
//! sequence. The names bound here come from the same functions the shader
//! composer declares them with, so the index used for the i-th light of a
//! kind always matches on both sides.

use vstd::prelude::*;

use crate::context::BindingRecord;
use crate::context::BoundResource;
use crate::context::Context;
use crate::error::RendererError;
use crate::shader::dir_block_name;
use crate::shader::dir_shadow_name;
use crate::shader::point_block_name;
use crate::shader::spec_dir_block_name;
use crate::shader::spec_dir_shadow_name;
use crate::shader::spec_point_block_name;
use crate::shader::spec_spot_block_name;
use crate::shader::spec_spot_shadow_name;
use crate::shader::spot_block_name;
use crate::shader::spot_shadow_name;

verus! {

/// The fixed per-pass budget of light slots per kind. A scene exceeding it
/// is a configuration error reported at bind time, never silently
/// truncated.
pub const MAX_LIGHTS_PER_KIND: usize = 16;

/// An ambient light: one additive radiance term, its three channels carried
/// as widened values.
#[derive(Clone, Copy, Debug, PartialEq, Eq, Structural)]
pub struct AmbientLight {
    pub color_x: u32,
    pub color_y: u32,
    pub color_z: u32,
}

/// A directional light: one uniform buffer and one shadow map.
#[derive(Clone, Copy, Debug, PartialEq, Eq, Structural)]
pub struct DirectionalLight {
    pub buffer_id: usize,
    pub shadow_map_id: usize,
}

/// A spot light: one uniform buffer and one shadow map.
#[derive(Clone, Copy, Debug, PartialEq, Eq, Structural)]
pub struct SpotLight {
    pub buffer_id: usize,
    pub shadow_map_id: usize,
}

/// A point light: one uniform buffer, no shadow map.
#[derive(Clone, Copy, Debug, PartialEq, Eq, Structural)]
pub struct PointLight {
    pub buffer_id: usize,
}

/// The lights active in a render pass.
#[derive(Clone, Debug, PartialEq)]
pub struct Lights {
    pub ambient: Option<AmbientLight>,
    pub directional: Vec<DirectionalLight>,
    pub spot: Vec<SpotLight>,
    pub point: Vec<PointLight>,
}

impl Lights {
    /// No light of any kind.
    pub fn none() -> (r: Lights)
        ensures
            r.ambient is None,
            r.directional@.len() == 0,
            r.spot@.len() == 0,
            r.point@.len() == 0,
    {
        Lights { ambient: None, directional: Vec::new(), spot: Vec::new(), point: Vec::new() }
    }

    /// Every kind within the per-pass light-slot budget.
    pub open spec fn spec_within_budget(self) -> bool {
        &&& self.directional@.len() <= MAX_LIGHTS_PER_KIND
        &&& self.spot@.len() <= MAX_LIGHTS_PER_KIND
        &&& self.point@.len() <= MAX_LIGHTS_PER_KIND
    }

    pub fn within_budget(&self) -> (r: bool)
        ensures
            r == self.spec_within_budget(),
    {
        self.directional.len() <= MAX_LIGHTS_PER_KIND && self.spot.len() <= MAX_LIGHTS_PER_KIND
            && self.point.len() <= MAX_LIGHTS_PER_KIND
    }
}

/// The number of binding records that binding these lights appends: the
/// ambient term, a shadow map and a uniform block per directional and spot
/// light, and a uniform block per point light.
pub open spec fn spec_light_binding_count(nd: int, ns: int, np: int) -> int {
    1 + 2 * nd + 2 * ns + np
}

/// The binding records starting at position `at` of `s` are exactly the
/// bindings of these lights for `program`, in fixed order: the ambient
/// color (zero if absent), then per directional light i its shadow map
/// under the composed sampler name for i and its buffer under the composed
/// block name for i, then the same for spot lights, then per point light
/// its buffer — indices ascending, matching the order and the names of the
/// composed source.
pub open spec fn spec_lights_bound_at(
    s: Seq<BindingRecord>,
    at: int,
    program: usize,
    ambient: Option<AmbientLight>,
    dir: Seq<DirectionalLight>,
    spot: Seq<SpotLight>,
    point: Seq<PointLight>,
) -> bool {
    &&& s.len() >= at + spec_light_binding_count(dir.len() as int, spot.len() as int, point.len() as int)
    &&& s[at].program == program
    &&& s[at].name@ == "ambientColor"@
    &&& s[at].resource == (match ambient {
        Some(a) => BoundResource::Vec3 { x: a.color_x, y: a.color_y, z: a.color_z },
        None => BoundResource::Vec3 { x: 0, y: 0, z: 0 },
    })
    &&& forall|i: int|
        0 <= i < dir.len() ==> {
            let rec = #[trigger] s[at + 1 + 2 * i];
            &&& rec.program == program
            &&& rec.name@ == spec_dir_shadow_name(i as nat)
            &&& rec.resource == BoundResource::Texture(dir[i].shadow_map_id)
        }
    &&& forall|i: int|
        0 <= i < dir.len() ==> {
            let rec = #[trigger] s[at + 2 + 2 * i];
            &&& rec.program == program
            &&& rec.name@ == spec_dir_block_name(i as nat)
            &&& rec.resource == BoundResource::UniformBlock(dir[i].buffer_id)
        }
    &&& forall|i: int|
        0 <= i < spot.len() ==> {
            let rec = #[trigger] s[at + 1 + 2 * dir.len() + 2 * i];
            &&& rec.program == program
            &&& rec.name@ == spec_spot_shadow_name(i as nat)
            &&& rec.resource == BoundResource::Texture(spot[i].shadow_map_id)
        }
    &&& forall|i: int|
        0 <= i < spot.len() ==> {
            let rec = #[trigger] s[at + 2 + 2 * dir.len() + 2 * i];
            &&& rec.program == program
            &&& rec.name@ == spec_spot_block_name(i as nat)
            &&& rec.resource == BoundResource::UniformBlock(spot[i].buffer_id)
        }
    &&& forall|i: int|
        0 <= i < point.len() ==> {
            let rec = #[trigger] s[at + 1 + 2 * dir.len() + 2 * spot.len() + i];
            &&& rec.program == program
            &&& rec.name@ == spec_point_block_name(i as nat)
            &&& rec.resource == BoundResource::UniformBlock(point[i].buffer_id)
        }
}

/// Binds the lights' uniform buffers, shadow maps and the ambient term to
/// `program`: first the ambient color (zero if no ambient light), then per
/// directional light its shadow map and uniform block, then per spot light
/// the same, then per point light its uniform block, indices ascending.
/// Fails, binding nothing, exactly when a kind exceeds the light-slot
/// budget.
pub fn bind_lights(
    ctx: &mut Context,
    program: usize,
    ambient: Option<&AmbientLight>,
    directional: &Vec<DirectionalLight>,
    spot: &Vec<SpotLight>,
    point: &Vec<PointLight>,
) -> (r: Result<(), RendererError>)
    requires
        program < old(ctx).programs@.len(),
        forall|k: int|
            0 <= k < directional@.len() ==> (#[trigger] directional@[k]).shadow_map_id < old(
                ctx,
            ).textures@.len(),
        forall|k: int|
            0 <= k < spot@.len() ==> (#[trigger] spot@[k]).shadow_map_id < old(
                ctx,
            ).textures@.len(),
    ensures
        match r {
            Ok(()) => {
                &&& directional@.len() <= MAX_LIGHTS_PER_KIND
                &&& spot@.len() <= MAX_LIGHTS_PER_KIND
                &&& point@.len() <= MAX_LIGHTS_PER_KIND
                &&& final(ctx).bindings@.len() == old(ctx).bindings@.len()
                    + spec_light_binding_count(
                    directional@.len() as int,
                    spot@.len() as int,
                    point@.len() as int,
                )
                &&& forall|j: int|
                    0 <= j < old(ctx).bindings@.len() ==> final(ctx).bindings@[j] == old(
                        ctx,
                    ).bindings@[j]
                &&& spec_lights_bound_at(
                    final(ctx).bindings@,
                    old(ctx).bindings@.len() as int,
                    program,
                    match ambient {
                        Some(a) => Some(*a),
                        None => None,
                    },
                    directional@,
                    spot@,
                    point@,
                )
                &&& Context::same_but_bindings(*old(ctx), *final(ctx))
            },
            Err(e) => {
                &&& e is ContextError
                &&& !(directional@.len() <= MAX_LIGHTS_PER_KIND && spot@.len()
                    <= MAX_LIGHTS_PER_KIND && point@.len() <= MAX_LIGHTS_PER_KIND)
                &&& *final(ctx) == *old(ctx)
            },
        },
{
    if directional.len() > MAX_LIGHTS_PER_KIND || spot.len() > MAX_LIGHTS_PER_KIND || point.len()
        > MAX_LIGHTS_PER_KIND {
        return Err(
            RendererError::ContextError {
                message: String::from_str("light-slot budget exceeded"),
            },
        );
    }
    let ghost base = ctx.bindings@.len() as int;
    match ambient {
        Option::Some(a) => {
            let res = ctx.use_uniform_vec3(
                program,
                String::from_str("ambientColor"),
                a.color_x,
                a.color_y,
                a.color_z,
            );
            if let Err(e) = res {
                return Err(e);
            }
        },
        Option::None => {
            let res = ctx.use_uniform_vec3(program, String::from_str("ambientColor"), 0, 0, 0);
            if let Err(e) = res {
                return Err(e);
            }
        },
    }
    let mut i: usize = 0;
    while i < directional.len()
        invariant
            program < ctx.programs@.len(),
            forall|k: int|
                0 <= k < directional@.len() ==> (#[trigger] directional@[k]).shadow_map_id
                    < ctx.textures@.len(),
            i <= directional@.len(),
            0 <= base,
            ctx.bindings@.len() == base + 1 + 2 * i,
            forall|j: int| 0 <= j < base ==> ctx.bindings@[j] == old(ctx).bindings@[j],
            ctx.bindings@[base].program == program,
            ctx.bindings@[base].name@ == "ambientColor"@,
            ctx.bindings@[base].resource == (match ambient {
                Some(a) => BoundResource::Vec3 { x: a.color_x, y: a.color_y, z: a.color_z },
                None => BoundResource::Vec3 { x: 0, y: 0, z: 0 },
            }),
            forall|k: int|
                0 <= k < i ==> {
                    let rec = #[trigger] ctx.bindings@[base + 1 + 2 * k];
                    &&& rec.program == program
                    &&& rec.name@ == spec_dir_shadow_name(k as nat)
                    &&& rec.resource == BoundResource::Texture(directional@[k].shadow_map_id)
                },
            forall|k: int|
                0 <= k < i ==> {
                    let rec = #[trigger] ctx.bindings@[base + 2 + 2 * k];
                    &&& rec.program == program
                    &&& rec.name@ == spec_dir_block_name(k as nat)
                    &&& rec.resource == BoundResource::UniformBlock(directional@[k].buffer_id)
                },
            Context::same_but_bindings(*old(ctx), *ctx),
        decreases directional@.len() - i,
    {
        let res = ctx.use_texture(program, dir_shadow_name(i), directional[i].shadow_map_id);
        if let Err(e) = res {
            return Err(e);
        }
        ctx.use_uniform_block(program, dir_block_name(i), directional[i].buffer_id);
        i = i + 1;
    }
    let ghost dir_end = base + 1 + 2 * directional@.len() as int;
    let mut i: usize = 0;
    while i < spot.len()
        invariant
            program < ctx.programs@.len(),
            forall|k: int|
                0 <= k < spot@.len() ==> (#[trigger] spot@[k]).shadow_map_id
                    < ctx.textures@.len(),
            i <= spot@.len(),
            0 <= base,
            dir_end == base + 1 + 2 * directional@.len() as int,
            ctx.bindings@.len() == dir_end + 2 * i,
            forall|j: int| 0 <= j < base ==> ctx.bindings@[j] == old(ctx).bindings@[j],
            ctx.bindings@[base].program == program,
            ctx.bindings@[base].name@ == "ambientColor"@,
            ctx.bindings@[base].resource == (match ambient {
                Some(a) => BoundResource::Vec3 { x: a.color_x, y: a.color_y, z: a.color_z },
                None => BoundResource::Vec3 { x: 0, y: 0, z: 0 },
            }),
            forall|k: int|
                0 <= k < directional@.len() ==> {
                    let rec = #[trigger] ctx.bindings@[base + 1 + 2 * k];
                    &&& rec.program == program
                    &&& rec.name@ == spec_dir_shadow_name(k as nat)
                    &&& rec.resource == BoundResource::Texture(directional@[k].shadow_map_id)
                },
            forall|k: int|
                0 <= k < directional@.len() ==> {
                    let rec = #[trigger] ctx.bindings@[base + 2 + 2 * k];
                    &&& rec.program == program
                    &&& rec.name@ == spec_dir_block_name(k as nat)
                    &&& rec.resource == BoundResource::UniformBlock(directional@[k].buffer_id)
                },
            forall|k: int|
                0 <= k < i ==> {
                    let rec = #[trigger] ctx.bindings@[dir_end + 2 * k];
                    &&& rec.program == program
                    &&& rec.name@ == spec_spot_shadow_name(k as nat)
                    &&& rec.resource == BoundResource::Texture(spot@[k].shadow_map_id)
                },
            forall|k: int|
                0 <= k < i ==> {
                    let rec = #[trigger] ctx.bindings@[dir_end + 1 + 2 * k];
                    &&& rec.program == program
                    &&& rec.name@ == spec_spot_block_name(k as nat)
                    &&& rec.resource == BoundResource::UniformBlock(spot@[k].buffer_id)
                },
            Context::same_but_bindings(*old(ctx), *ctx),
        decreases spot@.len() - i,
    {
        let res = ctx.use_texture(program, spot_shadow_name(i), spot[i].shadow_map_id);
        if let Err(e) = res {
            return Err(e);
        }
        ctx.use_uniform_block(program, spot_block_name(i), spot[i].buffer_id);
        i = i + 1;
    }
    let ghost spot_end = dir_end + 2 * spot@.len() as int;
    let mut i: usize = 0;
    while i < point.len()
        invariant
            program < ctx.programs@.len(),
            i <= point@.len(),
            0 <= base,
            dir_end == base + 1 + 2 * directional@.len() as int,
            spot_end == dir_end + 2 * spot@.len() as int,
            ctx.bindings@.len() == spot_end + i,
            forall|j: int| 0 <= j < base ==> ctx.bindings@[j] == old(ctx).bindings@[j],
            ctx.bindings@[base].program == program,
            ctx.bindings@[base].name@ == "ambientColor"@,
            ctx.bindings@[base].resource == (match ambient {
                Some(a) => BoundResource::Vec3 { x: a.color_x, y: a.color_y, z: a.color_z },
                None => BoundResource::Vec3 { x: 0, y: 0, z: 0 },
            }),
            forall|k: int|
                0 <= k < directional@.len() ==> {
                    let rec = #[trigger] ctx.bindings@[base + 1 + 2 * k];
                    &&& rec.program == program
                    &&& rec.name@ == spec_dir_shadow_name(k as nat)
                    &&& rec.resource == BoundResource::Texture(directional@[k].shadow_map_id)
                },
            forall|k: int|
                0 <= k < directional@.len() ==> {
                    let rec = #[trigger] ctx.bindings@[base + 2 + 2 * k];
                    &&& rec.program == program
                    &&& rec.name@ == spec_dir_block_name(k as nat)
                    &&& rec.resource == BoundResource::UniformBlock(directional@[k].buffer_id)
                },
            forall|k: int|
                0 <= k < spot@.len() ==> {
                    let rec = #[trigger] ctx.bindings@[dir_end + 2 * k];
                    &&& rec.program == program
                    &&& rec.name@ == spec_spot_shadow_name(k as nat)
                    &&& rec.resource == BoundResource::Texture(spot@[k].shadow_map_id)
                },
            forall|k: int|
                0 <= k < spot@.len() ==> {
                    let rec = #[trigger] ctx.bindings@[dir_end + 1 + 2 * k];
                    &&& rec.program == program
                    &&& rec.name@ == spec_spot_block_name(k as nat)
                    &&& rec.resource == BoundResource::UniformBlock(spot@[k].buffer_id)
                },
            forall|k: int|
                0 <= k < i ==> {
                    let rec = #[trigger] ctx.bindings@[spot_end + k];
                    &&& rec.program == program
                    &&& rec.name@ == spec_point_block_name(k as nat)
                    &&& rec.resource == BoundResource::UniformBlock(point@[k].buffer_id)
                },
            Context::same_but_bindings(*old(ctx), *ctx),
        decreases point@.len() - i,
    {
        ctx.use_uniform_block(program, point_block_name(i), point[i].buffer_id);
        i = i + 1;
    }
    proof {
        assert(spec_lights_bound_at(
            ctx.bindings@,
            base,
            program,
            match ambient {
                Some(a) => Some(*a),
                None => None,
            },
            directional@,
            spot@,
            point@,
        ));
    }
    Ok(())
}

} // verus!
