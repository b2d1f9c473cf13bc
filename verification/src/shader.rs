//! Pure shader-source composition.
//!
//! Lighting and material feature combinations are unbounded, so program text
//! is synthesized per combination of light counts, material shader body and
//! pass kind. Composition is a pure, order-sensitive text assembly: equal
//! source keys always yield byte-identical text, and changing the light
//! counts — any of them, singly or together — the body, or the pass kind
//! changes the text.

use vstd::prelude::*;

verus! {

/// Which render pass a program is composed for. Forward and deferred
/// programs never share cache entries: the pass kind is part of the key.
#[derive(Clone, Copy, Debug, PartialEq, Eq, Structural)]
pub enum PassKind {
    Forward,
    Deferred,
}

/// The cache key of a composed program: material shader body identity plus
/// the three light counts and the pass kind. Two keys are equal iff all five
/// components are equal.
#[derive(Clone, Debug)]
pub struct SourceKey {
    pub material_body: String,
    pub directional_count: usize,
    pub spot_count: usize,
    pub point_count: usize,
    pub pass: PassKind,
}

/// Equality of source keys: all five components equal.
pub open spec fn key_eqv(a: SourceKey, b: SourceKey) -> bool {
    &&& a.material_body@ == b.material_body@
    &&& a.directional_count == b.directional_count
    &&& a.spot_count == b.spot_count
    &&& a.point_count == b.point_count
    &&& a.pass == b.pass
}

impl SourceKey {
    pub fn key_eq(&self, other: &SourceKey) -> (r: bool)
        ensures
            r == key_eqv(*self, *other),
    {
        self.material_body == other.material_body && self.directional_count
            == other.directional_count && self.spot_count == other.spot_count && self.point_count
            == other.point_count && self.pass == other.pass
    }

    pub fn duplicate(&self) -> (r: SourceKey)
        ensures
            key_eqv(r, *self),
    {
        SourceKey {
            material_body: self.material_body.clone(),
            directional_count: self.directional_count,
            spot_count: self.spot_count,
            point_count: self.point_count,
            pass: self.pass,
        }
    }
}

// ---------------------------------------------------------------------------
// Decimal rendering of light indices.
// ---------------------------------------------------------------------------
/// The decimal digit character for `d < 10`.
pub open spec fn spec_digit(d: nat) -> char {
    if d == 0 {
        '0'
    } else if d == 1 {
        '1'
    } else if d == 2 {
        '2'
    } else if d == 3 {
        '3'
    } else if d == 4 {
        '4'
    } else if d == 5 {
        '5'
    } else if d == 6 {
        '6'
    } else if d == 7 {
        '7'
    } else if d == 8 {
        '8'
    } else {
        '9'
    }
}

/// The decimal rendering of `n`, most significant digit first.
pub open spec fn dec_rep(n: nat) -> Seq<char>
    decreases n,
{
    if n < 10 {
        seq![spec_digit(n)]
    } else {
        dec_rep(n / 10).push(spec_digit(n % 10))
    }
}

fn digit_str(d: usize) -> (r: &'static str)
    requires
        d < 10,
    ensures
        r@ == seq![spec_digit(d as nat)],
{
    proof {
        reveal_strlit("0");
        reveal_strlit("1");
        reveal_strlit("2");
        reveal_strlit("3");
        reveal_strlit("4");
        reveal_strlit("5");
        reveal_strlit("6");
        reveal_strlit("7");
        reveal_strlit("8");
        reveal_strlit("9");
    }
    let r = match d {
        0 => "0",
        1 => "1",
        2 => "2",
        3 => "3",
        4 => "4",
        5 => "5",
        6 => "6",
        7 => "7",
        8 => "8",
        _ => "9",
    };
    proof {
        assert(r@ =~= seq![spec_digit(d as nat)]);
    }
    r
}

/// Renders `n` in decimal.
pub fn usize_to_decimal(n: usize) -> (r: String)
    ensures
        r@ == dec_rep(n as nat),
    decreases n,
{
    if n < 10 {
        String::from_str(digit_str(n))
    } else {
        let mut s = usize_to_decimal(n / 10);
        s.append(digit_str(n % 10));
        proof {
            assert(s@ =~= dec_rep(n as nat));
        }
        s
    }
}

// ---------------------------------------------------------------------------
// The names shared by composition and draw-time binding.
//
// The index used for the i-th light of a kind when composing source must
// match the index used when binding that light's uniform buffer or shadow
// map; both sides therefore go through these functions.
// ---------------------------------------------------------------------------
pub open spec fn spec_dir_shadow_name(i: nat) -> Seq<char> {
    "directionalShadowMap"@ + dec_rep(i)
}

pub open spec fn spec_dir_block_name(i: nat) -> Seq<char> {
    "DirectionalLightUniform"@ + dec_rep(i)
}

pub open spec fn spec_spot_shadow_name(i: nat) -> Seq<char> {
    "spotShadowMap"@ + dec_rep(i)
}

pub open spec fn spec_spot_block_name(i: nat) -> Seq<char> {
    "SpotLightUniform"@ + dec_rep(i)
}

pub open spec fn spec_point_block_name(i: nat) -> Seq<char> {
    "PointLightUniform"@ + dec_rep(i)
}

fn name_with_index(prefix: &str, i: usize) -> (r: String)
    ensures
        r@ == prefix@ + dec_rep(i as nat),
{
    let mut s = String::from_str(prefix);
    let d = usize_to_decimal(i);
    s.append(d.as_str());
    s
}

/// The sampler name of the i-th directional light's shadow map.
pub fn dir_shadow_name(i: usize) -> (r: String)
    ensures
        r@ == spec_dir_shadow_name(i as nat),
{
    name_with_index("directionalShadowMap", i)
}

/// The uniform-block name of the i-th directional light.
pub fn dir_block_name(i: usize) -> (r: String)
    ensures
        r@ == spec_dir_block_name(i as nat),
{
    name_with_index("DirectionalLightUniform", i)
}

/// The sampler name of the i-th spot light's shadow map.
pub fn spot_shadow_name(i: usize) -> (r: String)
    ensures
        r@ == spec_spot_shadow_name(i as nat),
{
    name_with_index("spotShadowMap", i)
}

/// The uniform-block name of the i-th spot light.
pub fn spot_block_name(i: usize) -> (r: String)
    ensures
        r@ == spec_spot_block_name(i as nat),
{
    name_with_index("SpotLightUniform", i)
}

/// The uniform-block name of the i-th point light.
pub fn point_block_name(i: usize) -> (r: String)
    ensures
        r@ == spec_point_block_name(i as nat),
{
    name_with_index("PointLightUniform", i)
}

// ---------------------------------------------------------------------------
// Per-light declarations and lighting-function calls.
// ---------------------------------------------------------------------------
/// Shadow-map sampler and uniform-block declaration of directional light `i`.
pub open spec fn spec_dir_decl(i: nat) -> Seq<char> {
    "uniform sampler2D "@ + spec_dir_shadow_name(i) + ";\nlayout (std140) uniform "@
        + spec_dir_block_name(i) + "\n{\n    DirectionalLight directionalLight"@ + dec_rep(i)
        + ";\n};\n"@
}

/// Shadow-map sampler and uniform-block declaration of spot light `i`.
pub open spec fn spec_spot_decl(i: nat) -> Seq<char> {
    "uniform sampler2D "@ + spec_spot_shadow_name(i) + ";\nlayout (std140) uniform "@
        + spec_spot_block_name(i) + "\n{\n    SpotLight spotLight"@ + dec_rep(i) + ";\n};\n"@
}

/// Uniform-block declaration of point light `i` (point lights carry no
/// shadow map).
pub open spec fn spec_point_decl(i: nat) -> Seq<char> {
    "layout (std140) uniform "@ + spec_point_block_name(i) + "\n{\n    PointLight pointLight"@
        + dec_rep(i) + ";\n};\n"@
}

/// The lighting-accumulation call for directional light `i`.
pub open spec fn spec_dir_call(i: nat) -> Seq<char> {
    "    color.rgb += calculate_directional_light(directionalLight"@ + dec_rep(i)
        + ", surface_color, position, normal, diffuse_intensity, specular_intensity, specular_power, "@
        + spec_dir_shadow_name(i) + ");\n"@
}

/// The lighting-accumulation call for spot light `i`.
pub open spec fn spec_spot_call(i: nat) -> Seq<char> {
    "    color.rgb += calculate_spot_light(spotLight"@ + dec_rep(i)
        + ", surface_color, position, normal, diffuse_intensity, specular_intensity, specular_power, "@
        + spec_spot_shadow_name(i) + ");\n"@
}

/// The lighting-accumulation call for point light `i`.
pub open spec fn spec_point_call(i: nat) -> Seq<char> {
    "    color.rgb += calculate_point_light(pointLight"@ + dec_rep(i)
        + ", surface_color, position, normal, diffuse_intensity, specular_intensity, specular_power);\n"@
}

fn dir_decl(i: usize) -> (r: String)
    ensures
        r@ == spec_dir_decl(i as nat),
{
    let mut s = String::from_str("uniform sampler2D ");
    let shadow = dir_shadow_name(i);
    s.append(shadow.as_str());
    s.append(";\nlayout (std140) uniform ");
    let block = dir_block_name(i);
    s.append(block.as_str());
    s.append("\n{\n    DirectionalLight directionalLight");
    let d = usize_to_decimal(i);
    s.append(d.as_str());
    s.append(";\n};\n");
    proof {
        assert(s@ =~= spec_dir_decl(i as nat));
    }
    s
}

fn spot_decl(i: usize) -> (r: String)
    ensures
        r@ == spec_spot_decl(i as nat),
{
    let mut s = String::from_str("uniform sampler2D ");
    let shadow = spot_shadow_name(i);
    s.append(shadow.as_str());
    s.append(";\nlayout (std140) uniform ");
    let block = spot_block_name(i);
    s.append(block.as_str());
    s.append("\n{\n    SpotLight spotLight");
    let d = usize_to_decimal(i);
    s.append(d.as_str());
    s.append(";\n};\n");
    proof {
        assert(s@ =~= spec_spot_decl(i as nat));
    }
    s
}

fn point_decl(i: usize) -> (r: String)
    ensures
        r@ == spec_point_decl(i as nat),
{
    let mut s = String::from_str("layout (std140) uniform ");
    let block = point_block_name(i);
    s.append(block.as_str());
    s.append("\n{\n    PointLight pointLight");
    let d = usize_to_decimal(i);
    s.append(d.as_str());
    s.append(";\n};\n");
    proof {
        assert(s@ =~= spec_point_decl(i as nat));
    }
    s
}

fn dir_call(i: usize) -> (r: String)
    ensures
        r@ == spec_dir_call(i as nat),
{
    let mut s = String::from_str("    color.rgb += calculate_directional_light(directionalLight");
    let d = usize_to_decimal(i);
    s.append(d.as_str());
    s.append(
        ", surface_color, position, normal, diffuse_intensity, specular_intensity, specular_power, ",
    );
    let shadow = dir_shadow_name(i);
    s.append(shadow.as_str());
    s.append(");\n");
    proof {
        assert(s@ =~= spec_dir_call(i as nat));
    }
    s
}

fn spot_call(i: usize) -> (r: String)
    ensures
        r@ == spec_spot_call(i as nat),
{
    let mut s = String::from_str("    color.rgb += calculate_spot_light(spotLight");
    let d = usize_to_decimal(i);
    s.append(d.as_str());
    s.append(
        ", surface_color, position, normal, diffuse_intensity, specular_intensity, specular_power, ",
    );
    let shadow = spot_shadow_name(i);
    s.append(shadow.as_str());
    s.append(");\n");
    proof {
        assert(s@ =~= spec_spot_call(i as nat));
    }
    s
}

fn point_call(i: usize) -> (r: String)
    ensures
        r@ == spec_point_call(i as nat),
{
    let mut s = String::from_str("    color.rgb += calculate_point_light(pointLight");
    let d = usize_to_decimal(i);
    s.append(d.as_str());
    s.append(
        ", surface_color, position, normal, diffuse_intensity, specular_intensity, specular_power);\n",
    );
    proof {
        assert(s@ =~= spec_point_call(i as nat));
    }
    s
}

// ---------------------------------------------------------------------------
// Concatenated declaration and call blocks, index ascending.
// ---------------------------------------------------------------------------
pub open spec fn spec_dir_decls(n: nat) -> Seq<char>
    decreases n,
{
    if n == 0 {
        Seq::empty()
    } else {
        spec_dir_decls((n - 1) as nat) + spec_dir_decl((n - 1) as nat)
    }
}

pub open spec fn spec_spot_decls(n: nat) -> Seq<char>
    decreases n,
{
    if n == 0 {
        Seq::empty()
    } else {
        spec_spot_decls((n - 1) as nat) + spec_spot_decl((n - 1) as nat)
    }
}

pub open spec fn spec_point_decls(n: nat) -> Seq<char>
    decreases n,
{
    if n == 0 {
        Seq::empty()
    } else {
        spec_point_decls((n - 1) as nat) + spec_point_decl((n - 1) as nat)
    }
}

pub open spec fn spec_dir_calls(n: nat) -> Seq<char>
    decreases n,
{
    if n == 0 {
        Seq::empty()
    } else {
        spec_dir_calls((n - 1) as nat) + spec_dir_call((n - 1) as nat)
    }
}

pub open spec fn spec_spot_calls(n: nat) -> Seq<char>
    decreases n,
{
    if n == 0 {
        Seq::empty()
    } else {
        spec_spot_calls((n - 1) as nat) + spec_spot_call((n - 1) as nat)
    }
}

pub open spec fn spec_point_calls(n: nat) -> Seq<char>
    decreases n,
{
    if n == 0 {
        Seq::empty()
    } else {
        spec_point_calls((n - 1) as nat) + spec_point_call((n - 1) as nat)
    }
}

fn dir_decls(n: usize) -> (r: String)
    ensures
        r@ == spec_dir_decls(n as nat),
{
    let mut s = String::new();
    let mut i: usize = 0;
    while i < n
        invariant
            i <= n,
            s@ == spec_dir_decls(i as nat),
        decreases n - i,
    {
        let piece = dir_decl(i);
        s.append(piece.as_str());
        i = i + 1;
    }
    s
}

fn spot_decls(n: usize) -> (r: String)
    ensures
        r@ == spec_spot_decls(n as nat),
{
    let mut s = String::new();
    let mut i: usize = 0;
    while i < n
        invariant
            i <= n,
            s@ == spec_spot_decls(i as nat),
        decreases n - i,
    {
        let piece = spot_decl(i);
        s.append(piece.as_str());
        i = i + 1;
    }
    s
}

fn point_decls(n: usize) -> (r: String)
    ensures
        r@ == spec_point_decls(n as nat),
{
    let mut s = String::new();
    let mut i: usize = 0;
    while i < n
        invariant
            i <= n,
            s@ == spec_point_decls(i as nat),
        decreases n - i,
    {
        let piece = point_decl(i);
        s.append(piece.as_str());
        i = i + 1;
    }
    s
}

fn dir_calls(n: usize) -> (r: String)
    ensures
        r@ == spec_dir_calls(n as nat),
{
    let mut s = String::new();
    let mut i: usize = 0;
    while i < n
        invariant
            i <= n,
            s@ == spec_dir_calls(i as nat),
        decreases n - i,
    {
        let piece = dir_call(i);
        s.append(piece.as_str());
        i = i + 1;
    }
    s
}

fn spot_calls(n: usize) -> (r: String)
    ensures
        r@ == spec_spot_calls(n as nat),
{
    let mut s = String::new();
    let mut i: usize = 0;
    while i < n
        invariant
            i <= n,
            s@ == spec_spot_calls(i as nat),
        decreases n - i,
    {
        let piece = spot_call(i);
        s.append(piece.as_str());
        i = i + 1;
    }
    s
}

fn point_calls(n: usize) -> (r: String)
    ensures
        r@ == spec_point_calls(n as nat),
{
    let mut s = String::new();
    let mut i: usize = 0;
    while i < n
        invariant
            i <= n,
            s@ == spec_point_calls(i as nat),
        decreases n - i,
    {
        let piece = point_call(i);
        s.append(piece.as_str());
        i = i + 1;
    }
    s
}

// ---------------------------------------------------------------------------
// Fixed text: shared header utilities, shared lighting-model utility code,
// the per-pass prologue, and the epilogue.
// ---------------------------------------------------------------------------
/// Shared header utilities, emitted first in every composed program.
pub open spec fn spec_shared_header() -> Seq<char> {
    "precision highp float;\nprecision highp int;\nin vec3 position;\nin vec3 normal;\nlayout (location = 0) out vec4 outColor;\n"@
}

/// The shared lighting-model utility code: light structures and the per-kind
/// contribution functions that composed calls accumulate through.
pub open spec fn spec_light_shared() -> Seq<char> {
    "struct BaseLight\n{\n    vec3 color;\n    float intensity;\n};\nstruct DirectionalLight\n{\n    BaseLight base;\n    vec3 direction;\n    mat4 shadowMVP;\n};\nstruct SpotLight\n{\n    BaseLight base;\n    vec3 direction;\n    vec3 position;\n    float cutoff;\n    mat4 shadowMVP;\n};\nstruct PointLight\n{\n    BaseLight base;\n    vec3 position;\n};\nvec3 calculate_directional_light(DirectionalLight light, vec3 surface_color, vec3 position, vec3 normal, float diffuse_intensity, float specular_intensity, float specular_power, sampler2D shadowMap);\nvec3 calculate_spot_light(SpotLight light, vec3 surface_color, vec3 position, vec3 normal, float diffuse_intensity, float specular_intensity, float specular_power, sampler2D shadowMap);\nvec3 calculate_point_light(PointLight light, vec3 surface_color, vec3 position, vec3 normal, float diffuse_intensity, float specular_intensity, float specular_power);\n"@
}

/// The pass-kind marker. The two prologues have different lengths, so two
/// sources composed for different pass kinds can never coincide.
pub open spec fn spec_pass_prologue(pass: PassKind) -> Seq<char> {
    match pass {
        PassKind::Forward => "#define FORWARD_PASS\n"@,
        PassKind::Deferred => "#define DEFERRED_GEOMETRY_PASS\n"@,
    }
}

/// The fixed epilogue, emitted last.
pub open spec fn spec_epilogue() -> Seq<char> {
    "void main()\n{\n    fragment();\n}\n"@
}

/// The ambient declaration and the lighting-accumulation function. The
/// ambient term is added once, outside the per-light sequence, from a single
/// ambient-color uniform; then the per-kind contributions are invoked in
/// fixed order: directional, spot, point, each index ascending.
pub open spec fn spec_light_fn(nd: nat, ns: nat, np: nat) -> Seq<char> {
    "void calculate_lighting(inout vec4 color, vec3 surface_color, vec3 position, vec3 normal, float diffuse_intensity, float specular_intensity, float specular_power)\n{\n    color.rgb += ambientColor;\n"@
        + spec_dir_calls(nd) + spec_spot_calls(ns) + spec_point_calls(np) + "}\n"@
}

/// The block of steps 1 and 2: per-light declarations (directional, spot,
/// point, index ascending), the ambient uniform, and the
/// lighting-accumulation function.
pub open spec fn spec_light_block(nd: nat, ns: nat, np: nat) -> Seq<char> {
    "uniform vec3 ambientColor;\n"@ + spec_dir_decls(nd) + spec_spot_decls(ns) + spec_point_decls(
        np,
    ) + spec_light_fn(nd, ns, np)
}

/// The full composed fragment source: shared header, shared lighting-model
/// utilities, pass prologue, light block, material body, fixed epilogue, in
/// that order.
pub open spec fn spec_compose(
    body: Seq<char>,
    nd: nat,
    ns: nat,
    np: nat,
    pass: PassKind,
) -> Seq<char> {
    spec_shared_header() + spec_light_shared() + spec_pass_prologue(pass) + spec_light_block(
        nd,
        ns,
        np,
    ) + body + spec_epilogue()
}

/// Composes the complete fragment-program source for a material shader body
/// and a number of directional, spot and point lights under a pass kind.
///
/// Composition is pure: the result is exactly `spec_compose` of the inputs,
/// so equal inputs always yield byte-identical text.
#[verifier::rlimit(60)]
pub fn compose_fragment_source(
    body: &str,
    directional_lights: usize,
    spot_lights: usize,
    point_lights: usize,
    pass: PassKind,
) -> (r: String)
    ensures
        r@ == spec_compose(
            body@,
            directional_lights as nat,
            spot_lights as nat,
            point_lights as nat,
            pass,
        ),
{
    let mut s = String::from_str(
        "precision highp float;\nprecision highp int;\nin vec3 position;\nin vec3 normal;\nlayout (location = 0) out vec4 outColor;\n",
    );
    s.append(
        "struct BaseLight\n{\n    vec3 color;\n    float intensity;\n};\nstruct DirectionalLight\n{\n    BaseLight base;\n    vec3 direction;\n    mat4 shadowMVP;\n};\nstruct SpotLight\n{\n    BaseLight base;\n    vec3 direction;\n    vec3 position;\n    float cutoff;\n    mat4 shadowMVP;\n};\nstruct PointLight\n{\n    BaseLight base;\n    vec3 position;\n};\nvec3 calculate_directional_light(DirectionalLight light, vec3 surface_color, vec3 position, vec3 normal, float diffuse_intensity, float specular_intensity, float specular_power, sampler2D shadowMap);\nvec3 calculate_spot_light(SpotLight light, vec3 surface_color, vec3 position, vec3 normal, float diffuse_intensity, float specular_intensity, float specular_power, sampler2D shadowMap);\nvec3 calculate_point_light(PointLight light, vec3 surface_color, vec3 position, vec3 normal, float diffuse_intensity, float specular_intensity, float specular_power);\n",
    );
    match pass {
        PassKind::Forward => s.append("#define FORWARD_PASS\n"),
        PassKind::Deferred => s.append("#define DEFERRED_GEOMETRY_PASS\n"),
    }
    s.append("uniform vec3 ambientColor;\n");
    let dd = dir_decls(directional_lights);
    s.append(dd.as_str());
    let sd = spot_decls(spot_lights);
    s.append(sd.as_str());
    let pd = point_decls(point_lights);
    s.append(pd.as_str());
    s.append(
        "void calculate_lighting(inout vec4 color, vec3 surface_color, vec3 position, vec3 normal, float diffuse_intensity, float specular_intensity, float specular_power)\n{\n    color.rgb += ambientColor;\n",
    );
    let dc = dir_calls(directional_lights);
    s.append(dc.as_str());
    let sc = spot_calls(spot_lights);
    s.append(sc.as_str());
    let pc = point_calls(point_lights);
    s.append(pc.as_str());
    s.append("}\n");
    s.append(body);
    s.append("void main()\n{\n    fragment();\n}\n");
    proof {
        assert(s@ =~= spec_compose(
            body@,
            directional_lights as nat,
            spot_lights as nat,
            point_lights as nat,
            pass,
        ));
    }
    s
}

/// Composes the fragment source of a lit forward-pass program from the
/// material's shader addition and the active light counts.
pub fn phong_fragment_shader(
    shader_addition: &str,
    directional_lights: usize,
    spot_lights: usize,
    point_lights: usize,
) -> (r: String)
    ensures
        r@ == spec_compose(
            shader_addition@,
            directional_lights as nat,
            spot_lights as nat,
            point_lights as nat,
            PassKind::Forward,
        ),
{
    compose_fragment_source(
        shader_addition,
        directional_lights,
        spot_lights,
        point_lights,
        PassKind::Forward,
    )
}

// ---------------------------------------------------------------------------
// Laws of composition.
// ---------------------------------------------------------------------------
/// Composition is pure: two compositions over equal inputs (material body,
/// light counts, pass kind) yield byte-identical source.
pub proof fn lemma_compose_pure(
    body1: Seq<char>,
    body2: Seq<char>,
    nd1: nat,
    ns1: nat,
    np1: nat,
    nd2: nat,
    ns2: nat,
    np2: nat,
    pass1: PassKind,
    pass2: PassKind,
)
    requires
        body1 == body2,
        nd1 == nd2,
        ns1 == ns2,
        np1 == np2,
        pass1 == pass2,
    ensures
        spec_compose(body1, nd1, ns1, np1, pass1) == spec_compose(body2, nd2, ns2, np2, pass2),
{
}

proof fn lemma_dir_pieces_nonempty(i: nat)
    ensures
        spec_dir_decl(i).len() >= 1,
        spec_dir_call(i).len() >= 1,
{
    reveal_strlit("uniform sampler2D ");
    reveal_strlit("    color.rgb += calculate_directional_light(directionalLight");
}

proof fn lemma_spot_pieces_nonempty(i: nat)
    ensures
        spec_spot_decl(i).len() >= 1,
        spec_spot_call(i).len() >= 1,
{
    reveal_strlit("uniform sampler2D ");
    reveal_strlit("    color.rgb += calculate_spot_light(spotLight");
}

proof fn lemma_point_pieces_nonempty(i: nat)
    ensures
        spec_point_decl(i).len() >= 1,
        spec_point_call(i).len() >= 1,
{
    reveal_strlit("layout (std140) uniform ");
    reveal_strlit("    color.rgb += calculate_point_light(pointLight");
}

proof fn lemma_dir_len_mono(n1: nat, n2: nat)
    requires
        n1 <= n2,
    ensures
        spec_dir_decls(n1).len() <= spec_dir_decls(n2).len(),
        spec_dir_calls(n1).len() <= spec_dir_calls(n2).len(),
        n1 < n2 ==> spec_dir_decls(n1).len() < spec_dir_decls(n2).len(),
    decreases n2 - n1,
{
    if n1 < n2 {
        lemma_dir_len_mono(n1, (n2 - 1) as nat);
        lemma_dir_pieces_nonempty((n2 - 1) as nat);
    }
}

proof fn lemma_spot_len_mono(n1: nat, n2: nat)
    requires
        n1 <= n2,
    ensures
        spec_spot_decls(n1).len() <= spec_spot_decls(n2).len(),
        spec_spot_calls(n1).len() <= spec_spot_calls(n2).len(),
        n1 < n2 ==> spec_spot_decls(n1).len() < spec_spot_decls(n2).len(),
    decreases n2 - n1,
{
    if n1 < n2 {
        lemma_spot_len_mono(n1, (n2 - 1) as nat);
        lemma_spot_pieces_nonempty((n2 - 1) as nat);
    }
}

proof fn lemma_point_len_mono(n1: nat, n2: nat)
    requires
        n1 <= n2,
    ensures
        spec_point_decls(n1).len() <= spec_point_decls(n2).len(),
        spec_point_calls(n1).len() <= spec_point_calls(n2).len(),
        n1 < n2 ==> spec_point_decls(n1).len() < spec_point_decls(n2).len(),
    decreases n2 - n1,
{
    if n1 < n2 {
        lemma_point_len_mono(n1, (n2 - 1) as nat);
        lemma_point_pieces_nonempty((n2 - 1) as nat);
    }
}

/// Changing any single light count changes the composed source: with the
/// body, the pass kind, and the other two counts fixed, two different values
/// of the remaining count always compose to different text.
pub proof fn lemma_compose_count_injective(
    body: Seq<char>,
    nd1: nat,
    ns1: nat,
    np1: nat,
    nd2: nat,
    ns2: nat,
    np2: nat,
    pass: PassKind,
)
    requires
        (nd1 != nd2 && ns1 == ns2 && np1 == np2) || (nd1 == nd2 && ns1 != ns2 && np1 == np2) || (
        nd1 == nd2 && ns1 == ns2 && np1 != np2),
    ensures
        spec_compose(body, nd1, ns1, np1, pass) != spec_compose(body, nd2, ns2, np2, pass),
{
    let s1 = spec_compose(body, nd1, ns1, np1, pass);
    let s2 = spec_compose(body, nd2, ns2, np2, pass);
    if nd1 != nd2 {
        if nd1 < nd2 {
            lemma_dir_len_mono(nd1, nd2);
        } else {
            lemma_dir_len_mono(nd2, nd1);
        }
    } else if ns1 != ns2 {
        if ns1 < ns2 {
            lemma_spot_len_mono(ns1, ns2);
        } else {
            lemma_spot_len_mono(ns2, ns1);
        }
    } else {
        if np1 < np2 {
            lemma_point_len_mono(np1, np2);
        } else {
            lemma_point_len_mono(np2, np1);
        }
    }
    assert(s1.len() != s2.len());
}

proof fn lemma_decl_heads(i: nat)
    ensures
        spec_dir_decl(i).len() > 18,
        spec_dir_decl(i)[0] == 'u',
        spec_dir_decl(i)[18] == 'd',
        spec_spot_decl(i).len() > 18,
        spec_spot_decl(i)[0] == 'u',
        spec_spot_decl(i)[18] == 's',
        spec_point_decl(i).len() > 0,
        spec_point_decl(i)[0] == 'l',
{
    reveal_strlit("uniform sampler2D ");
    reveal_strlit("layout (std140) uniform ");
    reveal_strlit("directionalShadowMap");
    reveal_strlit("spotShadowMap");
}

proof fn lemma_light_fn_head(nd: nat, ns: nat, np: nat)
    ensures
        spec_light_fn(nd, ns, np).len() > 0,
        spec_light_fn(nd, ns, np)[0] == 'v',
{
    reveal_strlit(
        "void calculate_lighting(inout vec4 color, vec3 surface_color, vec3 position, vec3 normal, float diffuse_intensity, float specular_intensity, float specular_power)\n{\n    color.rgb += ambientColor;\n",
    );
}

proof fn lemma_dir_decls_suffix_chars(n1: nat, n2: nat)
    requires
        n1 < n2,
    ensures
        spec_dir_decls(n2).len() > spec_dir_decls(n1).len() + 18,
        spec_dir_decls(n2)[spec_dir_decls(n1).len() as int] == 'u',
        spec_dir_decls(n2)[spec_dir_decls(n1).len() + 18int] == 'd',
    decreases n2,
{
    lemma_decl_heads(n1);
    if n2 == n1 + 1 {
        assert(spec_dir_decls(n2)[spec_dir_decls(n1).len() as int] == spec_dir_decl(n1)[0]);
        assert(spec_dir_decls(n2)[spec_dir_decls(n1).len() + 18int] == spec_dir_decl(n1)[18]);
    } else {
        lemma_dir_decls_suffix_chars(n1, (n2 - 1) as nat);
        lemma_decl_heads((n2 - 1) as nat);
    }
}

proof fn lemma_spot_decls_suffix_char(n1: nat, n2: nat)
    requires
        n1 < n2,
    ensures
        spec_spot_decls(n2).len() > spec_spot_decls(n1).len(),
        spec_spot_decls(n2)[spec_spot_decls(n1).len() as int] == 'u',
    decreases n2,
{
    lemma_decl_heads(n1);
    if n2 == n1 + 1 {
        assert(spec_spot_decls(n2)[spec_spot_decls(n1).len() as int] == spec_spot_decl(n1)[0]);
    } else {
        lemma_spot_decls_suffix_char(n1, (n2 - 1) as nat);
        lemma_decl_heads((n2 - 1) as nat);
    }
}

proof fn lemma_point_decls_suffix_char(n1: nat, n2: nat)
    requires
        n1 < n2,
    ensures
        spec_point_decls(n2).len() > spec_point_decls(n1).len(),
        spec_point_decls(n2)[spec_point_decls(n1).len() as int] == 'l',
    decreases n2,
{
    lemma_decl_heads(n1);
    if n2 == n1 + 1 {
        assert(spec_point_decls(n2)[spec_point_decls(n1).len() as int] == spec_point_decl(n1)[0]);
    } else {
        lemma_point_decls_suffix_char(n1, (n2 - 1) as nat);
        lemma_decl_heads((n2 - 1) as nat);
    }
}

proof fn lemma_spot_decls_head(ns: nat)
    requires
        ns > 0,
    ensures
        spec_spot_decls(ns).len() > 18,
        spec_spot_decls(ns)[18] == 's',
    decreases ns,
{
    lemma_decl_heads(0);
    if ns == 1 {
        assert(spec_spot_decls(0) =~= Seq::<char>::empty());
        assert(spec_spot_decls(1) == spec_spot_decls(0) + spec_spot_decl(0));
        assert(spec_spot_decls(1)[18] == spec_spot_decl(0)[18]);
    } else {
        lemma_spot_decls_head((ns - 1) as nat);
        lemma_decl_heads((ns - 1) as nat);
    }
}

proof fn lemma_point_decls_head(np: nat)
    requires
        np > 0,
    ensures
        spec_point_decls(np).len() > 0,
        spec_point_decls(np)[0] == 'l',
    decreases np,
{
    lemma_decl_heads(0);
    if np == 1 {
        assert(spec_point_decls(0) =~= Seq::<char>::empty());
        assert(spec_point_decls(1) == spec_point_decls(0) + spec_point_decl(0));
        assert(spec_point_decls(1)[0] == spec_point_decl(0)[0]);
    } else {
        lemma_point_decls_head((np - 1) as nat);
        lemma_decl_heads((np - 1) as nat);
    }
}

#[verifier::rlimit(100)]
#[verifier::spinoff_prover]
proof fn lemma_compose_dir_differs(
    body: Seq<char>,
    nd1: nat,
    ns1: nat,
    np1: nat,
    nd2: nat,
    ns2: nat,
    np2: nat,
    pass: PassKind,
)
    requires
        nd1 < nd2,
    ensures
        spec_compose(body, nd1, ns1, np1, pass) != spec_compose(body, nd2, ns2, np2, pass),
{
    let s1 = spec_compose(body, nd1, ns1, np1, pass);
    let s2 = spec_compose(body, nd2, ns2, np2, pass);
    let prefix = spec_shared_header() + spec_light_shared() + spec_pass_prologue(pass)
        + "uniform vec3 ambientColor;\n"@;
    let tail1 = spec_spot_decls(ns1) + spec_point_decls(np1) + spec_light_fn(nd1, ns1, np1) + body
        + spec_epilogue();
    let tail2 = spec_spot_decls(ns2) + spec_point_decls(np2) + spec_light_fn(nd2, ns2, np2) + body
        + spec_epilogue();
    assert(s1 =~= prefix + spec_dir_decls(nd1) + tail1);
    assert(s2 =~= prefix + spec_dir_decls(nd2) + tail2);
    let q = prefix.len() + spec_dir_decls(nd1).len();
    lemma_dir_decls_suffix_chars(nd1, nd2);
    assert(s2[q as int] == spec_dir_decls(nd2)[spec_dir_decls(nd1).len() as int]);
    assert(s2[q + 18int] == spec_dir_decls(nd2)[spec_dir_decls(nd1).len() + 18int]);
    if ns1 > 0 {
        lemma_spot_decls_head(ns1);
        assert(s1[q + 18int] == spec_spot_decls(ns1)[18]);
        assert(s1[q + 18int] != s2[q + 18int]);
    } else if np1 > 0 {
        lemma_point_decls_head(np1);
        assert(spec_spot_decls(0) =~= Seq::<char>::empty());
        assert(s1[q as int] == spec_point_decls(np1)[0]);
        assert(s1[q as int] != s2[q as int]);
    } else {
        lemma_light_fn_head(nd1, ns1, np1);
        assert(spec_spot_decls(0) =~= Seq::<char>::empty());
        assert(spec_point_decls(0) =~= Seq::<char>::empty());
        assert(s1[q as int] == spec_light_fn(nd1, ns1, np1)[0]);
        assert(s1[q as int] != s2[q as int]);
    }
}

#[verifier::rlimit(100)]
#[verifier::spinoff_prover]
proof fn lemma_compose_spot_differs(
    body: Seq<char>,
    nd: nat,
    ns1: nat,
    np1: nat,
    ns2: nat,
    np2: nat,
    pass: PassKind,
)
    requires
        ns1 < ns2,
    ensures
        spec_compose(body, nd, ns1, np1, pass) != spec_compose(body, nd, ns2, np2, pass),
{
    let s1 = spec_compose(body, nd, ns1, np1, pass);
    let s2 = spec_compose(body, nd, ns2, np2, pass);
    let prefix = spec_shared_header() + spec_light_shared() + spec_pass_prologue(pass)
        + "uniform vec3 ambientColor;\n"@ + spec_dir_decls(nd);
    let tail1 = spec_point_decls(np1) + spec_light_fn(nd, ns1, np1) + body + spec_epilogue();
    let tail2 = spec_point_decls(np2) + spec_light_fn(nd, ns2, np2) + body + spec_epilogue();
    assert(s1 =~= prefix + spec_spot_decls(ns1) + tail1);
    assert(s2 =~= prefix + spec_spot_decls(ns2) + tail2);
    let q = prefix.len() + spec_spot_decls(ns1).len();
    lemma_spot_decls_suffix_char(ns1, ns2);
    assert(s2[q as int] == spec_spot_decls(ns2)[spec_spot_decls(ns1).len() as int]);
    if np1 > 0 {
        lemma_point_decls_head(np1);
        assert(s1[q as int] == spec_point_decls(np1)[0]);
        assert(s1[q as int] != s2[q as int]);
    } else {
        lemma_light_fn_head(nd, ns1, np1);
        assert(spec_point_decls(0) =~= Seq::<char>::empty());
        assert(s1[q as int] == spec_light_fn(nd, ns1, np1)[0]);
        assert(s1[q as int] != s2[q as int]);
    }
}

#[verifier::rlimit(100)]
#[verifier::spinoff_prover]
proof fn lemma_compose_point_differs(
    body: Seq<char>,
    nd: nat,
    ns: nat,
    np1: nat,
    np2: nat,
    pass: PassKind,
)
    requires
        np1 < np2,
    ensures
        spec_compose(body, nd, ns, np1, pass) != spec_compose(body, nd, ns, np2, pass),
{
    let s1 = spec_compose(body, nd, ns, np1, pass);
    let s2 = spec_compose(body, nd, ns, np2, pass);
    let prefix = spec_shared_header() + spec_light_shared() + spec_pass_prologue(pass)
        + "uniform vec3 ambientColor;\n"@ + spec_dir_decls(nd) + spec_spot_decls(ns);
    let tail1 = spec_light_fn(nd, ns, np1) + body + spec_epilogue();
    let tail2 = spec_light_fn(nd, ns, np2) + body + spec_epilogue();
    assert(s1 =~= prefix + spec_point_decls(np1) + tail1);
    assert(s2 =~= prefix + spec_point_decls(np2) + tail2);
    let q = prefix.len() + spec_point_decls(np1).len();
    lemma_point_decls_suffix_char(np1, np2);
    assert(s2[q as int] == spec_point_decls(np2)[spec_point_decls(np1).len() as int]);
    lemma_light_fn_head(nd, ns, np1);
    assert(s1[q as int] == spec_light_fn(nd, ns, np1)[0]);
    assert(s1[q as int] != s2[q as int]);
}

/// Changing the light counts changes the composed source, whichever of the
/// three counts differ and however many of them at once: the text diverges
/// right after the shorter run of declarations of the first kind that
/// differs. The single-count law above is the special case where exactly
/// one count changes.
pub proof fn lemma_compose_count_triple_injective(
    body: Seq<char>,
    nd1: nat,
    ns1: nat,
    np1: nat,
    nd2: nat,
    ns2: nat,
    np2: nat,
    pass: PassKind,
)
    requires
        !(nd1 == nd2 && ns1 == ns2 && np1 == np2),
    ensures
        spec_compose(body, nd1, ns1, np1, pass) != spec_compose(body, nd2, ns2, np2, pass),
{
    if nd1 < nd2 {
        lemma_compose_dir_differs(body, nd1, ns1, np1, nd2, ns2, np2, pass);
    } else if nd2 < nd1 {
        lemma_compose_dir_differs(body, nd2, ns2, np2, nd1, ns1, np1, pass);
    } else if ns1 < ns2 {
        lemma_compose_spot_differs(body, nd1, ns1, np1, ns2, np2, pass);
    } else if ns2 < ns1 {
        lemma_compose_spot_differs(body, nd1, ns2, np2, ns1, np1, pass);
    } else if np1 < np2 {
        lemma_compose_point_differs(body, nd1, ns1, np1, np2, pass);
    } else {
        lemma_compose_point_differs(body, nd1, ns1, np2, np1, pass);
    }
}

/// Changing the material body changes the composed source: with the counts
/// and the pass kind fixed, two different bodies always compose to different
/// text, since the body stands at a fixed offset of the concatenation.
pub proof fn lemma_compose_body_injective(
    body1: Seq<char>,
    body2: Seq<char>,
    nd: nat,
    ns: nat,
    np: nat,
    pass: PassKind,
)
    requires
        body1 != body2,
    ensures
        spec_compose(body1, nd, ns, np, pass) != spec_compose(body2, nd, ns, np, pass),
{
    let s1 = spec_compose(body1, nd, ns, np, pass);
    let s2 = spec_compose(body2, nd, ns, np, pass);
    if body1.len() != body2.len() {
        assert(s1.len() != s2.len());
    } else {
        assert(!(body1 =~= body2));
        let j = choose|j: int| 0 <= j < body1.len() && body1[j] != body2[j];
        let a = (spec_shared_header() + spec_light_shared() + spec_pass_prologue(pass)
            + spec_light_block(nd, ns, np)).len() as int;
        assert(s1[a + j] == body1[j]);
        assert(s2[a + j] == body2[j]);
        assert(s1 != s2);
    }
}

/// Changing the pass kind changes the composed source: the two pass
/// prologues have different lengths, so a forward and a deferred composition
/// over the same body and counts can never coincide.
pub proof fn lemma_compose_pass_injective(
    body: Seq<char>,
    nd: nat,
    ns: nat,
    np: nat,
    pass1: PassKind,
    pass2: PassKind,
)
    requires
        pass1 != pass2,
    ensures
        spec_compose(body, nd, ns, np, pass1) != spec_compose(body, nd, ns, np, pass2),
{
    reveal_strlit("#define FORWARD_PASS\n");
    reveal_strlit("#define DEFERRED_GEOMETRY_PASS\n");
    assert(spec_compose(body, nd, ns, np, pass1).len() != spec_compose(
        body,
        nd,
        ns,
        np,
        pass2,
    ).len());
}

/// `needle` stands at offset `off` of `hay`.
pub open spec fn seq_contains_at(hay: Seq<char>, needle: Seq<char>, off: int) -> bool {
    &&& 0 <= off
    &&& off + needle.len() <= hay.len()
    &&& hay.subrange(off, off + needle.len() as int) == needle
}

/// `needle` stands somewhere in `hay`.
pub open spec fn seq_contains(hay: Seq<char>, needle: Seq<char>) -> bool {
    exists|off: int| seq_contains_at(hay, needle, off)
}

proof fn lemma_contains_left(a: Seq<char>, b: Seq<char>, needle: Seq<char>)
    requires
        seq_contains(a, needle),
    ensures
        seq_contains(a + b, needle),
{
    let off = choose|off: int| seq_contains_at(a, needle, off);
    assert((a + b).subrange(off, off + needle.len() as int) =~= needle);
    assert(seq_contains_at(a + b, needle, off));
}

proof fn lemma_contains_right(a: Seq<char>, b: Seq<char>, needle: Seq<char>)
    requires
        seq_contains(b, needle),
    ensures
        seq_contains(a + b, needle),
{
    let off = choose|off: int| seq_contains_at(b, needle, off);
    assert((a + b).subrange(a.len() + off, a.len() + off + needle.len() as int) =~= needle);
    assert(seq_contains_at(a + b, needle, a.len() + off));
}

proof fn lemma_contains_trans(hay: Seq<char>, mid: Seq<char>, needle: Seq<char>)
    requires
        seq_contains(hay, mid),
        seq_contains(mid, needle),
    ensures
        seq_contains(hay, needle),
{
    let off1 = choose|off: int| seq_contains_at(hay, mid, off);
    let off2 = choose|off: int| seq_contains_at(mid, needle, off);
    assert(hay.subrange(off1 + off2, off1 + off2 + needle.len() as int) =~= needle) by {
        assert(forall|k: int|
            0 <= k < mid.len() ==> mid[k] == #[trigger] hay.subrange(
                off1,
                off1 + mid.len() as int,
            )[k]);
    }
    assert(seq_contains_at(hay, needle, off1 + off2));
}

proof fn lemma_contains_self(s: Seq<char>)
    ensures
        seq_contains(s, s),
{
    assert(s.subrange(0, s.len() as int) =~= s);
    assert(seq_contains_at(s, s, 0));
}

proof fn lemma_dir_decl_names(i: nat)
    ensures
        seq_contains(spec_dir_decl(i), spec_dir_shadow_name(i)),
        seq_contains(spec_dir_decl(i), spec_dir_block_name(i)),
{
    let decl = spec_dir_decl(i);
    let shadow = spec_dir_shadow_name(i);
    let block = spec_dir_block_name(i);
    let off1 = "uniform sampler2D "@.len() as int;
    assert(decl.subrange(off1, off1 + shadow.len() as int) =~= shadow);
    assert(seq_contains_at(decl, shadow, off1));
    let off2 = ("uniform sampler2D "@ + shadow + ";\nlayout (std140) uniform "@).len() as int;
    assert(decl.subrange(off2, off2 + block.len() as int) =~= block);
    assert(seq_contains_at(decl, block, off2));
}

proof fn lemma_spot_decl_names(i: nat)
    ensures
        seq_contains(spec_spot_decl(i), spec_spot_shadow_name(i)),
        seq_contains(spec_spot_decl(i), spec_spot_block_name(i)),
{
    let decl = spec_spot_decl(i);
    let shadow = spec_spot_shadow_name(i);
    let block = spec_spot_block_name(i);
    let off1 = "uniform sampler2D "@.len() as int;
    assert(decl.subrange(off1, off1 + shadow.len() as int) =~= shadow);
    assert(seq_contains_at(decl, shadow, off1));
    let off2 = ("uniform sampler2D "@ + shadow + ";\nlayout (std140) uniform "@).len() as int;
    assert(decl.subrange(off2, off2 + block.len() as int) =~= block);
    assert(seq_contains_at(decl, block, off2));
}

proof fn lemma_point_decl_names(i: nat)
    ensures
        seq_contains(spec_point_decl(i), spec_point_block_name(i)),
{
    let decl = spec_point_decl(i);
    let block = spec_point_block_name(i);
    let off = "layout (std140) uniform "@.len() as int;
    assert(decl.subrange(off, off + block.len() as int) =~= block);
    assert(seq_contains_at(decl, block, off));
}

proof fn lemma_dir_decls_contain(n: nat, i: nat)
    requires
        i < n,
    ensures
        seq_contains(spec_dir_decls(n), spec_dir_decl(i)),
    decreases n,
{
    if i + 1 == n {
        lemma_contains_self(spec_dir_decl(i));
        lemma_contains_right(spec_dir_decls((n - 1) as nat), spec_dir_decl(i), spec_dir_decl(i));
    } else {
        lemma_dir_decls_contain((n - 1) as nat, i);
        lemma_contains_left(
            spec_dir_decls((n - 1) as nat),
            spec_dir_decl((n - 1) as nat),
            spec_dir_decl(i),
        );
    }
}

proof fn lemma_spot_decls_contain(n: nat, i: nat)
    requires
        i < n,
    ensures
        seq_contains(spec_spot_decls(n), spec_spot_decl(i)),
    decreases n,
{
    if i + 1 == n {
        lemma_contains_self(spec_spot_decl(i));
        lemma_contains_right(spec_spot_decls((n - 1) as nat), spec_spot_decl(i), spec_spot_decl(i));
    } else {
        lemma_spot_decls_contain((n - 1) as nat, i);
        lemma_contains_left(
            spec_spot_decls((n - 1) as nat),
            spec_spot_decl((n - 1) as nat),
            spec_spot_decl(i),
        );
    }
}

proof fn lemma_point_decls_contain(n: nat, i: nat)
    requires
        i < n,
    ensures
        seq_contains(spec_point_decls(n), spec_point_decl(i)),
    decreases n,
{
    if i + 1 == n {
        lemma_contains_self(spec_point_decl(i));
        lemma_contains_right(
            spec_point_decls((n - 1) as nat),
            spec_point_decl(i),
            spec_point_decl(i),
        );
    } else {
        lemma_point_decls_contain((n - 1) as nat, i);
        lemma_contains_left(
            spec_point_decls((n - 1) as nat),
            spec_point_decl((n - 1) as nat),
            spec_point_decl(i),
        );
    }
}

proof fn lemma_block_in_compose(body: Seq<char>, nd: nat, ns: nat, np: nat, pass: PassKind)
    ensures
        seq_contains(spec_compose(body, nd, ns, np, pass), spec_light_block(nd, ns, np)),
{
    let block = spec_light_block(nd, ns, np);
    lemma_contains_self(block);
    lemma_contains_right(
        spec_shared_header() + spec_light_shared() + spec_pass_prologue(pass),
        block,
        block,
    );
    lemma_contains_left(
        spec_shared_header() + spec_light_shared() + spec_pass_prologue(pass) + block,
        body,
        block,
    );
    lemma_contains_left(
        spec_shared_header() + spec_light_shared() + spec_pass_prologue(pass) + block + body,
        spec_epilogue(),
        block,
    );
}

proof fn lemma_decls_in_block(nd: nat, ns: nat, np: nat)
    ensures
        seq_contains(spec_light_block(nd, ns, np), spec_dir_decls(nd)),
        seq_contains(spec_light_block(nd, ns, np), spec_spot_decls(ns)),
        seq_contains(spec_light_block(nd, ns, np), spec_point_decls(np)),
{
    let amb = "uniform vec3 ambientColor;\n"@;
    let dd = spec_dir_decls(nd);
    let sd = spec_spot_decls(ns);
    let pd = spec_point_decls(np);
    let lf = spec_light_fn(nd, ns, np);
    lemma_contains_self(dd);
    lemma_contains_right(amb, dd, dd);
    lemma_contains_left(amb + dd, sd, dd);
    lemma_contains_left(amb + dd + sd, pd, dd);
    lemma_contains_left(amb + dd + sd + pd, lf, dd);
    lemma_contains_self(sd);
    lemma_contains_right(amb + dd, sd, sd);
    lemma_contains_left(amb + dd + sd, pd, sd);
    lemma_contains_left(amb + dd + sd + pd, lf, sd);
    lemma_contains_self(pd);
    lemma_contains_right(amb + dd + sd, pd, pd);
    lemma_contains_left(amb + dd + sd + pd, lf, pd);
}

/// Composition and draw-time binding agree on names: for every light index
/// below the respective count, the composed source declares the shadow-map
/// sampler and uniform-block names under which the binder attaches that
/// light's resources — the same index on both sides.
pub proof fn lemma_source_declares_bound_names(
    body: Seq<char>,
    nd: nat,
    ns: nat,
    np: nat,
    pass: PassKind,
)
    ensures
        forall|i: nat|
            i < nd ==> seq_contains(
                spec_compose(body, nd, ns, np, pass),
                #[trigger] spec_dir_shadow_name(i),
            ) && seq_contains(spec_compose(body, nd, ns, np, pass), spec_dir_block_name(i)),
        forall|i: nat|
            i < ns ==> seq_contains(
                spec_compose(body, nd, ns, np, pass),
                #[trigger] spec_spot_shadow_name(i),
            ) && seq_contains(spec_compose(body, nd, ns, np, pass), spec_spot_block_name(i)),
        forall|i: nat|
            i < np ==> seq_contains(
                spec_compose(body, nd, ns, np, pass),
                #[trigger] spec_point_block_name(i),
            ),
{
    let src = spec_compose(body, nd, ns, np, pass);
    let block = spec_light_block(nd, ns, np);
    lemma_block_in_compose(body, nd, ns, np, pass);
    lemma_decls_in_block(nd, ns, np);
    assert forall|i: nat| i < nd implies seq_contains(src, #[trigger] spec_dir_shadow_name(i))
        && seq_contains(src, spec_dir_block_name(i)) by {
        lemma_dir_decls_contain(nd, i);
        lemma_dir_decl_names(i);
        lemma_contains_trans(block, spec_dir_decls(nd), spec_dir_decl(i));
        lemma_contains_trans(src, block, spec_dir_decl(i));
        lemma_contains_trans(src, spec_dir_decl(i), spec_dir_shadow_name(i));
        lemma_contains_trans(src, spec_dir_decl(i), spec_dir_block_name(i));
    }
    assert forall|i: nat| i < ns implies seq_contains(src, #[trigger] spec_spot_shadow_name(i))
        && seq_contains(src, spec_spot_block_name(i)) by {
        lemma_spot_decls_contain(ns, i);
        lemma_spot_decl_names(i);
        lemma_contains_trans(block, spec_spot_decls(ns), spec_spot_decl(i));
        lemma_contains_trans(src, block, spec_spot_decl(i));
        lemma_contains_trans(src, spec_spot_decl(i), spec_spot_shadow_name(i));
        lemma_contains_trans(src, spec_spot_decl(i), spec_spot_block_name(i));
    }
    assert forall|i: nat| i < np implies seq_contains(
        src,
        #[trigger] spec_point_block_name(i),
    ) by {
        lemma_point_decls_contain(np, i);
        lemma_point_decl_names(i);
        lemma_contains_trans(block, spec_point_decls(np), spec_point_decl(i));
        lemma_contains_trans(src, block, spec_point_decl(i));
        lemma_contains_trans(src, spec_point_decl(i), spec_point_block_name(i));
    }
}

/// The vertex-program source for a pass kind.
pub open spec fn spec_vertex_source(pass: PassKind) -> Seq<char> {
    "in vec3 in_position;\nin vec3 in_normal;\nuniform mat4 viewProjection;\nuniform mat4 modelMatrix;\nout vec3 position;\nout vec3 normal;\n"@
        + spec_pass_prologue(pass)
        + "void main()\n{\n    vec4 world = modelMatrix * vec4(in_position, 1.0);\n    position = world.xyz;\n    normal = mat3(modelMatrix) * in_normal;\n    gl_Position = viewProjection * world;\n}\n"@
}

/// Composes the vertex-program source for a pass kind.
pub fn compose_vertex_source(pass: PassKind) -> (r: String)
    ensures
        r@ == spec_vertex_source(pass),
{
    let mut s = String::from_str(
        "in vec3 in_position;\nin vec3 in_normal;\nuniform mat4 viewProjection;\nuniform mat4 modelMatrix;\nout vec3 position;\nout vec3 normal;\n",
    );
    match pass {
        PassKind::Forward => s.append("#define FORWARD_PASS\n"),
        PassKind::Deferred => s.append("#define DEFERRED_GEOMETRY_PASS\n"),
    }
    s.append(
        "void main()\n{\n    vec4 world = modelMatrix * vec4(in_position, 1.0);\n    position = world.xyz;\n    normal = mat3(modelMatrix) * in_normal;\n    gl_Position = viewProjection * world;\n}\n",
    );
    proof {
        assert(s@ =~= spec_vertex_source(pass));
    }
    s
}

} // verus!

