use crate::gui::renderer::combine::{
    alpha_compare_dither, alpha_compare_threshold, combine_expr, cycle_type, cycle_type_of, push_combine,
    render_mode_decodes,
    spec_uses_texture0, spec_uses_texture1, texture_filter, texture_filter_decodes,
    texture_filter_of, uses_alpha, uses_fog, uses_lighting, uses_texture_edge, CombineParams,
    CycleType, TextureFilter,
};
use crate::gui::renderer::defines::{
    any_change, apply_all, apply_define, bool_defined, bool_value, defined, defines_text, distinct_names,
    law_defines_read_back, lookup, opt_view, step_names_distinct, DefineTable,
};
use vstd::prelude::*;
use vstd::string::StringExecFns;

verus! {

/// The shared preamble of both shaders.
pub const BOTH_SOURCE: &'static str = r#"
            const vec4 tZero = vec4(0.0);
            const vec4 tHalf = vec4(0.5);
            const vec4 tOne = vec4(1.0);

            const int DRAWING_RECT = 0;
            "#;

/// The vertex shader body.
pub const VERTEX_SOURCE: &'static str = r#"
            in vec4 aVtxPos;

            in vec4 aVtxColor;
            out vec4 vVtxColor;

            #if defined(USE_TEXTURE0) || defined(USE_TEXTURE1)
                in vec2 aTexCoord;
                out vec2 vTexCoord;
            #endif

            uniform mat4 uProjection;
            #ifdef USE_FOG
                uniform float uFogMultiplier;
                uniform float uFogOffset;
            #endif

            // Convert from 0...1 UNORM range to SNORM range
            vec3 ConvertToSignedInt(vec3 t_Input) {
                ivec3 t_Num = ivec3(t_Input * 255.0);
                // Sign extend
                t_Num = t_Num << 24 >> 24;
                return vec3(t_Num) / 127.0;
            }

            void main() {
                if (aVtxPos.w == DRAWING_RECT) {
                    gl_Position = vec4(aVtxPos.xyz, 1.0);
                } else {
                    gl_Position = aVtxPos * uProjection;
                }

                #ifdef USE_FOG
                    float fogValue = (max(gl_Position.z, 0.0) / gl_Position.w) * uFogMultiplier + uFogOffset;
                    fogValue = clamp(fogValue, 0.0, 255.0);
                    vVtxColor = vec4(aVtxColor.rgb, fogValue / 255.0);
                #else
                    vVtxColor = aVtxColor;
                #endif

                #ifdef LIGHTING
                    // convert (unsigned) colors to normal vector components
                    vec4 t_Normal = vec4(ConvertToSignedInt(aVtxColor.rgb), 0.0);
                    // t_Normal = normalize(Mul(_Mat4x4(u_BoneMatrix[t_BoneIndex]), t_Normal));
                #endif

                #if defined(USE_TEXTURE0) || defined(USE_TEXTURE1)
                    vTexCoord = aTexCoord;
                #endif
            }
        "#;

/// The fragment shader up to the texture filter name.
pub const FRAG_HEAD: &'static str = r#"
            in vec4 vVtxColor;

            #if defined(USE_TEXTURE0) || defined(USE_TEXTURE1)
                in vec2 vTexCoord;
            #endif

            #ifdef USE_FOG
                uniform vec3 uFogColor;
            #endif

            // blend parameters
            uniform vec4 uBlendColor;

            // combine parameters
            // TODO: use a uniform block?
            uniform vec4 uPrimColor;
            uniform vec4 uEnvColor;
            uniform vec3 uKeyCenter;
            uniform vec3 uKeyScale;
            uniform float uPrimLodFrac;
            uniform float uK4;
            uniform float uK5;

            #ifdef USE_TEXTURE0
                uniform sampler2D uTex0;
            #endif
            #ifdef USE_TEXTURE1
                uniform sampler2D uTex1;
            #endif

            #if defined(USE_ALPHA)
                #if defined(ALPHA_COMPARE_DITHER)
                    uniform int uFrameCount;
                    uniform int uFrameHeight;

                    float random(in vec3 value) {
                        float random = dot(sin(value), vec3(12.9898, 78.233, 37.719));
                        return fract(sin(random) * 143758.5453);
                    }
                #endif
            #endif

            out vec4 outColor;

            #define TEX_OFFSET(offset) texture(tex, texCoord - (offset) / texSize)
            #define RAND_NOISE "((random(vec3(floor(gl_FragCoord.xy * (240.0 / float(uFrameHeight)), float(uFrameCount))) + 1.0) / 2.0)"

            vec4 Texture2D_N64_Point(in sampler2D tex, in vec2 texCoord) {
                return texture(tex, texCoord);
            }
            
            vec4 Texture2D_N64_Average(in sampler2D tex, in vec2 texCoord) {
                // Unimplemented.
                return texture(tex, texCoord);
            }
            
            // Implements N64-style "triangle bilienar filtering" with three taps.
            // Based on ArthurCarvalho's implementation, modified for use here.
            vec4 Texture2D_N64_Bilerp(in sampler2D tex, in vec2 texCoord) {
                vec2 texSize = vec2(textureSize(tex, 0));
                vec2 offset = fract(texCoord * texSize - vec2(0.5));
                offset -= step(1.0, offset.x + offset.y);
                vec4 s0 = TEX_OFFSET(offset);
                vec4 s1 = TEX_OFFSET(vec2(offset.x - sign(offset.x), offset.y));
                vec4 s2 = TEX_OFFSET(vec2(offset.x, offset.y - sign(offset.y)));
                return s0 + abs(offset.x) * (s1 - s0) + abs(offset.y) * (s2 - s0);
            }
            
            #define Texture2D_N64 Texture2D_N64_"#;

/// The first cycle's color combine function, up to its expression.
pub const COLOR_CYCLE0_OPEN: &'static str = r#"

            vec3 CombineColorCycle0(vec4 tCombColor, vec4 texVal0, vec4 texVal1) {
                return ("#;

/// The first cycle's alpha combine function, up to its expression.
pub const ALPHA_CYCLE0_OPEN: &'static str = r#";
            } 
            
            float CombineAlphaCycle0(vec4 tCombColor, vec4 texVal0, vec4 texVal1) {
                return ("#;

/// The second cycle's color combine function, up to its expression.
pub const COLOR_CYCLE1_OPEN: &'static str = r#";
            }
            
            vec3 CombineColorCycle1(vec4 tCombColor, vec4 texVal0, vec4 texVal1) {
                return ("#;

/// The second cycle's alpha combine function, up to its expression.
pub const ALPHA_CYCLE1_OPEN: &'static str = r#";
            }
            
            float CombineAlphaCycle1(vec4 tCombColor, vec4 texVal0, vec4 texVal1) {
                return ("#;

/// The rest of the fragment shader.
pub const FRAG_TAIL: &'static str = r#";
            }

            vec3 to_linear(vec3 v) {
                return pow(v, vec3(2.2));
            }

            vec4 to_linear(vec4 v) {
                return vec4(to_linear(v.rgb), v.a);
            }

            vec3 to_srgb(vec3 v) {
                return pow(v, vec3(1.0 / 2.2));
            }
            
            vec4 to_srgb(vec4 v) {
                return vec4(to_srgb(v.rgb), v.a);
            }

            void main() {
                vec4 texVal0 = tOne, texVal1 = tOne;

                #ifdef USE_TEXTURE0
                    texVal0 = Texture2D_N64(uTex0, vTexCoord);
                #endif
                #ifdef USE_TEXTURE1
                    texVal1 = Texture2D_N64(uTex1, vTexCoord);
                #endif

                #ifdef ONLY_VERTEX_COLOR
                    vec4 texel = vVtxColor;
                #else
                    vec4 texel = vec4(
                        CombineColorCycle0(tHalf, texVal0, texVal1),
                        CombineAlphaCycle0(tHalf, texVal0, texVal1)
                    );
                    
                    #ifdef TWO_CYCLE
                        // Note that in the second cycle, Tex0 and Tex1 are swapped
                        texel = vec4(
                            CombineColorCycle1(texel, texVal1, texVal0),
                            CombineAlphaCycle1(texel, texVal1, texVal0)
                        );
                    #endif
                #endif

                #if defined(USE_ALPHA)
                    #if defined(ALPHA_COMPARE_DITHER)
                        if (texel.a < floor(random(vec3(floor(gl_FragCoord.xy * (240.0 / float(uFrameHeight))), float(uFrameCount))) + 0.5)) discard;
                    #endif
                    
                    #if defined(ALPHA_COMPARE_THRESHOLD)
                        if (texel.a < uBlendColor.a) discard;
                    #endif

                    #if defined(TEXTURE_EDGE)
                        if (texel.a < 0.125) discard;
                    #endif

                    #if defined(USE_ALPHA_VISUALIZER)
                        texel = mix(texel, vec4(1.0f, 0.0f, 1.0f, 1.0f), 0.5f);
                    #endif
                #endif

                // TODO: Blender
                #ifdef USE_FOG
                    texel = vec4(mix(texel.rgb, uFogColor.rgb, vVtxColor.a), texel.a);
                #endif

                outColor = texel;
            }
        "#;

/// Which stage a source is preprocessed for.
#[derive(PartialEq, Eq)]
pub enum ShaderType {
    Vertex,
    Fragment,
}

/// A preprocessed shader: the GLSL version line, the defines, then the source.
pub open spec fn preprocessed_text(d: Seq<(Seq<char>, Seq<char>)>, shader: Seq<char>) -> Seq<char> {
    "\n            #version 140\n            "@ + defines_text(d) + "\n            "@ + shader
        + "\n            "@
}

/// The defines `init` sets, in order, from the program's configuration.
pub open spec fn init_steps(h: u32, l: u32, g: u32, c: CombineParams) -> Seq<(Seq<char>, bool)> {
    seq![
        ("USE_ALPHA_VISUALIZER"@, false),
        ("ONLY_VERTEX_COLOR"@, false),
        ("TWO_CYCLE"@, cycle_type_of(h) == CycleType::TwoCycle),
        ("LIGHTING"@, g & 0x20000u32 != 0),
        ("USE_TEXTURE0"@, spec_uses_texture0(c)),
        ("USE_TEXTURE1"@, spec_uses_texture1(c)),
        ("TEXTURE_EDGE"@, l & 0x1000u32 != 0),
        ("USE_FOG"@, (l >> 30u32) & 3u32 == 3),
        ("USE_ALPHA"@, (l >> 18u32) & 3u32 == 0 || l & 0x1000u32 != 0),
        ("ALPHA_COMPARE_DITHER"@, l & 3u32 == 3),
        ("ALPHA_COMPARE_THRESHOLD"@, l & 1u32 == 1),
        ("COLOR_ALPHA_SAME"@, c.c0 == c.a0),
    ]
}

/// The GLSL source for a color input in the `a`, `b`, `c` and `d` slots that all four share.
pub open spec fn color_common(x: u32) -> Seq<char> {
    if x == 0 {
        "tCombColor.rgb"@
    } else if x == 1 {
        "texVal0.rgb"@
    } else if x == 2 {
        "texVal1.rgb"@
    } else if x == 3 {
        "uPrimColor.rgb"@
    } else if x == 4 {
        "vVtxColor.rgb"@
    } else {
        "uEnvColor.rgb"@
    }
}

pub open spec fn color_a(x: u32) -> Seq<char> {
    if x <= 5 {
        color_common(x)
    } else if x == 6 {
        "tOne.rgb"@
    } else if x == 7 {
        "vec3(RAND_NOISE, RAND_NOISE, RAND_NOISE)"@
    } else {
        "tZero.rgb"@
    }
}

pub open spec fn color_b(x: u32) -> Seq<char> {
    if x <= 5 {
        color_common(x)
    } else if x == 6 {
        "uKeyCenter"@
    } else if x == 7 {
        "vec3(uK4, uK4, uK4)"@
    } else {
        "tZero.rgb"@
    }
}

pub open spec fn color_c(x: u32) -> Seq<char> {
    if x <= 5 {
        color_common(x)
    } else if x == 6 {
        "uKeyScale"@
    } else if x == 7 {
        "tCombColor.aaa"@
    } else if x == 8 {
        "texVal0.aaa"@
    } else if x == 9 {
        "texVal1.aaa"@
    } else if x == 10 {
        "uPrimColor.aaa"@
    } else if x == 11 {
        "vVtxColor.aaa"@
    } else if x == 12 {
        "uEnvColor.aaa"@
    } else if x == 14 {
        "vec3(uPrimLodFrac, uPrimLodFrac, uPrimLodFrac)"@
    } else if x == 15 {
        "vec3(uK5, uK5, uK5)"@
    } else {
        "tZero.rgb"@
    }
}

pub open spec fn color_d(x: u32) -> Seq<char> {
    if x <= 5 {
        color_common(x)
    } else if x == 6 {
        "tOne.rgb"@
    } else {
        "tZero.rgb"@
    }
}

/// An alpha input in the `a`, `b` or `d` slot; with fog the shade alpha carries the fog factor, so
/// it reads as one.
pub open spec fn alpha_abd(x: u32, fog: bool) -> Seq<char> {
    if x == 0 {
        "tCombColor.a"@
    } else if x == 1 {
        "texVal0.a"@
    } else if x == 2 {
        "texVal1.a"@
    } else if x == 3 {
        "uPrimColor.a"@
    } else if x == 4 {
        if fog {
            "tOne.a"@
        } else {
            "vVtxColor.a"@
        }
    } else if x == 5 {
        "uEnvColor.a"@
    } else if x == 6 {
        "tOne.a"@
    } else {
        "tZero.a"@
    }
}

pub open spec fn alpha_c(x: u32) -> Seq<char> {
    if x == 1 {
        "texVal0.a"@
    } else if x == 2 {
        "texVal1.a"@
    } else if x == 3 {
        "uPrimColor.a"@
    } else if x == 4 {
        "vVtxColor.a"@
    } else if x == 5 {
        "uEnvColor.a"@
    } else if x == 6 {
        "uPrimLodFrac"@
    } else {
        "tZero.a"@
    }
}

pub open spec fn filter_name(f: TextureFilter) -> Seq<char> {
    match f {
        TextureFilter::Point => "Point"@,
        TextureFilter::Average => "Average"@,
        TextureFilter::Bilerp => "Bilerp"@,
    }
}

/// The fragment shader for a texture filter and combiner configuration.
pub open spec fn fragment_text(f: TextureFilter, c: CombineParams, fog: bool) -> Seq<char> {
    FRAG_HEAD@ + filter_name(f) + COLOR_CYCLE0_OPEN@ + combine_expr(
        color_a(c.c0.a),
        color_b(c.c0.b),
        color_c(c.c0.c),
        color_d(c.c0.d),
    ) + ALPHA_CYCLE0_OPEN@ + combine_expr(
        alpha_abd(c.a0.a, fog),
        alpha_abd(c.a0.b, fog),
        alpha_c(c.a0.c),
        alpha_abd(c.a0.d, fog),
    ) + COLOR_CYCLE1_OPEN@ + combine_expr(
        color_a(c.c1.a),
        color_b(c.c1.b),
        color_c(c.c1.c),
        color_d(c.c1.d),
    ) + ALPHA_CYCLE1_OPEN@ + combine_expr(
        alpha_abd(c.a1.a, fog),
        alpha_abd(c.a1.b, fog),
        alpha_c(c.a1.c),
        alpha_abd(c.a1.d, fog),
    ) + FRAG_TAIL@
}

fn color_input_common(x: u32) -> (r: &'static str)
    requires
        x <= 5,
    ensures
        r@ == color_common(x),
{
    if x == 0 {
        "tCombColor.rgb"
    } else if x == 1 {
        "texVal0.rgb"
    } else if x == 2 {
        "texVal1.rgb"
    } else if x == 3 {
        "uPrimColor.rgb"
    } else if x == 4 {
        "vVtxColor.rgb"
    } else {
        "uEnvColor.rgb"
    }
}

fn color_input_a(x: u32) -> (r: &'static str)
    ensures
        r@ == color_a(x),
{
    if x <= 5 {
        color_input_common(x)
    } else if x == 6 {
        "tOne.rgb"
    } else if x == 7 {
        "vec3(RAND_NOISE, RAND_NOISE, RAND_NOISE)"
    } else {
        "tZero.rgb"
    }
}

fn color_input_b(x: u32) -> (r: &'static str)
    ensures
        r@ == color_b(x),
{
    if x <= 5 {
        color_input_common(x)
    } else if x == 6 {
        "uKeyCenter"
    } else if x == 7 {
        "vec3(uK4, uK4, uK4)"
    } else {
        "tZero.rgb"
    }
}

fn color_input_c(x: u32) -> (r: &'static str)
    ensures
        r@ == color_c(x),
{
    if x <= 5 {
        color_input_common(x)
    } else if x == 6 {
        "uKeyScale"
    } else if x == 7 {
        "tCombColor.aaa"
    } else if x == 8 {
        "texVal0.aaa"
    } else if x == 9 {
        "texVal1.aaa"
    } else if x == 10 {
        "uPrimColor.aaa"
    } else if x == 11 {
        "vVtxColor.aaa"
    } else if x == 12 {
        "uEnvColor.aaa"
    } else if x == 14 {
        "vec3(uPrimLodFrac, uPrimLodFrac, uPrimLodFrac)"
    } else if x == 15 {
        "vec3(uK5, uK5, uK5)"
    } else {
        "tZero.rgb"
    }
}

fn color_input_d(x: u32) -> (r: &'static str)
    ensures
        r@ == color_d(x),
{
    if x <= 5 {
        color_input_common(x)
    } else if x == 6 {
        "tOne.rgb"
    } else {
        "tZero.rgb"
    }
}

fn alpha_input_abd(x: u32, fog: bool) -> (r: &'static str)
    ensures
        r@ == alpha_abd(x, fog),
{
    if x == 0 {
        "tCombColor.a"
    } else if x == 1 {
        "texVal0.a"
    } else if x == 2 {
        "texVal1.a"
    } else if x == 3 {
        "uPrimColor.a"
    } else if x == 4 {
        if fog {
            "tOne.a"
        } else {
            "vVtxColor.a"
        }
    } else if x == 5 {
        "uEnvColor.a"
    } else if x == 6 {
        "tOne.a"
    } else {
        "tZero.a"
    }
}

fn alpha_input_c(x: u32) -> (r: &'static str)
    ensures
        r@ == alpha_c(x),
{
    if x == 1 {
        "texVal0.a"
    } else if x == 2 {
        "texVal1.a"
    } else if x == 3 {
        "uPrimColor.a"
    } else if x == 4 {
        "vVtxColor.a"
    } else if x == 5 {
        "uEnvColor.a"
    } else if x == 6 {
        "uPrimLodFrac"
    } else {
        "tZero.a"
    }
}

fn filter_name_of(f: TextureFilter) -> (r: &'static str)
    ensures
        r@ == filter_name(f),
{
    match f {
        TextureFilter::Point => "Point",
        TextureFilter::Average => "Average",
        TextureFilter::Bilerp => "Bilerp",
    }
}

proof fn lemma_init_names_distinct(h: u32, l: u32, g: u32, c: CombineParams)
    ensures
        step_names_distinct(init_steps(h, l, g, c)),
{
    reveal_strlit("USE_ALPHA_VISUALIZER");
    reveal_strlit("ONLY_VERTEX_COLOR");
    reveal_strlit("TWO_CYCLE");
    reveal_strlit("LIGHTING");
    reveal_strlit("USE_TEXTURE0");
    reveal_strlit("USE_TEXTURE1");
    reveal_strlit("TEXTURE_EDGE");
    reveal_strlit("USE_FOG");
    reveal_strlit("USE_ALPHA");
    reveal_strlit("ALPHA_COMPARE_DITHER");
    reveal_strlit("ALPHA_COMPARE_THRESHOLD");
    reveal_strlit("COLOR_ALPHA_SAME");
    let s = init_steps(h, l, g, c);
    assert forall|i: int, j: int| 0 <= i < j < s.len() implies #[trigger] s[i].0 != #[trigger] s[j].0 by {
        if s[i].0 == s[j].0 {
            assert(s[i].0.len() == s[j].0.len());
            assert(s[i].0[0] == s[j].0[0]);
            assert(s[i].0[4] == s[j].0[4]);
            assert(s[i].0[s[i].0.len() - 1] == s[j].0[s[j].0.len() - 1]);
        }
    }
}

/// After `init`'s defines run over a table with distinct names, each feature define is set
/// ("1") exactly when the RDP state asks for it, read straight off the mode bits: TWO_CYCLE for
/// cycle type 1 (othermode-high bits 20..21), LIGHTING for the geometry-mode lighting bit,
/// TEXTURE_EDGE for CVG_X_ALPHA (othermode-low 0x1000), USE_FOG for a fog blender (bits 30..31
/// equal 3), USE_ALPHA for a first-cycle 1-A blender alpha (bits 18..19 equal 0) or a texture
/// edge, and the alpha-compare modes from bits 0..1; the two debug defines are never set.
pub proof fn law_init_defines(d: Seq<(Seq<char>, Seq<char>)>, h: u32, l: u32, g: u32, c: CombineParams)
    requires
        distinct_names(d),
    ensures
        ({
            let t = apply_all(d, init_steps(h, l, g, c));
            &&& distinct_names(t)
            &&& lookup(t, "USE_ALPHA_VISUALIZER"@) is None
            &&& lookup(t, "ONLY_VERTEX_COLOR"@) is None
            &&& lookup(t, "TWO_CYCLE"@) == bool_value((h >> 20u32) & 3u32 == 1)
            &&& lookup(t, "LIGHTING"@) == bool_value(g & 0x20000u32 != 0)
            &&& lookup(t, "USE_TEXTURE0"@) == bool_value(spec_uses_texture0(c))
            &&& lookup(t, "USE_TEXTURE1"@) == bool_value(spec_uses_texture1(c))
            &&& lookup(t, "TEXTURE_EDGE"@) == bool_value(l & 0x1000u32 != 0)
            &&& lookup(t, "USE_FOG"@) == bool_value((l >> 30u32) & 3u32 == 3)
            &&& lookup(t, "USE_ALPHA"@) == bool_value((l >> 18u32) & 3u32 == 0 || l & 0x1000u32 != 0)
            &&& lookup(t, "ALPHA_COMPARE_DITHER"@) == bool_value(l & 3u32 == 3)
            &&& lookup(t, "ALPHA_COMPARE_THRESHOLD"@) == bool_value(l & 1u32 == 1)
            &&& lookup(t, "COLOR_ALPHA_SAME"@) == bool_value(c.c0 == c.a0)
        }),
{
    let s = init_steps(h, l, g, c);
    lemma_init_names_distinct(h, l, g, c);
    law_defines_read_back(d, s, 0);
    law_defines_read_back(d, s, 1);
    law_defines_read_back(d, s, 2);
    law_defines_read_back(d, s, 3);
    law_defines_read_back(d, s, 4);
    law_defines_read_back(d, s, 5);
    law_defines_read_back(d, s, 6);
    law_defines_read_back(d, s, 7);
    law_defines_read_back(d, s, 8);
    law_defines_read_back(d, s, 9);
    law_defines_read_back(d, s, 10);
    law_defines_read_back(d, s, 11);
    assert(s[0].0 == "USE_ALPHA_VISUALIZER"@);
    assert(s[1].0 == "ONLY_VERTEX_COLOR"@);
    assert(s[2].0 == "TWO_CYCLE"@);
    assert(s[3].0 == "LIGHTING"@);
    assert(s[4].0 == "USE_TEXTURE0"@);
    assert(s[5].0 == "USE_TEXTURE1"@);
    assert(s[6].0 == "TEXTURE_EDGE"@);
    assert(s[7].0 == "USE_FOG"@);
    assert(s[8].0 == "USE_ALPHA"@);
    assert(s[9].0 == "ALPHA_COMPARE_DITHER"@);
    assert(s[10].0 == "ALPHA_COMPARE_THRESHOLD"@);
    assert(s[11].0 == "COLOR_ALPHA_SAME"@);
    assert((cycle_type_of(h) == CycleType::TwoCycle) == ((h >> 20u32) & 3u32 == 1));
}

/// A vertex attribute the GL program binds: its shader name, f32 component count and byte offset.
#[derive(Clone, Copy, Debug, PartialEq, Eq)]
pub struct GlAttribute {
    pub name: &'static str,
    pub size: i32,
    pub offset: i32,
}

pub open spec fn attribute_is(a: GlAttribute, name: Seq<char>, size: i32, offset: i32) -> bool {
    a.name@ == name && a.size == size && a.offset == offset
}

/// The uniforms the GL program reads: the fog color under USE_FOG, the blend and combine inputs,
/// and the frame count and height for the dithered alpha compare.
pub open spec fn gl_uniforms(fog: bool, dither: bool) -> Seq<Seq<char>> {
    (if fog {
        seq!["uFogColor"@]
    } else {
        Seq::empty()
    }) + seq![
        "uBlendColor"@,
        "uPrimColor"@,
        "uEnvColor"@,
        "uKeyCenter"@,
        "uKeyScale"@,
        "uPrimLodFrac"@,
        "uK4"@,
        "uK5"@,
    ] + (if dither {
        seq!["uFrameCount"@, "uFrameHeight"@]
    } else {
        Seq::empty()
    })
}

/// A GL shader program built from the RDP state: its define table, sources and preprocessed
/// text, and the compiled program once the device has made one.
pub struct OpenGLProgram<T> {
    pub preprocessed_vertex: String,
    pub preprocessed_frag: String,
    pub compiled_program: Option<T>,
    pub both: String,
    pub vertex: String,
    pub fragment: String,
    defines: DefineTable,
    other_mode_h: u32,
    other_mode_l: u32,
    geometry_mode: u32,
    combine: CombineParams,
    pub num_floats: usize,
}

impl<T> OpenGLProgram<T> {
    pub closed spec fn defines_view(&self) -> Seq<(Seq<char>, Seq<char>)> {
        self.defines@
    }

    pub closed spec fn wf(&self) -> bool {
        self.defines.wf()
    }

    pub closed spec fn preprocessed_vertex_view(&self) -> Seq<char> {
        self.preprocessed_vertex@
    }

    pub closed spec fn preprocessed_frag_view(&self) -> Seq<char> {
        self.preprocessed_frag@
    }

    pub closed spec fn both_view(&self) -> Seq<char> {
        self.both@
    }

    pub closed spec fn vertex_view(&self) -> Seq<char> {
        self.vertex@
    }

    pub closed spec fn fragment_view(&self) -> Seq<char> {
        self.fragment@
    }

    pub closed spec fn num_floats_view(&self) -> usize {
        self.num_floats
    }

    pub closed spec fn compiled_view(&self) -> Option<T> {
        self.compiled_program
    }

    pub closed spec fn other_mode_h_view(&self) -> u32 {
        self.other_mode_h
    }

    pub closed spec fn other_mode_l_view(&self) -> u32 {
        self.other_mode_l
    }

    pub closed spec fn geometry_mode_view(&self) -> u32 {
        self.geometry_mode
    }

    pub closed spec fn combine_view(&self) -> CombineParams {
        self.combine
    }

    /// Everything but the preprocessed text and the defines is the same.
    pub closed spec fn same_sources(&self, other: &Self) -> bool {
        &&& self.compiled_program == other.compiled_program
        &&& self.both@ == other.both@
        &&& self.vertex@ == other.vertex@
        &&& self.fragment@ == other.fragment@
        &&& self.num_floats == other.num_floats
        &&& self.other_mode_h_view() == other.other_mode_h_view()
        &&& self.other_mode_l_view() == other.other_mode_l_view()
        &&& self.geometry_mode_view() == other.geometry_mode_view()
        &&& self.combine_view() == other.combine_view()
    }

    /// The define table, in order.
    pub fn defines(&self) -> (r: &Vec<(String, String)>)
        ensures
            r@.map_values(|p: (String, String)| (p.0@, p.1@)) == self.defines_view(),
    {
        self.defines.entries()
    }

    /// The RDP state the program was made for: othermode high and low, geometry mode, combiner.
    pub fn config(&self) -> (r: (u32, u32, u32, CombineParams))
        ensures
            r == (self.other_mode_h_view(), self.other_mode_l_view(), self.geometry_mode_view(), self.combine_view()),
    {
        (self.other_mode_h, self.other_mode_l, self.geometry_mode, self.combine)
    }

    /// A changed define invalidates the preprocessed text.
    pub fn defines_changed(&mut self)
        ensures
            final(self).preprocessed_vertex_view().len() == 0,
            final(self).preprocessed_frag_view().len() == 0,
            final(self).defines_view() == old(self).defines_view(),
            final(self).same_sources(old(self)),
    {
        self.preprocessed_vertex = String::new();
        self.preprocessed_frag = String::new();
    }

    /// Define `name` as `v`, or undefine it for `None`. True when that changed the table (which
    /// then invalidates the preprocessed text); false when it already read so.
    pub fn set_define_string(&mut self, name: String, v: Option<String>) -> (changed: bool)
        requires
            old(self).wf(),
        ensures
            final(self).wf(),
            final(self).defines_view() == apply_define(old(self).defines_view(), name@, opt_view(v)),
            changed == (lookup(old(self).defines_view(), name@) != opt_view(v)),
            changed ==> final(self).preprocessed_vertex_view().len() == 0 && final(self).preprocessed_frag_view().len() == 0,
            !changed ==> final(self).preprocessed_vertex_view() == old(self).preprocessed_vertex_view()
                && final(self).preprocessed_frag_view() == old(self).preprocessed_frag_view(),
            final(self).same_sources(old(self)),
    {
        let changed = self.defines.set(name, v);
        if changed {
            self.defines_changed();
        }
        changed
    }

    /// Define `name` as "1" when `v`, else undefine it.
    pub fn set_define_bool(&mut self, name: String, v: bool) -> (changed: bool)
        requires
            old(self).wf(),
        ensures
            final(self).wf(),
            final(self).defines_view() == apply_define(old(self).defines_view(), name@, bool_value(v)),
            changed == (lookup(old(self).defines_view(), name@) != bool_value(v)),
            changed ==> final(self).preprocessed_vertex_view().len() == 0 && final(self).preprocessed_frag_view().len() == 0,
            !changed ==> final(self).preprocessed_vertex_view() == old(self).preprocessed_vertex_view()
                && final(self).preprocessed_frag_view() == old(self).preprocessed_frag_view(),
            final(self).same_sources(old(self)),
    {
        let value = if v {
            Some("1".to_owned())
        } else {
            None
        };
        self.set_define_string(name, value)
    }

    /// The value defined for `name`, if any.
    pub fn get_define_string(&self, name: &str) -> (r: Option<&String>)
        requires
            self.wf(),
        ensures
            match r {
                Some(s) => lookup(self.defines_view(), name@) == Some(s@),
                None => lookup(self.defines_view(), name@) is None,
            },
    {
        self.defines.get(name)
    }

    /// Whether `name` is defined; a boolean define is only ever "1".
    pub fn get_define_bool(&self, name: &str) -> (r: bool)
        requires
            self.wf(),
            lookup(self.defines_view(), name@) is Some ==> lookup(self.defines_view(), name@)
                == Some("1"@),
        ensures
            r == lookup(self.defines_view(), name@) is Some,
    {
        let s = self.get_define_string(name);
        s.is_some()
    }

    /// The GLSL version line, the defines in table order, then `shader`.
    pub fn preprocess_shader(&mut self, _shader_type: ShaderType, shader: &str) -> (r: String)
        ensures
            r@ == preprocessed_text(old(self).defines_view(), shader@),
            *final(self) == *old(self),
    {
        let mut out = String::new();
        out.append("\n            #version 140\n            ");
        let defines = self.defines.text();
        out.append(defines.as_str());
        out.append("\n            ");
        out.append(shader);
        out.append("\n            ");
        assert(out@ =~= preprocessed_text(self.defines@, shader@));
        out
    }

    /// Fill in the preprocessed vertex and fragment text, unless it is already there.
    pub fn preprocess(&mut self)
        ensures
            old(self).preprocessed_vertex_view().len() > 0 ==> *final(self) == *old(self),
            old(self).preprocessed_vertex_view().len() == 0 ==> {
                &&& final(self).preprocessed_vertex_view() == preprocessed_text(
                    old(self).defines_view(),
                    old(self).both_view() + old(self).vertex_view(),
                )
                &&& final(self).preprocessed_frag_view() == preprocessed_text(
                    old(self).defines_view(),
                    old(self).both_view() + old(self).fragment_view(),
                )
                &&& final(self).defines_view() == old(self).defines_view()
                &&& final(self).same_sources(old(self))
            },
    {
        if !self.preprocessed_vertex.as_str().is_empty() {
            return;
        }
        let mut vsrc = self.both.clone();
        vsrc.append(self.vertex.as_str());
        let mut fsrc = self.both.clone();
        fsrc.append(self.fragment.as_str());
        let v = self.preprocess_shader(ShaderType::Vertex, vsrc.as_str());
        let f = self.preprocess_shader(ShaderType::Fragment, fsrc.as_str());
        self.preprocessed_vertex = v;
        self.preprocessed_frag = f;
    }

    /// A program for this RDP state, with no defines and no sources yet.
    pub fn new(other_mode_h: u32, other_mode_l: u32, geometry_mode: u32, combine: CombineParams) -> (p: Self)
        ensures
            p.wf(),
            p.defines_view() == Seq::<(Seq<char>, Seq<char>)>::empty(),
            p.preprocessed_vertex_view().len() == 0,
            p.preprocessed_frag_view().len() == 0,
            p.both_view().len() == 0,
            p.vertex_view().len() == 0,
            p.fragment_view().len() == 0,
            p.compiled_view() is None,
            p.num_floats_view() == 0,
            p.other_mode_h_view() == other_mode_h,
            p.other_mode_l_view() == other_mode_l,
            p.geometry_mode_view() == geometry_mode,
            p.combine_view() == combine,
    {
        let p = OpenGLProgram {
            preprocessed_vertex: String::new(),
            preprocessed_frag: String::new(),
            compiled_program: None,
            both: String::new(),
            vertex: String::new(),
            fragment: String::new(),
            defines: DefineTable::new(),
            other_mode_h,
            other_mode_l,
            geometry_mode,
            combine,
            num_floats: 0,
        };
        p
    }

    /// The fragment shader for this program's texture filter and combiner, reading USE_FOG from
    /// the defines.
    fn generate_frag(&mut self) -> (r: String)
        requires
            old(self).wf(),
            texture_filter_decodes(old(self).other_mode_h_view()),
            lookup(old(self).defines_view(), "USE_FOG"@) is Some ==> lookup(
                old(self).defines_view(),
                "USE_FOG"@,
            ) == Some("1"@),
        ensures
            r@ == fragment_text(
                texture_filter_of(old(self).other_mode_h_view()),
                old(self).combine_view(),
                lookup(old(self).defines_view(), "USE_FOG"@) is Some,
            ),
            *final(self) == *old(self),
    {
        let filter = filter_name_of(texture_filter(self.other_mode_h));
        let fog = self.get_define_bool("USE_FOG");
        let c = self.combine;
        let mut out = String::new();
        out.append(FRAG_HEAD);
        out.append(filter);
        push_combine(
            &mut out,
            COLOR_CYCLE0_OPEN,
            color_input_a(c.c0.a),
            color_input_b(c.c0.b),
            color_input_c(c.c0.c),
            color_input_d(c.c0.d),
        );
        push_combine(
            &mut out,
            ALPHA_CYCLE0_OPEN,
            alpha_input_abd(c.a0.a, fog),
            alpha_input_abd(c.a0.b, fog),
            alpha_input_c(c.a0.c),
            alpha_input_abd(c.a0.d, fog),
        );
        push_combine(
            &mut out,
            COLOR_CYCLE1_OPEN,
            color_input_a(c.c1.a),
            color_input_b(c.c1.b),
            color_input_c(c.c1.c),
            color_input_d(c.c1.d),
        );
        push_combine(
            &mut out,
            ALPHA_CYCLE1_OPEN,
            alpha_input_abd(c.a1.a, fog),
            alpha_input_abd(c.a1.b, fog),
            alpha_input_c(c.a1.c),
            alpha_input_abd(c.a1.d, fog),
        );
        out.append(FRAG_TAIL);
        assert(out@ =~= fragment_text(
            texture_filter_of(self.other_mode_h),
            self.combine,
            fog,
        ));
        out
    }

    /// Set up the program from its RDP state: the feature defines (in `init_steps` order), the
    /// vertex-attribute float count (8, plus 2 for texture coordinates when a texture is used),
    /// and the shared, vertex and fragment sources.
    #[verifier::rlimit(40)]
    #[verifier::spinoff_prover]
    pub fn init(&mut self)
        requires
            old(self).wf(),
            render_mode_decodes(old(self).other_mode_l_view()),
            texture_filter_decodes(old(self).other_mode_h_view()),
        ensures
            ({
                let (h, l, g, c) = (
                    old(self).other_mode_h_view(),
                    old(self).other_mode_l_view(),
                    old(self).geometry_mode_view(),
                    old(self).combine_view(),
                );
                let steps = init_steps(h, l, g, c);
                &&& final(self).wf()
                &&& final(self).defines_view() == apply_all(old(self).defines_view(), steps)
                &&& lookup(final(self).defines_view(), "TWO_CYCLE"@) == bool_value((h >> 20u32) & 3u32 == 1)
                &&& lookup(final(self).defines_view(), "LIGHTING"@) == bool_value(g & 0x20000u32 != 0)
                &&& lookup(final(self).defines_view(), "TEXTURE_EDGE"@) == bool_value(l & 0x1000u32 != 0)
                &&& lookup(final(self).defines_view(), "USE_FOG"@) == bool_value((l >> 30u32) & 3u32 == 3)
                &&& lookup(final(self).defines_view(), "USE_ALPHA"@) == bool_value(
                    (l >> 18u32) & 3u32 == 0 || l & 0x1000u32 != 0,
                )
                &&& lookup(final(self).defines_view(), "ALPHA_COMPARE_DITHER"@) == bool_value(l & 3u32 == 3)
                &&& lookup(final(self).defines_view(), "ALPHA_COMPARE_THRESHOLD"@) == bool_value(l & 1u32 == 1)
                &&& any_change(old(self).defines_view(), steps) ==> final(self).preprocessed_vertex_view().len() == 0
                    && final(self).preprocessed_frag_view().len() == 0
                &&& !any_change(old(self).defines_view(), steps) ==> final(self).preprocessed_vertex_view()
                    == old(self).preprocessed_vertex_view() && final(self).preprocessed_frag_view()
                    == old(self).preprocessed_frag_view()
                &&& final(self).num_floats_view() == (if spec_uses_texture0(c) || spec_uses_texture1(c) {
                    10usize
                } else {
                    8usize
                })
                &&& final(self).both_view() == BOTH_SOURCE@
                &&& final(self).vertex_view() == VERTEX_SOURCE@
                &&& final(self).fragment_view() == fragment_text(
                    texture_filter_of(h),
                    c,
                    (l >> 30u32) & 3u32 == 3,
                )
                &&& final(self).compiled_view() == old(self).compiled_view()
                &&& final(self).other_mode_h_view() == h
                &&& final(self).other_mode_l_view() == l
                &&& final(self).geometry_mode_view() == g
                &&& final(self).combine_view() == c
            }),
    {
        let ghost d0 = self.defines_view();
        let ghost spec_steps = init_steps(self.other_mode_h, self.other_mode_l, self.geometry_mode, self.combine);
        proof {
            lemma_init_names_distinct(self.other_mode_h, self.other_mode_l, self.geometry_mode, self.combine);
        }
        let l = self.other_mode_l;
        let two_cycle = match cycle_type(self.other_mode_h) {
            CycleType::TwoCycle => true,
            _ => false,
        };
        let steps: [(&'static str, bool); 12] = [
            ("USE_ALPHA_VISUALIZER", false),
            ("ONLY_VERTEX_COLOR", false),
            ("TWO_CYCLE", two_cycle),
            ("LIGHTING", uses_lighting(self.geometry_mode)),
            ("USE_TEXTURE0", self.combine.uses_texture0()),
            ("USE_TEXTURE1", self.combine.uses_texture1()),
            ("TEXTURE_EDGE", uses_texture_edge(l)),
            ("USE_FOG", uses_fog(l)),
            ("USE_ALPHA", uses_alpha(l) || uses_texture_edge(l)),
            ("ALPHA_COMPARE_DITHER", alpha_compare_dither(l)),
            ("ALPHA_COMPARE_THRESHOLD", alpha_compare_threshold(l)),
            ("COLOR_ALPHA_SAME", self.combine.cc_ac_same(0)),
        ];
        assert forall|k: int| 0 <= k < 12 implies (#[trigger] steps@[k]).0@ == spec_steps[k].0
            && steps@[k].1 == spec_steps[k].1 by {}
        let ghost old_self = *self;
        let mut i: usize = 0;
        while i < 12
            invariant
                i <= 12,
                spec_steps == init_steps(old_self.other_mode_h, old_self.other_mode_l, old_self.geometry_mode, old_self.combine),
                spec_steps.len() == 12,
                forall|k: int| 0 <= k < 12 ==> (#[trigger] steps@[k]).0@ == spec_steps[k].0 && steps@[k].1 == spec_steps[k].1,
                self.wf(),
                self.same_sources(&old_self),
                self.defines_view() == apply_all(d0, spec_steps.take(i as int)),
                any_change(d0, spec_steps.take(i as int)) ==> self.preprocessed_vertex@.len() == 0
                    && self.preprocessed_frag@.len() == 0,
                !any_change(d0, spec_steps.take(i as int)) ==> self.preprocessed_vertex@ == old_self.preprocessed_vertex@
                    && self.preprocessed_frag@ == old_self.preprocessed_frag@,
            decreases 12 - i,
        {
            let (name, v) = steps[i];
            proof {
                assert(spec_steps.take(i + 1).drop_last() =~= spec_steps.take(i as int));
                assert(spec_steps.take(i + 1).last() == spec_steps[i as int]);
            }
            self.set_define_bool(name.to_owned(), v);
            i = i + 1;
        }
        proof {
            assert(spec_steps.take(12) =~= spec_steps);
            law_defines_read_back(d0, spec_steps, 4);
            law_defines_read_back(d0, spec_steps, 5);
            law_defines_read_back(d0, spec_steps, 7);
            law_init_defines(d0, old_self.other_mode_h, old_self.other_mode_l, old_self.geometry_mode, old_self.combine);
        }
        self.num_floats = 8;
        if self.get_define_bool("USE_TEXTURE0") || self.get_define_bool("USE_TEXTURE1") {
            self.num_floats = self.num_floats + 2;
        }
        self.both = BOTH_SOURCE.to_owned();
        self.vertex = VERTEX_SOURCE.to_owned();
        let fragment = self.generate_frag();
        self.fragment = fragment;
    }

    /// The vertex layout the GL program binds: the stride of `num_floats` f32s, position and
    /// color, and the texture coordinate when a texture is used.
    pub fn attribute_layout(&self) -> (r: (i32, Vec<GlAttribute>))
        requires
            self.wf(),
            bool_defined(self.defines_view(), "USE_TEXTURE0"@),
            bool_defined(self.defines_view(), "USE_TEXTURE1"@),
            self.num_floats_view() * 4 <= i32::MAX,
        ensures
            r.0 == self.num_floats_view() * 4,
            attribute_is(r.1@[0], "aVtxPos"@, 4, 0),
            attribute_is(r.1@[1], "aVtxColor"@, 4, 16),
            (defined(self.defines_view(), "USE_TEXTURE0"@) || defined(self.defines_view(), "USE_TEXTURE1"@))
                ==> r.1@.len() == 3 && attribute_is(r.1@[2], "aTexCoord"@, 2, 32),
            !(defined(self.defines_view(), "USE_TEXTURE0"@) || defined(self.defines_view(), "USE_TEXTURE1"@))
                ==> r.1@.len() == 2,
    {
        let mut attributes: Vec<GlAttribute> = Vec::new();
        attributes.push(GlAttribute { name: "aVtxPos", size: 4, offset: 0 });
        attributes.push(GlAttribute { name: "aVtxColor", size: 4, offset: 16 });
        if self.get_define_bool("USE_TEXTURE0") || self.get_define_bool("USE_TEXTURE1") {
            attributes.push(GlAttribute { name: "aTexCoord", size: 2, offset: 32 });
        }
        ((self.num_floats * 4) as i32, attributes)
    }

    /// The names of the uniforms to look up (see `gl_uniforms`).
    pub fn uniform_names(&self) -> (r: Vec<&'static str>)
        requires
            self.wf(),
            bool_defined(self.defines_view(), "USE_FOG"@),
            bool_defined(self.defines_view(), "USE_ALPHA"@),
            bool_defined(self.defines_view(), "ALPHA_COMPARE_DITHER"@),
        ensures
            r@.map_values(|n: &'static str| n@) == gl_uniforms(
                defined(self.defines_view(), "USE_FOG"@),
                defined(self.defines_view(), "USE_ALPHA"@) && defined(self.defines_view(), "ALPHA_COMPARE_DITHER"@),
            ),
    {
        let mut names: Vec<&'static str> = Vec::new();
        if self.get_define_bool("USE_FOG") {
            names.push("uFogColor");
        }
        names.push("uBlendColor");
        names.push("uPrimColor");
        names.push("uEnvColor");
        names.push("uKeyCenter");
        names.push("uKeyScale");
        names.push("uPrimLodFrac");
        names.push("uK4");
        names.push("uK5");
        if self.get_define_bool("USE_ALPHA") && self.get_define_bool("ALPHA_COMPARE_DITHER") {
            names.push("uFrameCount");
            names.push("uFrameHeight");
        }
        assert(names@.map_values(|n: &'static str| n@) =~= gl_uniforms(
            defined(self.defines@, "USE_FOG"@),
            defined(self.defines@, "USE_ALPHA"@) && defined(self.defines@, "ALPHA_COMPARE_DITHER"@),
        ));
        names
    }
}

} // verus!
