use crate::gui::renderer::combine::{
    alpha_compare_dither, alpha_compare_threshold, combine_expr, cycle_type, cycle_type_of, push_combine,
    render_mode_decodes, spec_uses_texture0, spec_uses_texture1, texture_filter, texture_filter_decodes,
    texture_filter_of, uses_alpha, uses_fog, uses_texture_edge, CombineParams, CycleType, TextureFilter,
};
use crate::gui::renderer::defines::{
    any_change, apply_all, bool_defined, bool_value, defined, distinct_names, law_defines_read_back, lookup,
    opt_view, step_names_distinct, DefineTable,
};
use vstd::prelude::*;
use vstd::string::StringExecFns;

verus! {

/// The shared preamble, up to the vertex input's texture coordinate.
pub const BOTH_HEAD: &'static str = r#"
            const tZero = vec4<f32>(0.0, 0.0, 0.0, 0.0);
            const tHalf = vec4<f32>(0.5 ,0.5, 0.5, 0.5);
            const tOne = vec4<f32>(1.0 ,1.0, 1.0, 1.0);

            const DRAWING_RECT: f32 = 0.0;

            struct VertexInput {
                @location(0) position: vec4<f32>,
                @location(1) color: vec4<f32>,
                "#;

/// Between the vertex input and output texture coordinates.
pub const BOTH_MID: &'static str = r#"
            };
            
            struct VertexOutput {
                @location(0) color: vec4<f32>,
                "#;

/// The rest of the shared preamble.
pub const BOTH_TAIL: &'static str = r#"
                @builtin(position) position: vec4<f32>,
            };

            "#;

/// The vertex shader, up to the fog uniform fields.
pub const VERTEX_HEAD: &'static str = r#"
            struct Uniforms {
                projection_matrix: mat4x4<f32>,
                "#;

/// The vertex shader, from the uniforms to the output color.
pub const VERTEX_MID: &'static str = r#"
            }

            @group(0) @binding(0)
            var<uniform> uniforms: Uniforms;

            @vertex
            fn vs_main(in: VertexInput) -> VertexOutput {
                var out: VertexOutput;

                if (in.position.w == DRAWING_RECT) {
                    out.position = uniforms.projection_matrix * vec4<f32>(in.position.xyz, 1.0);
                } else {
                    out.position = uniforms.projection_matrix * in.position;
                }

                // map z to [0, 1]
                out.position.z = (out.position.z + out.position.w) / (2.0 * out.position.w);

                "#;

/// The end of the vertex shader.
pub const VERTEX_TAIL: &'static str = r#"

                return out;
            }
            "#;

/// The fog uniform fields.
pub const FOG_FIELDS: &'static str = r#"
                    fog_multiplier: f32,
                    fog_offset: f32,
                    "#;

/// The vertex color with the fog factor in alpha.
pub const FOG_COLOR: &'static str = r#"
                    var fog_value = (max(0.0, out.position.z) - out.position.w) * uniforms.fog_multiplier + uniforms.fog_offset;
                    fog_value = clamp(fog_value, 0.0, 255.0);
                    out.color = vec4<f32>(in.color.xyz, fog_value);
                    "#;

/// The fragment shader's uniforms, up to the texture bindings.
pub const FRAGMENT_HEAD: &'static str = r#"
            struct BlendParamsUniforms {
                blend_color: vec4<f32>,
                fog_color: vec4<f32>,
            };
            
            struct CombineParamsUniforms {
                prim_color: vec4<f32>,
                env_color: vec4<f32>,
                key_center: vec3<f32>,
                key_scale: vec3<f32>,
                prim_lod_frac: f32,
                convert_k4: f32,
                convert_k5: f32,
            };
            
            struct FrameUniforms {
                count: u32,
                height: u32,
            };

            @group(1) @binding(0)
            var<uniform> blend_uniforms: BlendParamsUniforms;
            @group(1) @binding(1)
            var<uniform> combine_uniforms: CombineParamsUniforms;
            @group(1) @binding(2)
            var<uniform> frame_uniforms: FrameUniforms;

            "#;

/// Filters and the first cycle's color combine function, up to its expression.
pub const FRAGMENT_SAMPLERS: &'static str = r#"
            
            fn random(value: vec3<f32>) -> f32 {
                var random = dot(sin(value), vec3<f32>(12.9898, 78.233, 37.719));
                return fract(sin(random) * 143758.5453);
            }

            fn textureSampleN64Point(tex: texture_2d<f32>, samplr: sampler, uv: vec2<f32>) -> vec4<f32> {
                return textureSample(tex, samplr, uv);
            }

            fn textureSampleN64Average(tex: texture_2d<f32>, samplr: sampler, uv: vec2<f32>) -> vec4<f32> {
                // Unimplemented.
                return textureSample(tex, samplr, uv);
            }

            fn textureSampleN64Bilerp(tex: texture_2d<f32>, samplr: sampler, uv: vec2<f32>) -> vec4<f32> {
                var tex_size = vec2<f32>(textureDimensions(tex, 0));
                var offset = fract(uv * tex_size - 0.5);
            
                var offset_sign = sign(offset);
                var offset_abs = abs(offset);

                var s0 = textureSample(tex, samplr, uv - offset / tex_size);
                var s1 = textureSample(tex, samplr, uv - offset_sign * vec2<f32>(1.0, 0.0) / tex_size);
                var s2 = textureSample(tex, samplr, uv - offset_sign * vec2<f32>(0.0, 1.0) / tex_size);
            
                return s0 + offset_abs.x * (s1 - s0) + offset_abs.y * (s2 - s0);
            }

            fn combineColorCycle0(comb_color: vec4<f32>, shade_color: vec4<f32>, tex0: vec4<f32>, tex1: vec4<f32>, noise: f32) -> vec3<f32> {
                return ("#;

/// The first cycle's alpha combine function, up to its expression.
pub const ALPHA_CYCLE0_FN: &'static str = r#";
            }

            fn combineAlphaCycle0(comb_color: vec4<f32>, shade_color: vec4<f32>, tex0: vec4<f32>, tex1: vec4<f32>, noise: f32) -> f32 {
                return ("#;

/// The second cycle's color combine function, up to its expression.
pub const COLOR_CYCLE1_FN: &'static str = r#";
            }

            fn combineColorCycle1(comb_color: vec4<f32>, shade_color: vec4<f32>, tex0: vec4<f32>, tex1: vec4<f32>, noise: f32) -> vec3<f32> {
                return ("#;

/// The second cycle's alpha combine function, up to its expression.
pub const ALPHA_CYCLE1_FN: &'static str = r#";
            }
            
            fn combineAlphaCycle1(comb_color: vec4<f32>, shade_color: vec4<f32>, tex0: vec4<f32>, tex1: vec4<f32>, noise: f32) -> f32 {
                return ("#;

/// The fragment entry point, up to the texture samples.
pub const FRAGMENT_MAIN: &'static str = r#";
            }

            @fragment
            fn fs_main(in: VertexOutput) -> @location(0) vec4<f32> {
                var tex_val0 = tOne;
                var tex_val1 = tOne;

                "#;

/// The noise and the first combine cycle.
pub const FRAGMENT_FIRST_CYCLE: &'static str = r#"
                
                var noise = (random(vec3(floor(in.position.xy * (240.0 / f32(frame_uniforms.height))), f32(frame_uniforms.count))) + 1.0) / 2.0;

                var texel = vec4<f32>(
                    combineColorCycle0(tHalf, in.color, tex_val0, tex_val1, noise),
                    combineAlphaCycle0(tHalf, in.color, tex_val0, tex_val1, noise)
                );

                "#;

/// The end of the fragment shader.
pub const FRAGMENT_END: &'static str = r#"

                return texel;
            }
            "#;

/// The texture 0 and sampler 0 bindings.
pub const TEXTURE0_BINDINGS: &'static str = r#"
                @group(2) @binding(0)
                var texture0: texture_2d<f32>;
                @group(2) @binding(1)
                var sampler0: sampler;
                "#;

/// The texture 1 and sampler 1 bindings.
pub const TEXTURE1_BINDINGS: &'static str = r#"
                @group(2) @binding(2)
                var texture1: texture_2d<f32>;
                @group(2) @binding(3)
                var sampler1: sampler;
            "#;

/// The second combine cycle, with the texels swapped.
pub const SECOND_CYCLE: &'static str = r#"
                // Note that in the second cycle, Tex0 and Tex1 are swapped
                texel = vec4<f32>(
                     combineColorCycle1(texel, in.color tex_val1, tex_val0, noise),
                     combineAlphaCycle1(texel, in.color, tex_val1, tex_val0, noise)
                 );
                "#;

/// The dithered alpha compare.
pub const DITHER_DISCARD: &'static str = r#"
                var random_alpha = floor(random(vec3(floor(in.position.xy * (240.0 / f32(frame_uniforms.height))), f32(frame_uniforms.count))) + 0.5);
                if texel.a < random_alpha { discard; }
                "#;

/// `s` when `b`, else nothing.
pub open spec fn when(b: bool, s: Seq<char>) -> Seq<char> {
    if b {
        s
    } else {
        Seq::empty()
    }
}

/// The shared preamble: constants and the vertex input and output structs, with a texture
/// coordinate when texture 0 is used.
pub open spec fn wgsl_both(d: Seq<(Seq<char>, Seq<char>)>) -> Seq<char> {
    let uv = defined(d, "USE_TEXTURE0"@);
    BOTH_HEAD@ + when(uv, "@location(2) uv: vec2<f32>,"@) + BOTH_MID@ + when(
        uv,
        "@location(1) uv: vec2<f32>,"@,
    ) + BOTH_TAIL@
}

/// The vertex shader: fog uniforms and a fogged color under USE_FOG, and the texture coordinate
/// passed through under USE_TEXTURE0.
pub open spec fn wgsl_vertex(d: Seq<(Seq<char>, Seq<char>)>) -> Seq<char> {
    let fog = defined(d, "USE_FOG"@);
    VERTEX_HEAD@ + (if fog {
        FOG_FIELDS@
    } else {
        "_pad: vec2<f32>,"@
    }) + VERTEX_MID@ + (if fog {
        FOG_COLOR@
    } else {
        "out.color = in.color;"@
    }) + "\n\n                "@ + when(defined(d, "USE_TEXTURE0"@), "out.uv = in.uv;"@) + VERTEX_TAIL@
}

pub open spec fn w_color_common(x: u32) -> Seq<char> {
    if x == 0 {
        "comb_color.rgb"@
    } else if x == 1 {
        "tex0.rgb"@
    } else if x == 2 {
        "tex1.rgb"@
    } else if x == 3 {
        "combine_uniforms.prim_color.rgb"@
    } else if x == 4 {
        "shade_color.rgb"@
    } else {
        "combine_uniforms.env_color.rgb"@
    }
}

pub open spec fn w_color_a(x: u32) -> Seq<char> {
    if x <= 5 {
        w_color_common(x)
    } else if x == 6 {
        "tOne.rgb"@
    } else if x == 7 {
        "vec3(noise, noise, noise)"@
    } else {
        "tZero.rgb"@
    }
}

pub open spec fn w_color_b(x: u32) -> Seq<char> {
    if x <= 5 {
        w_color_common(x)
    } else if x == 6 {
        "combine_uniforms.key_center"@
    } else if x == 7 {
        "vec3(combine_uniforms.convert_k4, combine_uniforms.convert_k4, combine_uniforms.convert_k4)"@
    } else {
        "tZero.rgb"@
    }
}

pub open spec fn w_color_c(x: u32) -> Seq<char> {
    if x <= 5 {
        w_color_common(x)
    } else if x == 6 {
        "combine_uniforms.key_scale"@
    } else if x == 7 {
        "comb_color.aaa"@
    } else if x == 8 {
        "tex0.aaa"@
    } else if x == 9 {
        "tex1.aaa"@
    } else if x == 10 {
        "combine_uniforms.prim_color.aaa"@
    } else if x == 11 {
        "shade_color.aaa"@
    } else if x == 12 {
        "combine_uniforms.env_color.aaa"@
    } else if x == 14 {
        "vec3(combine_uniforms.prim_lod_frac, combine_uniforms.prim_lod_frac, combine_uniforms.prim_lod_frac)"@
    } else if x == 15 {
        "vec3(combine_uniforms.convert_k5, combine_uniforms.convert_k5, combine_uniforms.convert_k5)"@
    } else {
        "tZero.rgb"@
    }
}

pub open spec fn w_color_d(x: u32) -> Seq<char> {
    if x <= 5 {
        w_color_common(x)
    } else if x == 6 {
        "tOne.rgb"@
    } else {
        "tZero.rgb"@
    }
}

pub open spec fn w_alpha_abd(x: u32, fog: bool) -> Seq<char> {
    if x == 0 {
        "comb_color.a"@
    } else if x == 1 {
        "tex0.a"@
    } else if x == 2 {
        "tex1.a"@
    } else if x == 3 {
        "combine_uniforms.prim_color.a"@
    } else if x == 4 {
        if fog {
            "tOne.a"@
        } else {
            "shade_color.a"@
        }
    } else if x == 5 {
        "combine_uniforms.env_color.a"@
    } else if x == 6 {
        "tOne.a"@
    } else {
        "tZero.a"@
    }
}

pub open spec fn w_alpha_c(x: u32) -> Seq<char> {
    if x == 1 {
        "tex0.a"@
    } else if x == 2 {
        "tex1.a"@
    } else if x == 3 {
        "combine_uniforms.prim_color.a"@
    } else if x == 4 {
        "shade_color.a"@
    } else if x == 5 {
        "combine_uniforms.env_color.a"@
    } else if x == 6 {
        "combine_uniforms.prim_lod_frac"@
    } else {
        "tZero.a"@
    }
}

pub open spec fn w_filter_name(f: TextureFilter) -> Seq<char> {
    match f {
        TextureFilter::Point => "Point"@,
        TextureFilter::Average => "Average"@,
        TextureFilter::Bilerp => "Bilerp"@,
    }
}

/// The statement that samples texture `unit` (0 or 1) with the N64 filter.
pub open spec fn sample_line(unit: int, f: TextureFilter) -> Seq<char> {
    if unit == 0 {
        "tex_val0 = textureSampleN64"@ + w_filter_name(f) + "(texture0, sampler0, in.uv);"@
    } else {
        "tex_val1 = textureSampleN64"@ + w_filter_name(f) + "(texture1, sampler1, in.uv);"@
    }
}

/// The fragment shader: texture bindings and samples for the textures in use, the four combine
/// functions, the second cycle under TWO_CYCLE, the alpha discards under USE_ALPHA, and the fog
/// blend under USE_FOG.
pub open spec fn wgsl_fragment(f: TextureFilter, c: CombineParams, d: Seq<(Seq<char>, Seq<char>)>) -> Seq<char> {
    let t0 = defined(d, "USE_TEXTURE0"@);
    let t1 = defined(d, "USE_TEXTURE1"@);
    let fog = defined(d, "USE_FOG"@);
    let alpha = defined(d, "USE_ALPHA"@);
    let two = defined(d, "TWO_CYCLE"@);
    FRAGMENT_HEAD@ + when(t0, TEXTURE0_BINDINGS@) + "\n\n            "@ + when(t1, TEXTURE1_BINDINGS@)
        + FRAGMENT_SAMPLERS@ + combine_expr(
        w_color_a(c.c0.a),
        w_color_b(c.c0.b),
        w_color_c(c.c0.c),
        w_color_d(c.c0.d),
    ) + ALPHA_CYCLE0_FN@ + combine_expr(
        w_alpha_abd(c.a0.a, fog),
        w_alpha_abd(c.a0.b, fog),
        w_alpha_c(c.a0.c),
        w_alpha_abd(c.a0.d, fog),
    ) + COLOR_CYCLE1_FN@ + combine_expr(
        w_color_a(c.c1.a),
        w_color_b(c.c1.b),
        w_color_c(c.c1.c),
        w_color_d(c.c1.d),
    ) + ALPHA_CYCLE1_FN@ + combine_expr(
        w_alpha_abd(c.a1.a, fog),
        w_alpha_abd(c.a1.b, fog),
        w_alpha_c(c.a1.c),
        w_alpha_abd(c.a1.d, fog),
    ) + FRAGMENT_MAIN@ + when(t0, sample_line(0, f)) + "\n                "@ + when(t1, sample_line(1, f))
        + FRAGMENT_FIRST_CYCLE@ + when(two, SECOND_CYCLE@) + "\n\n                "@ + when(
        alpha,
        DITHER_DISCARD@,
    ) + "\n                "@ + when(alpha, "if texel.a < blend_uniforms.blend_color.a { discard; }"@)
        + "\n\n                "@ + when(alpha, "if texel.a < 0.125 { discard; }"@) + "\n\n                "@
        + when(alpha, "texel = mix(texel, vec4<f32>(1.0, 0.0, 1.0, 1.0), 0.5);"@) + "\n\n                "@
        + when(fog, "texel = vec4<f32>(mix(texel.rgb, blend_uniforms.fog_color.rgb, in.color.a), texel.a);"@)
        + FRAGMENT_END@
}

/// The defines `init` sets, in order.
pub open spec fn wgpu_init_steps(h: u32, l: u32, c: CombineParams) -> Seq<(Seq<char>, bool)> {
    seq![
        ("USE_ALPHA_VISUALIZER"@, false),
        ("ONLY_VERTEX_COLOR"@, false),
        ("TWO_CYCLE"@, cycle_type_of(h) == CycleType::TwoCycle),
        ("USE_TEXTURE0"@, spec_uses_texture0(c)),
        ("USE_TEXTURE1"@, spec_uses_texture1(c)),
        ("TEXTURE_EDGE"@, l & 0x1000u32 != 0),
        ("USE_FOG"@, (l >> 30u32) & 3u32 == 3),
        ("USE_ALPHA"@, (l >> 18u32) & 3u32 == 0 || l & 0x1000u32 != 0),
        ("ALPHA_COMPARE_DITHER"@, l & 3u32 == 3),
        ("ALPHA_COMPARE_THRESHOLD"@, l & 1u32 == 1),
        ("COLOR_ALPHA_SAME"@, c.c0 == c.a0),
    ]
}

proof fn lemma_wgpu_names_distinct(h: u32, l: u32, c: CombineParams)
    ensures
        step_names_distinct(wgpu_init_steps(h, l, c)),
{
    reveal_strlit("USE_ALPHA_VISUALIZER");
    reveal_strlit("ONLY_VERTEX_COLOR");
    reveal_strlit("TWO_CYCLE");
    reveal_strlit("USE_TEXTURE0");
    reveal_strlit("USE_TEXTURE1");
    reveal_strlit("TEXTURE_EDGE");
    reveal_strlit("USE_FOG");
    reveal_strlit("USE_ALPHA");
    reveal_strlit("ALPHA_COMPARE_DITHER");
    reveal_strlit("ALPHA_COMPARE_THRESHOLD");
    reveal_strlit("COLOR_ALPHA_SAME");
    let s = wgpu_init_steps(h, l, c);
    assert forall|i: int, j: int| 0 <= i < j < s.len() implies #[trigger] s[i].0 != #[trigger] s[j].0 by {
        if s[i].0 == s[j].0 {
            assert(s[i].0.len() == s[j].0.len());
            assert(s[i].0[0] == s[j].0[0]);
            assert(s[i].0[4] == s[j].0[4]);
            assert(s[i].0[s[i].0.len() - 1] == s[j].0[s[j].0.len() - 1]);
        }
    }
}

/// After the WGSL program's defines run over a table with distinct names, each feature define is
/// set ("1") exactly when the RDP state asks for it, read straight off the mode bits: TWO_CYCLE
/// only for cycle type 1 (othermode-high bits 20..21; never for one-cycle, copy or fill),
/// TEXTURE_EDGE for CVG_X_ALPHA (othermode-low 0x1000), USE_FOG for a fog blender (bits 30..31
/// equal 3), USE_ALPHA for a first-cycle 1-A blender alpha (bits 18..19 equal 0) or a texture
/// edge, and the alpha-compare modes from bits 0..1; the two debug defines are never set.
pub proof fn law_wgpu_init_defines(d: Seq<(Seq<char>, Seq<char>)>, h: u32, l: u32, c: CombineParams)
    requires
        distinct_names(d),
    ensures
        ({
            let t = apply_all(d, wgpu_init_steps(h, l, c));
            &&& distinct_names(t)
            &&& lookup(t, "USE_ALPHA_VISUALIZER"@) is None
            &&& lookup(t, "ONLY_VERTEX_COLOR"@) is None
            &&& lookup(t, "TWO_CYCLE"@) == bool_value((h >> 20u32) & 3u32 == 1)
            &&& lookup(t, "USE_TEXTURE0"@) == bool_value(spec_uses_texture0(c))
            &&& lookup(t, "USE_TEXTURE1"@) == bool_value(spec_uses_texture1(c))
            &&& lookup(t, "TEXTURE_EDGE"@) == bool_value(l & 0x1000u32 != 0)
            &&& lookup(t, "USE_FOG"@) == bool_value((l >> 30u32) & 3u32 == 3)
            &&& lookup(t, "USE_ALPHA"@) == bool_value((l >> 18u32) & 3u32 == 0 || l & 0x1000u32 != 0)
            &&& lookup(t, "ALPHA_COMPARE_DITHER"@) == bool_value(l & 3u32 == 3)
            &&& lookup(t, "ALPHA_COMPARE_THRESHOLD"@) == bool_value(l & 1u32 == 1)
            &&& lookup(t, "COLOR_ALPHA_SAME"@) == bool_value(c.c0 == c.a0)
        }),
{
    let s = wgpu_init_steps(h, l, c);
    lemma_wgpu_names_distinct(h, l, c);
    law_defines_read_back(d, s, 0);
    law_defines_read_back(d, s, 1);
    law_defines_read_back(d, s, 2);
    law_defines_read_back(d, s, 3);
    law_defines_read_back(d, s, 4);
    law_defines_read_back(d, s, 5);
    law_defines_read_back(d, s, 6);
    law_defines_read_back(d, s, 7);
    law_defines_read_back(d, s, 8);
    law_defines_read_back(d, s, 9);
    law_defines_read_back(d, s, 10);
    assert(s[0].0 == "USE_ALPHA_VISUALIZER"@);
    assert(s[1].0 == "ONLY_VERTEX_COLOR"@);
    assert(s[2].0 == "TWO_CYCLE"@);
    assert(s[3].0 == "USE_TEXTURE0"@);
    assert(s[4].0 == "USE_TEXTURE1"@);
    assert(s[5].0 == "TEXTURE_EDGE"@);
    assert(s[6].0 == "USE_FOG"@);
    assert(s[7].0 == "USE_ALPHA"@);
    assert(s[8].0 == "ALPHA_COMPARE_DITHER"@);
    assert(s[9].0 == "ALPHA_COMPARE_THRESHOLD"@);
    assert(s[10].0 == "COLOR_ALPHA_SAME"@);
    assert((cycle_type_of(h) == CycleType::TwoCycle) == ((h >> 20u32) & 3u32 == 1));
}

fn w_color_input_common(x: u32) -> (r: &'static str)
    requires
        x <= 5,
    ensures
        r@ == w_color_common(x),
{
    if x == 0 {
        "comb_color.rgb"
    } else if x == 1 {
        "tex0.rgb"
    } else if x == 2 {
        "tex1.rgb"
    } else if x == 3 {
        "combine_uniforms.prim_color.rgb"
    } else if x == 4 {
        "shade_color.rgb"
    } else {
        "combine_uniforms.env_color.rgb"
    }
}

fn w_color_input_a(x: u32) -> (r: &'static str)
    ensures
        r@ == w_color_a(x),
{
    if x <= 5 {
        w_color_input_common(x)
    } else if x == 6 {
        "tOne.rgb"
    } else if x == 7 {
        "vec3(noise, noise, noise)"
    } else {
        "tZero.rgb"
    }
}

fn w_color_input_b(x: u32) -> (r: &'static str)
    ensures
        r@ == w_color_b(x),
{
    if x <= 5 {
        w_color_input_common(x)
    } else if x == 6 {
        "combine_uniforms.key_center"
    } else if x == 7 {
        "vec3(combine_uniforms.convert_k4, combine_uniforms.convert_k4, combine_uniforms.convert_k4)"
    } else {
        "tZero.rgb"
    }
}

fn w_color_input_c(x: u32) -> (r: &'static str)
    ensures
        r@ == w_color_c(x),
{
    if x <= 5 {
        w_color_input_common(x)
    } else if x == 6 {
        "combine_uniforms.key_scale"
    } else if x == 7 {
        "comb_color.aaa"
    } else if x == 8 {
        "tex0.aaa"
    } else if x == 9 {
        "tex1.aaa"
    } else if x == 10 {
        "combine_uniforms.prim_color.aaa"
    } else if x == 11 {
        "shade_color.aaa"
    } else if x == 12 {
        "combine_uniforms.env_color.aaa"
    } else if x == 14 {
        "vec3(combine_uniforms.prim_lod_frac, combine_uniforms.prim_lod_frac, combine_uniforms.prim_lod_frac)"
    } else if x == 15 {
        "vec3(combine_uniforms.convert_k5, combine_uniforms.convert_k5, combine_uniforms.convert_k5)"
    } else {
        "tZero.rgb"
    }
}

fn w_color_input_d(x: u32) -> (r: &'static str)
    ensures
        r@ == w_color_d(x),
{
    if x <= 5 {
        w_color_input_common(x)
    } else if x == 6 {
        "tOne.rgb"
    } else {
        "tZero.rgb"
    }
}

fn w_alpha_input_abd(x: u32, fog: bool) -> (r: &'static str)
    ensures
        r@ == w_alpha_abd(x, fog),
{
    if x == 0 {
        "comb_color.a"
    } else if x == 1 {
        "tex0.a"
    } else if x == 2 {
        "tex1.a"
    } else if x == 3 {
        "combine_uniforms.prim_color.a"
    } else if x == 4 {
        if fog {
            "tOne.a"
        } else {
            "shade_color.a"
        }
    } else if x == 5 {
        "combine_uniforms.env_color.a"
    } else if x == 6 {
        "tOne.a"
    } else {
        "tZero.a"
    }
}

fn w_alpha_input_c(x: u32) -> (r: &'static str)
    ensures
        r@ == w_alpha_c(x),
{
    if x == 1 {
        "tex0.a"
    } else if x == 2 {
        "tex1.a"
    } else if x == 3 {
        "combine_uniforms.prim_color.a"
    } else if x == 4 {
        "shade_color.a"
    } else if x == 5 {
        "combine_uniforms.env_color.a"
    } else if x == 6 {
        "combine_uniforms.prim_lod_frac"
    } else {
        "tZero.a"
    }
}

fn w_filter_name_of(f: TextureFilter) -> (r: &'static str)
    ensures
        r@ == w_filter_name(f),
{
    match f {
        TextureFilter::Point => "Point",
        TextureFilter::Average => "Average",
        TextureFilter::Bilerp => "Bilerp",
    }
}

/// A vertex attribute's element format.
#[derive(Clone, Copy, Debug, PartialEq, Eq)]
pub enum VertexFormat {
    Float32x2,
    Float32x4,
}

/// One attribute of the per-vertex buffer layout.
#[derive(Clone, Copy, Debug, PartialEq, Eq)]
pub struct VertexAttribute {
    pub format: VertexFormat,
    pub offset: u64,
    pub shader_location: u32,
}

/// The per-vertex buffer layout: the stride in bytes and the attributes.
pub struct VertexLayout {
    pub array_stride: u64,
    pub attributes: Vec<VertexAttribute>,
}

/// An entry of the fragment stage's texture bind group.
#[derive(Clone, Copy, Debug, PartialEq, Eq)]
pub enum TextureBinding {
    /// A filterable 2D float texture at this binding.
    Texture(u32),
    /// A filtering sampler at this binding.
    Sampler(u32),
}

/// The attributes: position and color, then the texture coordinate when a texture is used.
pub open spec fn layout_attributes(textured: bool) -> Seq<VertexAttribute> {
    let base = seq![
        VertexAttribute { format: VertexFormat::Float32x4, offset: 0, shader_location: 0 },
        VertexAttribute { format: VertexFormat::Float32x4, offset: 16, shader_location: 1 },
    ];
    if textured {
        base.push(VertexAttribute { format: VertexFormat::Float32x2, offset: 32, shader_location: 2 })
    } else {
        base
    }
}

/// The texture bind group: a texture and its sampler for each texture in use, texture `i` at
/// bindings `2i` and `2i + 1`.
pub open spec fn texture_entries(t0: bool, t1: bool) -> Seq<TextureBinding> {
    (if t0 {
        seq![TextureBinding::Texture(0), TextureBinding::Sampler(1)]
    } else {
        Seq::empty()
    }) + (if t1 {
        seq![TextureBinding::Texture(2), TextureBinding::Sampler(3)]
    } else {
        Seq::empty()
    })
}

/// A WGSL shader program built from the RDP state: its define table, sources, the combined
/// source, and the compiled module once the device has made one.
pub struct WgpuProgram<T> {
    pub processed_shader: String,
    pub compiled_program: Option<T>,
    pub both: String,
    pub vertex: String,
    pub fragment: String,
    defines: DefineTable,
    other_mode_h: u32,
    other_mode_l: u32,
    geometry_mode: u32,
    combine: CombineParams,
    pub num_floats: usize,
}

impl<T> WgpuProgram<T> {
    pub closed spec fn defines_view(&self) -> Seq<(Seq<char>, Seq<char>)> {
        self.defines@
    }

    pub closed spec fn wf(&self) -> bool {
        self.defines.wf()
    }

    pub closed spec fn processed_view(&self) -> Seq<char> {
        self.processed_shader@
    }

    pub closed spec fn both_view(&self) -> Seq<char> {
        self.both@
    }

    pub closed spec fn vertex_view(&self) -> Seq<char> {
        self.vertex@
    }

    pub closed spec fn fragment_view(&self) -> Seq<char> {
        self.fragment@
    }

    pub closed spec fn num_floats_view(&self) -> usize {
        self.num_floats
    }

    pub closed spec fn compiled_view(&self) -> Option<T> {
        self.compiled_program
    }

    pub closed spec fn other_mode_h_view(&self) -> u32 {
        self.other_mode_h
    }

    pub closed spec fn other_mode_l_view(&self) -> u32 {
        self.other_mode_l
    }

    pub closed spec fn geometry_mode_view(&self) -> u32 {
        self.geometry_mode
    }

    pub closed spec fn combine_view(&self) -> CombineParams {
        self.combine
    }

    /// Everything but the combined source and the defines is the same.
    pub closed spec fn same_sources(&self, other: &Self) -> bool {
        &&& self.compiled_program == other.compiled_program
        &&& self.both@ == other.both@
        &&& self.vertex@ == other.vertex@
        &&& self.fragment@ == other.fragment@
        &&& self.num_floats == other.num_floats
        &&& self.other_mode_h == other.other_mode_h
        &&& self.other_mode_l == other.other_mode_l
        &&& self.geometry_mode == other.geometry_mode
        &&& self.combine == other.combine
    }

    /// The define table, in order.
    pub fn defines(&self) -> (r: &Vec<(String, String)>)
        ensures
            r@.map_values(|p: (String, String)| (p.0@, p.1@)) == self.defines_view(),
    {
        self.defines.entries()
    }

    /// The RDP state the program was made for: othermode high and low, geometry mode, combiner.
    pub fn config(&self) -> (r: (u32, u32, u32, CombineParams))
        ensures
            r == (self.other_mode_h_view(), self.other_mode_l_view(), self.geometry_mode_view(), self.combine_view()),
    {
        (self.other_mode_h, self.other_mode_l, self.geometry_mode, self.combine)
    }

    /// A changed define invalidates the combined source.
    pub fn defines_changed(&mut self)
        ensures
            final(self).processed_view().len() == 0,
            final(self).defines_view() == old(self).defines_view(),
            final(self).same_sources(old(self)),
    {
        self.processed_shader = String::new();
    }

    /// Define `name` as `v`, or undefine it for `None`. True when that changed the table (which
    /// then invalidates the combined source); false when it already read so.
    pub fn set_define_string(&mut self, name: String, v: Option<String>) -> (changed: bool)
        requires
            old(self).wf(),
        ensures
            final(self).wf(),
            final(self).defines_view() == crate::gui::renderer::defines::apply_define(
                old(self).defines_view(),
                name@,
                opt_view(v),
            ),
            changed == (lookup(old(self).defines_view(), name@) != opt_view(v)),
            changed ==> final(self).processed_view().len() == 0,
            !changed ==> final(self).processed_view() == old(self).processed_view(),
            final(self).same_sources(old(self)),
    {
        let changed = self.defines.set(name, v);
        if changed {
            self.defines_changed();
        }
        changed
    }

    /// Define `name` as "1" when `v`, else undefine it.
    pub fn set_define_bool(&mut self, name: String, v: bool) -> (changed: bool)
        requires
            old(self).wf(),
        ensures
            final(self).wf(),
            final(self).defines_view() == crate::gui::renderer::defines::apply_define(
                old(self).defines_view(),
                name@,
                bool_value(v),
            ),
            changed == (lookup(old(self).defines_view(), name@) != bool_value(v)),
            changed ==> final(self).processed_view().len() == 0,
            !changed ==> final(self).processed_view() == old(self).processed_view(),
            final(self).same_sources(old(self)),
    {
        let value = if v {
            Some("1".to_owned())
        } else {
            None
        };
        self.set_define_string(name, value)
    }

    /// The value defined for `name`, if any.
    pub fn get_define_string(&self, name: &str) -> (r: Option<&String>)
        requires
            self.wf(),
        ensures
            match r {
                Some(s) => lookup(self.defines_view(), name@) == Some(s@),
                None => lookup(self.defines_view(), name@) is None,
            },
    {
        self.defines.get(name)
    }

    /// Whether `name` is defined; a boolean define is only ever "1".
    pub fn get_define_bool(&self, name: &str) -> (r: bool)
        requires
            self.wf(),
            bool_defined(self.defines_view(), name@),
        ensures
            r == defined(self.defines_view(), name@),
    {
        let s = self.get_define_string(name);
        s.is_some()
    }

    /// The combined source: the shared preamble, the vertex shader, then the fragment shader;
    /// left as it is when already there.
    pub fn preprocess(&mut self)
        ensures
            old(self).processed_view().len() > 0 ==> *final(self) == *old(self),
            old(self).processed_view().len() == 0 ==> {
                &&& final(self).processed_view() == old(self).both_view() + old(self).vertex_view()
                    + old(self).fragment_view()
                &&& final(self).defines_view() == old(self).defines_view()
                &&& final(self).same_sources(old(self))
            },
    {
        if !self.processed_shader.as_str().is_empty() {
            return;
        }
        let mut s = self.both.clone();
        s.append(self.vertex.as_str());
        s.append(self.fragment.as_str());
        self.processed_shader = s;
    }

    /// A program for this RDP state, with no defines and no sources yet.
    pub fn new(other_mode_h: u32, other_mode_l: u32, geometry_mode: u32, combine: CombineParams) -> (p: Self)
        ensures
            p.wf(),
            p.defines_view() == Seq::<(Seq<char>, Seq<char>)>::empty(),
            p.processed_view().len() == 0,
            p.both_view().len() == 0,
            p.vertex_view().len() == 0,
            p.fragment_view().len() == 0,
            p.compiled_view() is None,
            p.num_floats_view() == 0,
            p.other_mode_h_view() == other_mode_h,
            p.other_mode_l_view() == other_mode_l,
            p.geometry_mode_view() == geometry_mode,
            p.combine_view() == combine,
    {
        WgpuProgram {
            processed_shader: String::new(),
            compiled_program: None,
            both: String::new(),
            vertex: String::new(),
            fragment: String::new(),
            defines: DefineTable::new(),
            other_mode_h,
            other_mode_l,
            geometry_mode,
            combine,
            num_floats: 0,
        }
    }

    /// `output` when the first name of `def` is defined, else nothing; later names are not
    /// consulted.
    fn on_define(&self, def: &[&str], output: &'static str) -> (r: &'static str)
        requires
            self.wf(),
            def@.len() > 0 ==> bool_defined(self.defines_view(), def@[0]@),
        ensures
            r@ == when(def@.len() > 0 && defined(self.defines_view(), def@[0]@), output@),
    {
        proof {
            reveal_strlit("");
        }
        if def.len() == 0 {
            return "";
        }
        if self.get_define_bool(def[0]) {
            output
        } else {
            ""
        }
    }

    /// As `on_define`, for an owned string.
    fn on_define_str(&self, def: &[&str], output: String) -> (r: String)
        requires
            self.wf(),
            def@.len() > 0 ==> bool_defined(self.defines_view(), def@[0]@),
        ensures
            r@ == when(def@.len() > 0 && defined(self.defines_view(), def@[0]@), output@),
    {
        if def.len() == 0 {
            return String::new();
        }
        if self.get_define_bool(def[0]) {
            output
        } else {
            String::new()
        }
    }

    /// The vertex shader for the current defines.
    fn generate_vertex(&mut self) -> (r: String)
        requires
            old(self).wf(),
            bool_defined(old(self).defines_view(), "USE_FOG"@),
            bool_defined(old(self).defines_view(), "USE_TEXTURE0"@),
        ensures
            r@ == wgsl_vertex(old(self).defines_view()),
            *final(self) == *old(self),
    {
        let fog = self.get_define_bool("USE_FOG");
        let fog_params = if fog {
            FOG_FIELDS
        } else {
            "_pad: vec2<f32>,"
        };
        let color = if fog {
            FOG_COLOR
        } else {
            "out.color = in.color;"
        };
        let uv = self.on_define(&["USE_TEXTURE0", "USE_TEXTURE1"], "out.uv = in.uv;");
        let mut out = String::new();
        out.append(VERTEX_HEAD);
        out.append(fog_params);
        out.append(VERTEX_MID);
        out.append(color);
        out.append("\n\n                ");
        out.append(uv);
        out.append(VERTEX_TAIL);
        assert(out@ =~= wgsl_vertex(self.defines@));
        out
    }

    /// The fragment shader for this program's texture filter, combiner and defines.
    fn generate_fragment(&mut self) -> (r: String)
        requires
            old(self).wf(),
            texture_filter_decodes(old(self).other_mode_h_view()),
            bool_defined(old(self).defines_view(), "USE_FOG"@),
            bool_defined(old(self).defines_view(), "USE_TEXTURE0"@),
            bool_defined(old(self).defines_view(), "USE_TEXTURE1"@),
            bool_defined(old(self).defines_view(), "USE_ALPHA"@),
            bool_defined(old(self).defines_view(), "TWO_CYCLE"@),
        ensures
            r@ == wgsl_fragment(
                texture_filter_of(old(self).other_mode_h_view()),
                old(self).combine_view(),
                old(self).defines_view(),
            ),
            *final(self) == *old(self),
    {
        let filter = w_filter_name_of(texture_filter(self.other_mode_h));
        let fog = self.get_define_bool("USE_FOG");
        let c = self.combine;
        let mut out = String::new();
        out.append(FRAGMENT_HEAD);
        out.append(self.on_define(&["USE_TEXTURE0"], TEXTURE0_BINDINGS));
        out.append("\n\n            ");
        out.append(self.on_define(&["USE_TEXTURE1"], TEXTURE1_BINDINGS));
        push_combine(
            &mut out,
            FRAGMENT_SAMPLERS,
            w_color_input_a(c.c0.a),
            w_color_input_b(c.c0.b),
            w_color_input_c(c.c0.c),
            w_color_input_d(c.c0.d),
        );
        push_combine(
            &mut out,
            ALPHA_CYCLE0_FN,
            w_alpha_input_abd(c.a0.a, fog),
            w_alpha_input_abd(c.a0.b, fog),
            w_alpha_input_c(c.a0.c),
            w_alpha_input_abd(c.a0.d, fog),
        );
        push_combine(
            &mut out,
            COLOR_CYCLE1_FN,
            w_color_input_a(c.c1.a),
            w_color_input_b(c.c1.b),
            w_color_input_c(c.c1.c),
            w_color_input_d(c.c1.d),
        );
        push_combine(
            &mut out,
            ALPHA_CYCLE1_FN,
            w_alpha_input_abd(c.a1.a, fog),
            w_alpha_input_abd(c.a1.b, fog),
            w_alpha_input_c(c.a1.c),
            w_alpha_input_abd(c.a1.d, fog),
        );
        out.append(FRAGMENT_MAIN);
        let mut sample0 = "tex_val0 = textureSampleN64".to_owned();
        sample0.append(filter);
        sample0.append("(texture0, sampler0, in.uv);");
        let sample0 = self.on_define_str(&["USE_TEXTURE0"], sample0);
        out.append(sample0.as_str());
        out.append("\n                ");
        let mut sample1 = "tex_val1 = textureSampleN64".to_owned();
        sample1.append(filter);
        sample1.append("(texture1, sampler1, in.uv);");
        let sample1 = self.on_define_str(&["USE_TEXTURE1"], sample1);
        out.append(sample1.as_str());
        out.append(FRAGMENT_FIRST_CYCLE);
        out.append(self.on_define(&["TWO_CYCLE"], SECOND_CYCLE));
        out.append("\n\n                ");
        out.append(self.on_define(&["USE_ALPHA", "ALPHA_COMPARE_DITHER"], DITHER_DISCARD));
        out.append("\n                ");
        out.append(
            self.on_define(
                &["USE_ALPHA", "ALPHA_COMPARE_THRESHOLD"],
                "if texel.a < blend_uniforms.blend_color.a { discard; }",
            ),
        );
        out.append("\n\n                ");
        out.append(self.on_define(&["USE_ALPHA", "TEXTURE_EDGE"], "if texel.a < 0.125 { discard; }"));
        out.append("\n\n                ");
        out.append(
            self.on_define(
                &["USE_ALPHA", "USE_ALPHA_VISUALIZER"],
                "texel = mix(texel, vec4<f32>(1.0, 0.0, 1.0, 1.0), 0.5);",
            ),
        );
        out.append("\n\n                ");
        out.append(
            self.on_define(
                &["USE_FOG"],
                "texel = vec4<f32>(mix(texel.rgb, blend_uniforms.fog_color.rgb, in.color.a), texel.a);",
            ),
        );
        out.append(FRAGMENT_END);
        assert(out@ =~= wgsl_fragment(texture_filter_of(self.other_mode_h), self.combine, self.defines@));
        out
    }

    /// Set up the program from its RDP state: the feature defines (in `wgpu_init_steps` order),
    /// the vertex-attribute float count (8, plus 2 for texture coordinates when a texture is
    /// used), and the shared, vertex and fragment sources.
    pub fn init(&mut self)
        requires
            old(self).wf(),
            render_mode_decodes(old(self).other_mode_l_view()),
            texture_filter_decodes(old(self).other_mode_h_view()),
        ensures
            ({
                let (h, l, g, c) = (
                    old(self).other_mode_h_view(),
                    old(self).other_mode_l_view(),
                    old(self).geometry_mode_view(),
                    old(self).combine_view(),
                );
                let steps = wgpu_init_steps(h, l, c);
                let d = apply_all(old(self).defines_view(), steps);
                &&& final(self).wf()
                &&& final(self).defines_view() == d
                &&& lookup(d, "TWO_CYCLE"@) == bool_value((h >> 20u32) & 3u32 == 1)
                &&& lookup(d, "TEXTURE_EDGE"@) == bool_value(l & 0x1000u32 != 0)
                &&& lookup(d, "USE_FOG"@) == bool_value((l >> 30u32) & 3u32 == 3)
                &&& lookup(d, "USE_ALPHA"@) == bool_value((l >> 18u32) & 3u32 == 0 || l & 0x1000u32 != 0)
                &&& lookup(d, "ALPHA_COMPARE_DITHER"@) == bool_value(l & 3u32 == 3)
                &&& lookup(d, "ALPHA_COMPARE_THRESHOLD"@) == bool_value(l & 1u32 == 1)
                &&& any_change(old(self).defines_view(), steps) ==> final(self).processed_view().len() == 0
                &&& !any_change(old(self).defines_view(), steps) ==> final(self).processed_view()
                    == old(self).processed_view()
                &&& final(self).num_floats_view() == (if spec_uses_texture0(c) || spec_uses_texture1(c) {
                    10usize
                } else {
                    8usize
                })
                &&& final(self).both_view() == wgsl_both(d)
                &&& final(self).vertex_view() == wgsl_vertex(d)
                &&& final(self).fragment_view() == wgsl_fragment(texture_filter_of(h), c, d)
                &&& final(self).compiled_view() == old(self).compiled_view()
                &&& final(self).other_mode_h_view() == h
                &&& final(self).other_mode_l_view() == l
                &&& final(self).geometry_mode_view() == g
                &&& final(self).combine_view() == c
            }),
    {
        let ghost d0 = self.defines_view();
        let ghost spec_steps = wgpu_init_steps(self.other_mode_h, self.other_mode_l, self.combine);
        proof {
            lemma_wgpu_names_distinct(self.other_mode_h, self.other_mode_l, self.combine);
        }
        let l = self.other_mode_l;
        let two_cycle = match cycle_type(self.other_mode_h) {
            CycleType::TwoCycle => true,
            _ => false,
        };
        let steps: [(&'static str, bool); 11] = [
            ("USE_ALPHA_VISUALIZER", false),
            ("ONLY_VERTEX_COLOR", false),
            ("TWO_CYCLE", two_cycle),
            ("USE_TEXTURE0", self.combine.uses_texture0()),
            ("USE_TEXTURE1", self.combine.uses_texture1()),
            ("TEXTURE_EDGE", uses_texture_edge(l)),
            ("USE_FOG", uses_fog(l)),
            ("USE_ALPHA", uses_alpha(l) || uses_texture_edge(l)),
            ("ALPHA_COMPARE_DITHER", alpha_compare_dither(l)),
            ("ALPHA_COMPARE_THRESHOLD", alpha_compare_threshold(l)),
            ("COLOR_ALPHA_SAME", self.combine.cc_ac_same(0)),
        ];
        assert forall|k: int| 0 <= k < 11 implies (#[trigger] steps@[k]).0@ == spec_steps[k].0
            && steps@[k].1 == spec_steps[k].1 by {}
        let ghost old_self = *self;
        let mut i: usize = 0;
        while i < 11
            invariant
                i <= 11,
                spec_steps == wgpu_init_steps(old_self.other_mode_h, old_self.other_mode_l, old_self.combine),
                spec_steps.len() == 11,
                forall|k: int| 0 <= k < 11 ==> (#[trigger] steps@[k]).0@ == spec_steps[k].0 && steps@[k].1 == spec_steps[k].1,
                self.wf(),
                self.same_sources(&old_self),
                self.defines_view() == apply_all(d0, spec_steps.take(i as int)),
                any_change(d0, spec_steps.take(i as int)) ==> self.processed_shader@.len() == 0,
                !any_change(d0, spec_steps.take(i as int)) ==> self.processed_shader@ == old_self.processed_shader@,
            decreases 11 - i,
        {
            let (name, v) = steps[i];
            proof {
                assert(spec_steps.take(i + 1).drop_last() =~= spec_steps.take(i as int));
                assert(spec_steps.take(i + 1).last() == spec_steps[i as int]);
            }
            self.set_define_bool(name.to_owned(), v);
            i = i + 1;
        }
        proof {
            assert(spec_steps.take(11) =~= spec_steps);
            law_defines_read_back(d0, spec_steps, 2);
            law_defines_read_back(d0, spec_steps, 3);
            law_defines_read_back(d0, spec_steps, 4);
            law_defines_read_back(d0, spec_steps, 6);
            law_defines_read_back(d0, spec_steps, 7);
            law_wgpu_init_defines(d0, old_self.other_mode_h, old_self.other_mode_l, old_self.combine);
        }
        self.num_floats = 8;
        if self.get_define_bool("USE_TEXTURE0") || self.get_define_bool("USE_TEXTURE1") {
            self.num_floats = self.num_floats + 2;
        }
        let mut both = BOTH_HEAD.to_owned();
        both.append(self.on_define(&["USE_TEXTURE0", "USE_TEXTURE1"], "@location(2) uv: vec2<f32>,"));
        both.append(BOTH_MID);
        both.append(self.on_define(&["USE_TEXTURE0", "USE_TEXTURE1"], "@location(1) uv: vec2<f32>,"));
        both.append(BOTH_TAIL);
        assert(both@ =~= wgsl_both(self.defines@));
        self.both = both;
        let vertex = self.generate_vertex();
        self.vertex = vertex;
        let fragment = self.generate_fragment();
        self.fragment = fragment;
    }

    /// The vertex buffer layout: a stride of `num_floats` f32s, position and color, and the
    /// texture coordinate when a texture is used.
    pub fn vertex_description(&self) -> (r: VertexLayout)
        requires
            self.wf(),
            bool_defined(self.defines_view(), "USE_TEXTURE0"@),
            bool_defined(self.defines_view(), "USE_TEXTURE1"@),
            self.num_floats_view() * 4 <= usize::MAX,
        ensures
            r.array_stride == self.num_floats_view() * 4,
            r.attributes@ == layout_attributes(
                defined(self.defines_view(), "USE_TEXTURE0"@) || defined(self.defines_view(), "USE_TEXTURE1"@),
            ),
    {
        let mut attributes: Vec<VertexAttribute> = Vec::new();
        attributes.push(VertexAttribute { format: VertexFormat::Float32x4, offset: 0, shader_location: 0 });
        attributes.push(VertexAttribute { format: VertexFormat::Float32x4, offset: 16, shader_location: 1 });
        if self.get_define_bool("USE_TEXTURE0") || self.get_define_bool("USE_TEXTURE1") {
            attributes.push(VertexAttribute { format: VertexFormat::Float32x2, offset: 32, shader_location: 2 });
        }
        let stride = self.num_floats * 4;
        assert(attributes@ =~= layout_attributes(
            defined(self.defines@, "USE_TEXTURE0"@) || defined(self.defines@, "USE_TEXTURE1"@),
        ));
        VertexLayout { array_stride: stride as u64, attributes }
    }

    /// The texture bind group's entries: for each texture in use, its texture and sampler.
    pub fn texture_bind_group_entries(&self) -> (r: Vec<TextureBinding>)
        requires
            self.wf(),
            bool_defined(self.defines_view(), "USE_TEXTURE0"@),
            bool_defined(self.defines_view(), "USE_TEXTURE1"@),
        ensures
            r@ == texture_entries(
                defined(self.defines_view(), "USE_TEXTURE0"@),
                defined(self.defines_view(), "USE_TEXTURE1"@),
            ),
    {
        let mut entries: Vec<TextureBinding> = Vec::new();
        let names: [&'static str; 2] = ["USE_TEXTURE0", "USE_TEXTURE1"];
        let mut i: u32 = 0;
        while i < 2
            invariant
                i <= 2,
                names@[0]@ == "USE_TEXTURE0"@,
                names@[1]@ == "USE_TEXTURE1"@,
                self.wf(),
                bool_defined(self.defines_view(), "USE_TEXTURE0"@),
                bool_defined(self.defines_view(), "USE_TEXTURE1"@),
                entries@ == (if i == 0 {
                    Seq::empty()
                } else if i == 1 {
                    texture_entries(defined(self.defines_view(), "USE_TEXTURE0"@), false)
                } else {
                    texture_entries(
                        defined(self.defines_view(), "USE_TEXTURE0"@),
                        defined(self.defines_view(), "USE_TEXTURE1"@),
                    )
                }),
            decreases 2 - i,
        {
            if self.get_define_bool(names[i as usize]) {
                entries.push(TextureBinding::Texture(i * 2));
                entries.push(TextureBinding::Sampler(i * 2 + 1));
            }
            i = i + 1;
            assert(entries@ =~= (if i == 1 {
                texture_entries(defined(self.defines_view(), "USE_TEXTURE0"@), false)
            } else {
                texture_entries(
                    defined(self.defines_view(), "USE_TEXTURE0"@),
                    defined(self.defines_view(), "USE_TEXTURE1"@),
                )
            }));
        }
        entries
    }
}

} // verus!
