use helix::gui::renderer::combine::{CombineParams, CombinePass};
use helix::gui::renderer::opengl_program::{GlAttribute, OpenGLProgram, ShaderType, BOTH_SOURCE, VERTEX_SOURCE};
use helix::gui::renderer::gl_state::{
    gfx_blend_factor_to_gl, gfx_blend_operation_to_gl, gfx_cm_to_opengl, gfx_compare_to_gl, set_blend_state, set_cull_mode,
    set_depth_stencil_params, wrap_mode, BlendComponent, BlendFactor, BlendOperation, BlendState, CompareFunction, DepthStencil,
    Face, GlCall, WrapMode,
};

fn color_common(x: u32) -> &'static str {
    match x {
        0 => "tCombColor.rgb",
        1 => "texVal0.rgb",
        2 => "texVal1.rgb",
        3 => "uPrimColor.rgb",
        4 => "vVtxColor.rgb",
        5 => "uEnvColor.rgb",
        _ => unreachable!(),
    }
}

fn ca(x: u32) -> &'static str {
    if x <= 5 { color_common(x) } else { match x { 6 => "tOne.rgb", 7 => "vec3(RAND_NOISE, RAND_NOISE, RAND_NOISE)", _ => "tZero.rgb" } }
}

fn cb(x: u32) -> &'static str {
    if x <= 5 { color_common(x) } else { match x { 6 => "uKeyCenter", 7 => "vec3(uK4, uK4, uK4)", _ => "tZero.rgb" } }
}

fn cc(x: u32) -> &'static str {
    if x <= 5 {
        color_common(x)
    } else {
        match x {
            6 => "uKeyScale",
            7 => "tCombColor.aaa",
            8 => "texVal0.aaa",
            9 => "texVal1.aaa",
            10 => "uPrimColor.aaa",
            11 => "vVtxColor.aaa",
            12 => "uEnvColor.aaa",
            13 => "tZero.rgb",
            14 => "vec3(uPrimLodFrac, uPrimLodFrac, uPrimLodFrac)",
            15 => "vec3(uK5, uK5, uK5)",
            _ => "tZero.rgb",
        }
    }
}

fn cd(x: u32) -> &'static str {
    if x <= 5 { color_common(x) } else { match x { 6 => "tOne.rgb", _ => "tZero.rgb" } }
}

fn aabd(x: u32, fog: bool) -> &'static str {
    match x {
        0 => "tCombColor.a",
        1 => "texVal0.a",
        2 => "texVal1.a",
        3 => "uPrimColor.a",
        4 => if fog { "tOne.a" } else { "vVtxColor.a" },
        5 => "uEnvColor.a",
        6 => "tOne.a",
        _ => "tZero.a",
    }
}

fn ac(x: u32) -> &'static str {
    match x {
        0 => "tZero.a",
        1 => "texVal0.a",
        2 => "texVal1.a",
        3 => "uPrimColor.a",
        4 => "vVtxColor.a",
        5 => "uEnvColor.a",
        6 => "uPrimLodFrac",
        _ => "tZero.a",
    }
}

fn expected_fragment(filter: &str, c: &CombineParams, fog: bool) -> String {
    format!(
        r#"
            in vec4 vVtxColor;

            #if defined(USE_TEXTURE0) || defined(USE_TEXTURE1)
                in vec2 vTexCoord;
            #endif

            #ifdef USE_FOG
                uniform vec3 uFogColor;
            #endif

            // blend parameters
            uniform vec4 uBlendColor;

            // combine parameters
            // TODO: use a uniform block?
            uniform vec4 uPrimColor;
            uniform vec4 uEnvColor;
            uniform vec3 uKeyCenter;
            uniform vec3 uKeyScale;
            uniform float uPrimLodFrac;
            uniform float uK4;
            uniform float uK5;

            #ifdef USE_TEXTURE0
                uniform sampler2D uTex0;
            #endif
            #ifdef USE_TEXTURE1
                uniform sampler2D uTex1;
            #endif

            #if defined(USE_ALPHA)
                #if defined(ALPHA_COMPARE_DITHER)
                    uniform int uFrameCount;
                    uniform int uFrameHeight;

                    float random(in vec3 value) {{
                        float random = dot(sin(value), vec3(12.9898, 78.233, 37.719));
                        return fract(sin(random) * 143758.5453);
                    }}
                #endif
            #endif

            out vec4 outColor;

            #define TEX_OFFSET(offset) texture(tex, texCoord - (offset) / texSize)
            #define RAND_NOISE "((random(vec3(floor(gl_FragCoord.xy * (240.0 / float(uFrameHeight)), float(uFrameCount))) + 1.0) / 2.0)"

            vec4 Texture2D_N64_Point(in sampler2D tex, in vec2 texCoord) {{
                return texture(tex, texCoord);
            }}
            
            vec4 Texture2D_N64_Average(in sampler2D tex, in vec2 texCoord) {{
                // Unimplemented.
                return texture(tex, texCoord);
            }}
            
            // Implements N64-style "triangle bilienar filtering" with three taps.
            // Based on ArthurCarvalho's implementation, modified for use here.
            vec4 Texture2D_N64_Bilerp(in sampler2D tex, in vec2 texCoord) {{
                vec2 texSize = vec2(textureSize(tex, 0));
                vec2 offset = fract(texCoord * texSize - vec2(0.5));
                offset -= step(1.0, offset.x + offset.y);
                vec4 s0 = TEX_OFFSET(offset);
                vec4 s1 = TEX_OFFSET(vec2(offset.x - sign(offset.x), offset.y));
                vec4 s2 = TEX_OFFSET(vec2(offset.x, offset.y - sign(offset.y)));
                return s0 + abs(offset.x) * (s1 - s0) + abs(offset.y) * (s2 - s0);
            }}
            
            #define Texture2D_N64 Texture2D_N64_{}

            vec3 CombineColorCycle0(vec4 tCombColor, vec4 texVal0, vec4 texVal1) {{
                return ({} - {}) * {} + {};
            }} 
            
            float CombineAlphaCycle0(vec4 tCombColor, vec4 texVal0, vec4 texVal1) {{
                return ({} - {}) * {} + {};
            }}
            
            vec3 CombineColorCycle1(vec4 tCombColor, vec4 texVal0, vec4 texVal1) {{
                return ({} - {}) * {} + {};
            }}
            
            float CombineAlphaCycle1(vec4 tCombColor, vec4 texVal0, vec4 texVal1) {{
                return ({} - {}) * {} + {};
            }}

            vec3 to_linear(vec3 v) {{
                return pow(v, vec3(2.2));
            }}

            vec4 to_linear(vec4 v) {{
                return vec4(to_linear(v.rgb), v.a);
            }}

            vec3 to_srgb(vec3 v) {{
                return pow(v, vec3(1.0 / 2.2));
            }}
            
            vec4 to_srgb(vec4 v) {{
                return vec4(to_srgb(v.rgb), v.a);
            }}

            void main() {{
                vec4 texVal0 = tOne, texVal1 = tOne;

                #ifdef USE_TEXTURE0
                    texVal0 = Texture2D_N64(uTex0, vTexCoord);
                #endif
                #ifdef USE_TEXTURE1
                    texVal1 = Texture2D_N64(uTex1, vTexCoord);
                #endif

                #ifdef ONLY_VERTEX_COLOR
                    vec4 texel = vVtxColor;
                #else
                    vec4 texel = vec4(
                        CombineColorCycle0(tHalf, texVal0, texVal1),
                        CombineAlphaCycle0(tHalf, texVal0, texVal1)
                    );
                    
                    #ifdef TWO_CYCLE
                        // Note that in the second cycle, Tex0 and Tex1 are swapped
                        texel = vec4(
                            CombineColorCycle1(texel, texVal1, texVal0),
                            CombineAlphaCycle1(texel, texVal1, texVal0)
                        );
                    #endif
                #endif

                #if defined(USE_ALPHA)
                    #if defined(ALPHA_COMPARE_DITHER)
                        if (texel.a < floor(random(vec3(floor(gl_FragCoord.xy * (240.0 / float(uFrameHeight))), float(uFrameCount))) + 0.5)) discard;
                    #endif
                    
                    #if defined(ALPHA_COMPARE_THRESHOLD)
                        if (texel.a < uBlendColor.a) discard;
                    #endif

                    #if defined(TEXTURE_EDGE)
                        if (texel.a < 0.125) discard;
                    #endif

                    #if defined(USE_ALPHA_VISUALIZER)
                        texel = mix(texel, vec4(1.0f, 0.0f, 1.0f, 1.0f), 0.5f);
                    #endif
                #endif

                // TODO: Blender
                #ifdef USE_FOG
                    texel = vec4(mix(texel.rgb, uFogColor.rgb, vVtxColor.a), texel.a);
                #endif

                outColor = texel;
            }}
        "#,
        filter,
        ca(c.c0.a), cb(c.c0.b), cc(c.c0.c), cd(c.c0.d),
        aabd(c.a0.a, fog), aabd(c.a0.b, fog), ac(c.a0.c), aabd(c.a0.d, fog),
        ca(c.c1.a), cb(c.c1.b), cc(c.c1.c), cd(c.c1.d),
        aabd(c.a1.a, fog), aabd(c.a1.b, fog), ac(c.a1.c), aabd(c.a1.d, fog),
    )
}

fn pass(a: u32, b: u32, c: u32, d: u32) -> CombinePass {
    CombinePass { a, b, c, d }
}

/// TEXEL0 modulated by SHADE, both cycles.
fn modulate() -> CombineParams {
    CombineParams {
        c0: pass(1, 0x1F, 4, 0x1F),
        a0: pass(7, 7, 7, 1),
        c1: pass(1, 0x1F, 4, 0x1F),
        a1: pass(7, 7, 7, 1),
    }
}

fn shade() -> CombineParams {
    CombineParams { c0: pass(0, 0, 0, 4), a0: pass(0, 0, 0, 4), c1: pass(0, 0, 0, 4), a1: pass(0, 0, 0, 4) }
}

fn define(p: &OpenGLProgram<u32>, name: &str) -> Option<String> {
    p.get_define_string(name).cloned()
}

#[test]
fn init_sets_feature_defines_from_the_rdp_state() {
    // Two-cycle, bilerp filter; fog, texture edge and a dithered alpha compare in othermode low.
    let h = (1 << 20) | (2 << 12);
    let l = (3 << 30) | 0x1000 | 3;
    let mut p: OpenGLProgram<u32> = OpenGLProgram::new(h, l, 0x20000, modulate());
    p.init();
    for name in ["TWO_CYCLE", "LIGHTING", "USE_TEXTURE0", "TEXTURE_EDGE", "USE_FOG", "USE_ALPHA", "ALPHA_COMPARE_DITHER", "ALPHA_COMPARE_THRESHOLD"] {
        assert_eq!(define(&p, name), Some("1".to_string()), "{name}");
        assert!(p.get_define_bool(name));
    }
    for name in ["USE_ALPHA_VISUALIZER", "ONLY_VERTEX_COLOR", "USE_TEXTURE1", "COLOR_ALPHA_SAME"] {
        assert_eq!(define(&p, name), None, "{name}");
    }
    assert_eq!(p.num_floats, 10);
    assert_eq!(p.both, BOTH_SOURCE);
    assert_eq!(p.vertex, VERTEX_SOURCE);
    assert_eq!(p.fragment, expected_fragment("Bilerp", &modulate(), true));
    assert_eq!(p.defines().len(), 8);
}

#[test]
fn shade_only_program_has_no_texture_coordinates() {
    let mut p: OpenGLProgram<u32> = OpenGLProgram::new(0, 0, 0, shade());
    p.init();
    assert_eq!(p.num_floats, 8);
    assert_eq!(define(&p, "USE_ALPHA"), Some("1".to_string()), "blender alpha field 0 is 1 - alpha");
    assert_eq!(define(&p, "COLOR_ALPHA_SAME"), Some("1".to_string()));
    assert_eq!(define(&p, "TWO_CYCLE"), None);
    assert_eq!(p.fragment, expected_fragment("Point", &shade(), false));
    assert!(p.fragment.contains("#define Texture2D_N64 Texture2D_N64_Point"));
    assert!(p.fragment.contains("return (tCombColor.rgb - tCombColor.rgb) * tCombColor.rgb + vVtxColor.rgb;"));
}

#[test]
fn every_combiner_input_maps_like_the_template() {
    for x in 0u32..32 {
        let c = CombineParams { c0: pass(x, x, x, x), a0: pass(x & 7, x & 7, x & 7, x & 7), c1: pass(x, 0, x, 0), a1: pass(0, x & 7, 0, x & 7) };
        for (l, fog) in [(0u32, false), (3u32 << 30, true)] {
            let mut p: OpenGLProgram<u32> = OpenGLProgram::new(3 << 12, l, 0, c);
            p.init();
            assert_eq!(p.fragment, expected_fragment("Average", &c, fog), "input {x} fog {fog}");
        }
    }
}

#[test]
fn set_define_reports_changes_and_invalidates_preprocessing() {
    let mut p: OpenGLProgram<u32> = OpenGLProgram::new(0, 0, 0, shade());
    p.init();
    p.preprocess();
    assert!(!p.preprocessed_vertex.is_empty());
    assert!(!p.set_define_bool("USE_FOG".to_string(), false), "already undefined");
    assert!(!p.preprocessed_vertex.is_empty(), "no change keeps the preprocessed text");
    assert!(p.set_define_string("EXTRA".to_string(), Some("2".to_string())));
    assert!(p.preprocessed_vertex.is_empty() && p.preprocessed_frag.is_empty());
    assert!(!p.set_define_string("EXTRA".to_string(), Some("2".to_string())));
    assert!(p.set_define_string("EXTRA".to_string(), Some("3".to_string())));
    assert_eq!(define(&p, "EXTRA"), Some("3".to_string()));
    assert!(p.set_define_string("EXTRA".to_string(), None));
    assert_eq!(define(&p, "EXTRA"), None);
    assert!(!p.set_define_string("EXTRA".to_string(), None));
}

#[test]
fn preprocess_prepends_version_and_defines_once() {
    let mut p: OpenGLProgram<u32> = OpenGLProgram::new(0, 0, 0, shade());
    p.set_define_bool("A".to_string(), true);
    p.set_define_string("B".to_string(), Some("x y".to_string()));
    p.both = "both;".to_string();
    p.vertex = "vert;".to_string();
    p.fragment = "frag;".to_string();
    p.preprocess();
    let head = "\n            #version 140\n            #define A 1\n#define B x y\n\n            ";
    assert_eq!(p.preprocessed_vertex, format!("{head}both;vert;\n            "));
    assert_eq!(p.preprocessed_frag, format!("{head}both;frag;\n            "));
    p.vertex = "changed;".to_string();
    p.preprocess();
    assert_eq!(p.preprocessed_vertex, format!("{head}both;vert;\n            "), "already preprocessed");
    assert_eq!(p.preprocess_shader(ShaderType::Fragment, "s"), format!("{head}s\n            "));
}

#[test]
fn new_program_is_empty() {
    let p: OpenGLProgram<u32> = OpenGLProgram::new(1, 2, 3, shade());
    assert!(p.defines().is_empty());
    assert_eq!(p.num_floats, 0);
    assert!(p.compiled_program.is_none());
    assert_eq!(p.config(), (1, 2, 3, shade()));
    assert!(!p.get_define_bool("USE_FOG"));
}

#[test]
fn combiner_texture_use_and_color_alpha_match() {
    assert!(modulate().uses_texture0());
    assert!(!modulate().uses_texture1());
    let c = CombineParams { c0: pass(0, 0, 9, 0), a0: pass(0, 0, 0, 0), c1: pass(0, 0, 0, 0), a1: pass(0, 0, 0, 0) };
    assert!(c.uses_texture1() && !c.uses_texture0());
    assert!(!c.cc_ac_same(0));
    assert!(c.cc_ac_same(1));
}

#[test]
fn gl_attribute_layout_and_uniforms_follow_the_defines() {
    let h = 0;
    let l = (3 << 30) | 3;
    let mut p: OpenGLProgram<u32> = OpenGLProgram::new(h, l, 0, modulate());
    p.init();
    let (stride, attrs) = p.attribute_layout();
    assert_eq!(stride, 40);
    assert_eq!(
        attrs,
        vec![
            GlAttribute { name: "aVtxPos", size: 4, offset: 0 },
            GlAttribute { name: "aVtxColor", size: 4, offset: 16 },
            GlAttribute { name: "aTexCoord", size: 2, offset: 32 },
        ]
    );
    assert_eq!(
        p.uniform_names(),
        vec!["uFogColor", "uBlendColor", "uPrimColor", "uEnvColor", "uKeyCenter", "uKeyScale", "uPrimLodFrac", "uK4", "uK5", "uFrameCount", "uFrameHeight"]
    );
    let mut q: OpenGLProgram<u32> = OpenGLProgram::new(0, 1 << 18, 0, shade());
    q.init();
    let (stride, attrs) = q.attribute_layout();
    assert_eq!((stride, attrs.len()), (32, 2));
    assert_eq!(q.uniform_names().len(), 8, "no fog, no blender alpha: no dither uniforms");
}

#[test]
fn tile_modes_and_blend_state_map_to_gl_enums() {
    assert_eq!(wrap_mode(0), WrapMode::Repeat);
    assert_eq!(wrap_mode(1), WrapMode::MirroredRepeat);
    assert_eq!(wrap_mode(2), WrapMode::ClampToEdge);
    assert_eq!(wrap_mode(3), WrapMode::ClampToEdge, "clamp wins over mirror");
    assert_eq!(gfx_cm_to_opengl(0), 0x2901);
    assert_eq!(gfx_cm_to_opengl(1), 0x8370);
    assert_eq!(gfx_cm_to_opengl(3), 0x812F);
    assert_eq!(gfx_blend_operation_to_gl(BlendOperation::Add), 0x8006);
    assert_eq!(gfx_blend_operation_to_gl(BlendOperation::ReverseSubtract), 0x800B);
    assert_eq!(gfx_blend_operation_to_gl(BlendOperation::Max), 0x8008);
    assert_eq!(gfx_blend_factor_to_gl(BlendFactor::Zero), 0);
    assert_eq!(gfx_blend_factor_to_gl(BlendFactor::OneMinusSrcAlpha), 0x0303);
    assert_eq!(gfx_blend_factor_to_gl(BlendFactor::Dst), 0x0306);
    assert_eq!(gfx_blend_factor_to_gl(BlendFactor::OneMinusConstant), 0x8002);
}

#[test]
fn gl_state_calls_for_depth_blend_and_cull() {
    assert_eq!(set_depth_stencil_params(None), vec![GlCall::Disable(0x0B71)]);
    let decal = DepthStencil { depth_write_enabled: false, depth_compare: CompareFunction::LessEqual, polygon_offset: true };
    assert_eq!(
        set_depth_stencil_params(Some(decal)),
        vec![
            GlCall::Enable(0x0B71),
            GlCall::DepthMask(false),
            GlCall::DepthFunc(0x0203),
            GlCall::PolygonOffset { decal: true },
            GlCall::Enable(0x8037),
        ]
    );
    let opaque = DepthStencil { depth_write_enabled: true, depth_compare: CompareFunction::Less, polygon_offset: false };
    assert_eq!(set_depth_stencil_params(Some(opaque))[4], GlCall::Disable(0x8037));
    assert_eq!(gfx_compare_to_gl(CompareFunction::Always), 0x0207);
    let over = BlendComponent { src_factor: BlendFactor::SrcAlpha, dst_factor: BlendFactor::OneMinusSrcAlpha, operation: BlendOperation::Add };
    let keep = BlendComponent { src_factor: BlendFactor::One, dst_factor: BlendFactor::Zero, operation: BlendOperation::Max };
    assert_eq!(
        set_blend_state(Some(BlendState { color: over, alpha: keep })),
        vec![
            GlCall::Enable(0x0BE2),
            GlCall::BlendEquationSeparate(0x8006, 0x8008),
            GlCall::BlendFuncSeparate(0x0302, 0x0303, 1, 0),
        ]
    );
    assert_eq!(set_blend_state(None), vec![GlCall::Disable(0x0BE2)]);
    assert_eq!(set_cull_mode(Some(Face::Back)), vec![GlCall::Enable(0x0B44), GlCall::CullFace(0x0405)]);
    assert_eq!(set_cull_mode(Some(Face::Front)), vec![GlCall::Enable(0x0B44), GlCall::CullFace(0x0404)]);
    assert_eq!(set_cull_mode(None), vec![GlCall::Disable(0x0B44)]);
}
