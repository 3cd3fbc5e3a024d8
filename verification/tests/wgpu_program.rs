use helix::gui::renderer::combine::{CombineParams, CombinePass};
use helix::gui::renderer::wgpu_program::{TextureBinding, VertexFormat, WgpuProgram};

struct Flags {
    t0: bool,
    t1: bool,
    two: bool,
    alpha: bool,
    fog: bool,
}

impl Flags {
    fn of(p: &WgpuProgram<()>) -> Flags {
        Flags {
            t0: p.get_define_bool("USE_TEXTURE0"),
            t1: p.get_define_bool("USE_TEXTURE1"),
            two: p.get_define_bool("TWO_CYCLE"),
            alpha: p.get_define_bool("USE_ALPHA"),
            fog: p.get_define_bool("USE_FOG"),
        }
    }

    fn on(&self, def: &[&str], output: &'static str) -> &'static str {
        let set = match def[0] {
            "USE_TEXTURE0" => self.t0,
            "USE_TEXTURE1" => self.t1,
            "TWO_CYCLE" => self.two,
            "USE_ALPHA" => self.alpha,
            "USE_FOG" => self.fog,
            _ => unreachable!(),
        };
        if set { output } else { "" }
    }

    fn on_define(&self, def: &[&str], output: &'static str) -> &'static str {
        self.on(def, output)
    }

    fn on_define_str(&self, def: &[&str], output: String) -> String {
        if self.on(def, "x").is_empty() { String::new() } else { output }
    }
}

fn color_common(x: u32) -> &'static str {
    match x {
        0 => "comb_color.rgb",
        1 => "tex0.rgb",
        2 => "tex1.rgb",
        3 => "combine_uniforms.prim_color.rgb",
        4 => "shade_color.rgb",
        5 => "combine_uniforms.env_color.rgb",
        _ => unreachable!(),
    }
}

fn color_input_a(x: u32) -> &'static str {
    if x <= 5 { color_common(x) } else { match x { 6 => "tOne.rgb", 7 => "vec3(noise, noise, noise)", _ => "tZero.rgb" } }
}

fn color_input_b(x: u32) -> &'static str {
    if x <= 5 {
        color_common(x)
    } else {
        match x {
            6 => "combine_uniforms.key_center",
            7 => "vec3(combine_uniforms.convert_k4, combine_uniforms.convert_k4, combine_uniforms.convert_k4)",
            _ => "tZero.rgb",
        }
    }
}

fn color_input_c(x: u32) -> &'static str {
    if x <= 5 {
        color_common(x)
    } else {
        match x {
            6 => "combine_uniforms.key_scale",
            7 => "comb_color.aaa",
            8 => "tex0.aaa",
            9 => "tex1.aaa",
            10 => "combine_uniforms.prim_color.aaa",
            11 => "shade_color.aaa",
            12 => "combine_uniforms.env_color.aaa",
            13 => "tZero.rgb",
            14 => "vec3(combine_uniforms.prim_lod_frac, combine_uniforms.prim_lod_frac, combine_uniforms.prim_lod_frac)",
            15 => "vec3(combine_uniforms.convert_k5, combine_uniforms.convert_k5, combine_uniforms.convert_k5)",
            _ => "tZero.rgb",
        }
    }
}

fn color_input_d(x: u32) -> &'static str {
    if x <= 5 { color_common(x) } else { match x { 6 => "tOne.rgb", _ => "tZero.rgb" } }
}

fn alpha_abd(x: u32, fog: bool) -> &'static str {
    match x {
        0 => "comb_color.a",
        1 => "tex0.a",
        2 => "tex1.a",
        3 => "combine_uniforms.prim_color.a",
        4 => if fog { "tOne.a" } else { "shade_color.a" },
        5 => "combine_uniforms.env_color.a",
        6 => "tOne.a",
        _ => "tZero.a",
    }
}

fn alpha_input_c(x: u32) -> &'static str {
    match x {
        0 => "tZero.a",
        1 => "tex0.a",
        2 => "tex1.a",
        3 => "combine_uniforms.prim_color.a",
        4 => "shade_color.a",
        5 => "combine_uniforms.env_color.a",
        6 => "combine_uniforms.prim_lod_frac",
        _ => "tZero.a",
    }
}

fn expected_both(s: &Flags) -> String {
    format!(
        r#"
            const tZero = vec4<f32>(0.0, 0.0, 0.0, 0.0);
            const tHalf = vec4<f32>(0.5 ,0.5, 0.5, 0.5);
            const tOne = vec4<f32>(1.0 ,1.0, 1.0, 1.0);

            const DRAWING_RECT: f32 = 0.0;

            struct VertexInput {{
                @location(0) position: vec4<f32>,
                @location(1) color: vec4<f32>,
                {uv_input}
            }};
            
            struct VertexOutput {{
                @location(0) color: vec4<f32>,
                {uv_output}
                @builtin(position) position: vec4<f32>,
            }};

            "#,
        uv_input = s.on_define(&["USE_TEXTURE0", "USE_TEXTURE1"], "@location(2) uv: vec2<f32>,"),
        uv_output = s.on_define(&["USE_TEXTURE0", "USE_TEXTURE1"], "@location(1) uv: vec2<f32>,"),
    )
}

fn expected_vertex(s: &Flags) -> String {
    let fog_params = if s.fog { format!(r#"
                    fog_multiplier: f32,
                    fog_offset: f32,
                    "#) } else { "_pad: vec2<f32>,".to_string() };
    let color = if s.fog { format!(r#"
                    var fog_value = (max(0.0, out.position.z) - out.position.w) * uniforms.fog_multiplier + uniforms.fog_offset;
                    fog_value = clamp(fog_value, 0.0, 255.0);
                    out.color = vec4<f32>(in.color.xyz, fog_value);
                    "#) } else { "out.color = in.color;".to_string() };
    format!(
        r#"
            struct Uniforms {{
                projection_matrix: mat4x4<f32>,
                {fog_params}
            }}

            @group(0) @binding(0)
            var<uniform> uniforms: Uniforms;

            @vertex
            fn vs_main(in: VertexInput) -> VertexOutput {{
                var out: VertexOutput;

                if (in.position.w == DRAWING_RECT) {{
                    out.position = uniforms.projection_matrix * vec4<f32>(in.position.xyz, 1.0);
                }} else {{
                    out.position = uniforms.projection_matrix * in.position;
                }}

                // map z to [0, 1]
                out.position.z = (out.position.z + out.position.w) / (2.0 * out.position.w);

                {color}

                {uv}

                return out;
            }}
            "#,
        uv = s.on_define(&["USE_TEXTURE0", "USE_TEXTURE1"], "out.uv = in.uv;"),
        fog_params = fog_params,
        color = color,
    )
}

fn expected_fragment(tex_filter: &str, c: &CombineParams, s: &Flags) -> String {
    let fog = s.fog;
    let alpha_input_abd = |x: u32| alpha_abd(x, fog);
    let combine = c;
    let this = s;
    format!(
        r#"
            struct BlendParamsUniforms {{
                blend_color: vec4<f32>,
                fog_color: vec4<f32>,
            }};
            
            struct CombineParamsUniforms {{
                prim_color: vec4<f32>,
                env_color: vec4<f32>,
                key_center: vec3<f32>,
                key_scale: vec3<f32>,
                prim_lod_frac: f32,
                convert_k4: f32,
                convert_k5: f32,
            }};
            
            struct FrameUniforms {{
                count: u32,
                height: u32,
            }};

            @group(1) @binding(0)
            var<uniform> blend_uniforms: BlendParamsUniforms;
            @group(1) @binding(1)
            var<uniform> combine_uniforms: CombineParamsUniforms;
            @group(1) @binding(2)
            var<uniform> frame_uniforms: FrameUniforms;

            {tex0_bindings}

            {tex1_bindings}
            
            fn random(value: vec3<f32>) -> f32 {{
                var random = dot(sin(value), vec3<f32>(12.9898, 78.233, 37.719));
                return fract(sin(random) * 143758.5453);
            }}

            fn textureSampleN64Point(tex: texture_2d<f32>, samplr: sampler, uv: vec2<f32>) -> vec4<f32> {{
                return textureSample(tex, samplr, uv);
            }}

            fn textureSampleN64Average(tex: texture_2d<f32>, samplr: sampler, uv: vec2<f32>) -> vec4<f32> {{
                // Unimplemented.
                return textureSample(tex, samplr, uv);
            }}

            fn textureSampleN64Bilerp(tex: texture_2d<f32>, samplr: sampler, uv: vec2<f32>) -> vec4<f32> {{
                var tex_size = vec2<f32>(textureDimensions(tex, 0));
                var offset = fract(uv * tex_size - 0.5);
            
                var offset_sign = sign(offset);
                var offset_abs = abs(offset);

                var s0 = textureSample(tex, samplr, uv - offset / tex_size);
                var s1 = textureSample(tex, samplr, uv - offset_sign * vec2<f32>(1.0, 0.0) / tex_size);
                var s2 = textureSample(tex, samplr, uv - offset_sign * vec2<f32>(0.0, 1.0) / tex_size);
            
                return s0 + offset_abs.x * (s1 - s0) + offset_abs.y * (s2 - s0);
            }}

            fn combineColorCycle0(comb_color: vec4<f32>, shade_color: vec4<f32>, tex0: vec4<f32>, tex1: vec4<f32>, noise: f32) -> vec3<f32> {{
                return ({c0a} - {c0b}) * {c0c} + {c0d};
            }}

            fn combineAlphaCycle0(comb_color: vec4<f32>, shade_color: vec4<f32>, tex0: vec4<f32>, tex1: vec4<f32>, noise: f32) -> f32 {{
                return ({a0a} - {a0b}) * {a0c} + {a0d};
            }}

            fn combineColorCycle1(comb_color: vec4<f32>, shade_color: vec4<f32>, tex0: vec4<f32>, tex1: vec4<f32>, noise: f32) -> vec3<f32> {{
                return ({c1a} - {c1b}) * {c1c} + {c1d};
            }}
            
            fn combineAlphaCycle1(comb_color: vec4<f32>, shade_color: vec4<f32>, tex0: vec4<f32>, tex1: vec4<f32>, noise: f32) -> f32 {{
                return ({a1a} - {a1b}) * {a1c} + {a1d};
            }}

            @fragment
            fn fs_main(in: VertexOutput) -> @location(0) vec4<f32> {{
                var tex_val0 = tOne;
                var tex_val1 = tOne;

                {sample_texture0}
                {sample_texture1}
                
                var noise = (random(vec3(floor(in.position.xy * (240.0 / f32(frame_uniforms.height))), f32(frame_uniforms.count))) + 1.0) / 2.0;

                var texel = vec4<f32>(
                    combineColorCycle0(tHalf, in.color, tex_val0, tex_val1, noise),
                    combineAlphaCycle0(tHalf, in.color, tex_val0, tex_val1, noise)
                );

                {second_pass_combine}

                {alpha_compare_dither}
                {alpha_compare_threshold}

                {texture_edge}

                {alpha_visualizer}

                {blend_fog}

                return texel;
            }}
            "#,
tex0_bindings = this.on_define(
                &["USE_TEXTURE0"],
                r#"
                @group(2) @binding(0)
                var texture0: texture_2d<f32>;
                @group(2) @binding(1)
                var sampler0: sampler;
                "#
            ),
            tex1_bindings = this.on_define(
                &["USE_TEXTURE1"],
                r#"
                @group(2) @binding(2)
                var texture1: texture_2d<f32>;
                @group(2) @binding(3)
                var sampler1: sampler;
            "#
            ),
            c0a = color_input_a(combine.c0.a),
            c0b = color_input_b(combine.c0.b),
            c0c = color_input_c(combine.c0.c),
            c0d = color_input_d(combine.c0.d),
            a0a = alpha_input_abd(combine.a0.a),
            a0b = alpha_input_abd(combine.a0.b),
            a0c = alpha_input_c(combine.a0.c),
            a0d = alpha_input_abd(combine.a0.d),
            c1a = color_input_a(combine.c1.a),
            c1b = color_input_b(combine.c1.b),
            c1c = color_input_c(combine.c1.c),
            c1d = color_input_d(combine.c1.d),
            a1a = alpha_input_abd(combine.a1.a),
            a1b = alpha_input_abd(combine.a1.b),
            a1c = alpha_input_c(combine.a1.c),
            a1d = alpha_input_abd(combine.a1.d),
            sample_texture0 = this.on_define_str(
                &["USE_TEXTURE0"],
                format!("tex_val0 = textureSampleN64{tex_filter}(texture0, sampler0, in.uv);")
            ),
            sample_texture1 = this.on_define_str(
                &["USE_TEXTURE1"],
                format!("tex_val1 = textureSampleN64{tex_filter}(texture1, sampler1, in.uv);")
            ),
            second_pass_combine =  this.on_define(
                &["TWO_CYCLE"],
                r#"
                // Note that in the second cycle, Tex0 and Tex1 are swapped
                texel = vec4<f32>(
                     combineColorCycle1(texel, in.color tex_val1, tex_val0, noise),
                     combineAlphaCycle1(texel, in.color, tex_val1, tex_val0, noise)
                 );
                "#,
            ),
            alpha_compare_dither = this.on_define(
                &["USE_ALPHA", "ALPHA_COMPARE_DITHER"],
                r#"
                var random_alpha = floor(random(vec3(floor(in.position.xy * (240.0 / f32(frame_uniforms.height))), f32(frame_uniforms.count))) + 0.5);
                if texel.a < random_alpha { discard; }
                "#,
            ),
            alpha_compare_threshold = this.on_define(
                &["USE_ALPHA", "ALPHA_COMPARE_THRESHOLD"],
                "if texel.a < blend_uniforms.blend_color.a { discard; }"
            ),
            texture_edge = this.on_define(
                &["USE_ALPHA", "TEXTURE_EDGE"],
                "if texel.a < 0.125 { discard; }"
            ),
            alpha_visualizer = this.on_define(
                &["USE_ALPHA", "USE_ALPHA_VISUALIZER"],
                "texel = mix(texel, vec4<f32>(1.0, 0.0, 1.0, 1.0), 0.5);"
            ),
            blend_fog = this.on_define(
                &["USE_FOG"],
                "texel = vec4<f32>(mix(texel.rgb, blend_uniforms.fog_color.rgb, in.color.a), texel.a);"
            ),
    )
}

fn pass(a: u32, b: u32, c: u32, d: u32) -> CombinePass {
    CombinePass { a, b, c, d }
}

fn check(h: u32, l: u32, c: CombineParams, filter: &str) -> WgpuProgram<()> {
    let mut p: WgpuProgram<()> = WgpuProgram::new(h, l, 0, c);
    p.init();
    let flags = Flags::of(&p);
    assert_eq!(p.both, expected_both(&flags));
    assert_eq!(p.vertex, expected_vertex(&flags));
    assert_eq!(p.fragment, expected_fragment(filter, &c, &flags));
    p
}

#[test]
fn wgsl_sources_follow_the_template_for_every_input() {
    for x in 0u32..32 {
        let c = CombineParams { c0: pass(x, x, x, x), a0: pass(x & 7, x & 7, x & 7, x & 7), c1: pass(x, 1, x, 2), a1: pass(2, x & 7, 1, x & 7) };
        check(0, 0, c, "Point");
        check((1 << 20) | (2 << 12), (3 << 30) | 0x1000 | 3, c, "Bilerp");
        check(3 << 12, 1, c, "Average");
    }
}

#[test]
fn textured_two_cycle_program_defines_and_layout() {
    let c = CombineParams { c0: pass(1, 0x1F, 4, 0x1F), a0: pass(7, 7, 7, 1), c1: pass(2, 0x1F, 4, 0x1F), a1: pass(7, 7, 7, 2) };
    let mut p = check(1 << 20, 3 << 30, c, "Point");
    for name in ["TWO_CYCLE", "USE_TEXTURE0", "USE_TEXTURE1", "USE_FOG", "USE_ALPHA"] {
        assert!(p.get_define_bool(name), "{name}");
    }
    assert!(p.get_define_string("LIGHTING").is_none(), "the WGSL program has no lighting define");
    assert_eq!(p.num_floats, 10);
    let layout = p.vertex_description();
    assert_eq!(layout.array_stride, 40);
    assert_eq!(layout.attributes.len(), 3);
    assert_eq!(layout.attributes[2].format, VertexFormat::Float32x2);
    assert_eq!(layout.attributes[2].offset, 32);
    assert_eq!(layout.attributes[1].offset, 16);
    assert_eq!(
        p.texture_bind_group_entries(),
        vec![TextureBinding::Texture(0), TextureBinding::Sampler(1), TextureBinding::Texture(2), TextureBinding::Sampler(3)]
    );
    p.preprocess();
    assert_eq!(p.processed_shader, format!("{}{}{}", p.both, p.vertex, p.fragment));
    assert!(p.set_define_bool("USE_FOG".to_string(), false));
    assert!(p.processed_shader.is_empty());
}

#[test]
fn untextured_program_has_two_attributes_and_no_bindings() {
    let shade = CombineParams { c0: pass(0, 0, 0, 4), a0: pass(0, 0, 0, 4), c1: pass(0, 0, 0, 4), a1: pass(0, 0, 0, 4) };
    let p = check(0, 0, shade, "Point");
    assert_eq!(p.num_floats, 8);
    let layout = p.vertex_description();
    assert_eq!(layout.array_stride, 32);
    assert_eq!(layout.attributes.len(), 2);
    assert!(p.texture_bind_group_entries().is_empty());
    assert!(p.get_define_bool("COLOR_ALPHA_SAME"));
    assert_eq!(p.config(), (0, 0, 0, shade));
    assert_eq!(p.defines().len(), 2);
}
