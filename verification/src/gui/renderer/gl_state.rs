use vstd::prelude::*;

verus! {

/// The tile clamp/mirror bits of a texture coordinate mode (G_TX_MIRROR, G_TX_CLAMP).
pub const G_TX_MIRROR: u32 = 0x1;

pub const G_TX_CLAMP: u32 = 0x2;

/// How a sampler addresses outside the texture.
#[derive(Clone, Copy, Debug, PartialEq, Eq)]
pub enum WrapMode {
    ClampToEdge,
    MirroredRepeat,
    Repeat,
}

/// A tile's coordinate mode as a sampler wrap mode: clamp wins over mirror; neither repeats.
pub open spec fn spec_wrap_mode(cm: u32) -> WrapMode {
    if cm & G_TX_CLAMP != 0 {
        WrapMode::ClampToEdge
    } else if cm & G_TX_MIRROR != 0 {
        WrapMode::MirroredRepeat
    } else {
        WrapMode::Repeat
    }
}

pub fn wrap_mode(cm: u32) -> (r: WrapMode)
    ensures
        r == spec_wrap_mode(cm),
{
    if cm & G_TX_CLAMP != 0 {
        WrapMode::ClampToEdge
    } else if cm & G_TX_MIRROR != 0 {
        WrapMode::MirroredRepeat
    } else {
        WrapMode::Repeat
    }
}

/// GL_CLAMP_TO_EDGE, GL_MIRRORED_REPEAT and GL_REPEAT.
pub const GL_CLAMP_TO_EDGE: i32 = 0x812F;

pub const GL_MIRRORED_REPEAT: i32 = 0x8370;

pub const GL_REPEAT: i32 = 0x2901;

/// The GL texture wrap parameter for a tile's coordinate mode.
pub fn gfx_cm_to_opengl(val: u32) -> (r: i32)
    ensures
        r == match spec_wrap_mode(val) {
            WrapMode::ClampToEdge => GL_CLAMP_TO_EDGE,
            WrapMode::MirroredRepeat => GL_MIRRORED_REPEAT,
            WrapMode::Repeat => GL_REPEAT,
        },
{
    match wrap_mode(val) {
        WrapMode::ClampToEdge => GL_CLAMP_TO_EDGE,
        WrapMode::MirroredRepeat => GL_MIRRORED_REPEAT,
        WrapMode::Repeat => GL_REPEAT,
    }
}

/// A blend equation's operation.
#[derive(Clone, Copy, Debug, PartialEq, Eq)]
pub enum BlendOperation {
    Add,
    Subtract,
    ReverseSubtract,
    Min,
    Max,
}

/// A blend equation's source or destination factor.
#[derive(Clone, Copy, Debug, PartialEq, Eq)]
pub enum BlendFactor {
    Zero,
    One,
    Src,
    OneMinusSrc,
    SrcAlpha,
    OneMinusSrcAlpha,
    Dst,
    OneMinusDst,
    DstAlpha,
    OneMinusDstAlpha,
    SrcAlphaSaturated,
    Constant,
    OneMinusConstant,
}

/// The GL blend equation enum for an operation.
pub open spec fn gl_blend_operation(op: BlendOperation) -> u32 {
    match op {
        BlendOperation::Add => 0x8006,
        BlendOperation::Subtract => 0x800A,
        BlendOperation::ReverseSubtract => 0x800B,
        BlendOperation::Min => 0x8007,
        BlendOperation::Max => 0x8008,
    }
}

/// The GL blend function enum for a factor.
pub open spec fn gl_blend_factor(f: BlendFactor) -> u32 {
    match f {
        BlendFactor::Zero => 0,
        BlendFactor::One => 1,
        BlendFactor::Src => 0x0300,
        BlendFactor::OneMinusSrc => 0x0301,
        BlendFactor::SrcAlpha => 0x0302,
        BlendFactor::OneMinusSrcAlpha => 0x0303,
        BlendFactor::DstAlpha => 0x0304,
        BlendFactor::OneMinusDstAlpha => 0x0305,
        BlendFactor::Dst => 0x0306,
        BlendFactor::OneMinusDst => 0x0307,
        BlendFactor::SrcAlphaSaturated => 0x0308,
        BlendFactor::Constant => 0x8001,
        BlendFactor::OneMinusConstant => 0x8002,
    }
}

pub fn gfx_blend_operation_to_gl(operation: BlendOperation) -> (r: u32)
    ensures
        r == gl_blend_operation(operation),
{
    match operation {
        BlendOperation::Add => 0x8006,
        BlendOperation::Subtract => 0x800A,
        BlendOperation::ReverseSubtract => 0x800B,
        BlendOperation::Min => 0x8007,
        BlendOperation::Max => 0x8008,
    }
}

pub fn gfx_blend_factor_to_gl(factor: BlendFactor) -> (r: u32)
    ensures
        r == gl_blend_factor(factor),
{
    match factor {
        BlendFactor::Zero => 0,
        BlendFactor::One => 1,
        BlendFactor::Src => 0x0300,
        BlendFactor::OneMinusSrc => 0x0301,
        BlendFactor::SrcAlpha => 0x0302,
        BlendFactor::OneMinusSrcAlpha => 0x0303,
        BlendFactor::DstAlpha => 0x0304,
        BlendFactor::OneMinusDstAlpha => 0x0305,
        BlendFactor::Dst => 0x0306,
        BlendFactor::OneMinusDst => 0x0307,
        BlendFactor::SrcAlphaSaturated => 0x0308,
        BlendFactor::Constant => 0x8001,
        BlendFactor::OneMinusConstant => 0x8002,
    }
}

/// GL capabilities the device toggles.
pub const GL_CULL_FACE: u32 = 0x0B44;

pub const GL_DEPTH_TEST: u32 = 0x0B71;

pub const GL_BLEND: u32 = 0x0BE2;

pub const GL_POLYGON_OFFSET_FILL: u32 = 0x8037;

/// GL_FRONT and GL_BACK.
pub const GL_FRONT: u32 = 0x0404;

pub const GL_BACK: u32 = 0x0405;

/// A depth test's comparison.
#[derive(Clone, Copy, Debug, PartialEq, Eq)]
pub enum CompareFunction {
    Never,
    Less,
    Equal,
    LessEqual,
    Greater,
    NotEqual,
    GreaterEqual,
    Always,
}

/// A face to cull.
#[derive(Clone, Copy, Debug, PartialEq, Eq)]
pub enum Face {
    Front,
    Back,
}

/// One blend equation: factors and operation.
#[derive(Clone, Copy, Debug, PartialEq, Eq)]
pub struct BlendComponent {
    pub src_factor: BlendFactor,
    pub dst_factor: BlendFactor,
    pub operation: BlendOperation,
}

/// The color and alpha blend equations.
#[derive(Clone, Copy, Debug, PartialEq, Eq)]
pub struct BlendState {
    pub color: BlendComponent,
    pub alpha: BlendComponent,
}

/// A draw call's depth state: whether it writes depth, how it compares, and whether it is a
/// decal drawn with a polygon offset.
#[derive(Clone, Copy, Debug, PartialEq, Eq)]
pub struct DepthStencil {
    pub depth_write_enabled: bool,
    pub depth_compare: CompareFunction,
    pub polygon_offset: bool,
}

/// A GL state call the device makes.
#[derive(Clone, Copy, Debug, PartialEq, Eq)]
pub enum GlCall {
    Enable(u32),
    Disable(u32),
    DepthMask(bool),
    DepthFunc(u32),
    /// glPolygonOffset(-2, 2) for a decal, (0, 0) otherwise.
    PolygonOffset { decal: bool },
    BlendEquationSeparate(u32, u32),
    BlendFuncSeparate(u32, u32, u32, u32),
    CullFace(u32),
}

/// The GL depth-function enums: GL_NEVER through GL_ALWAYS.
pub const GL_NEVER: u32 = 0x0200;

pub const GL_LESS: u32 = 0x0201;

pub const GL_EQUAL: u32 = 0x0202;

pub const GL_LEQUAL: u32 = 0x0203;

pub const GL_GREATER: u32 = 0x0204;

pub const GL_NOTEQUAL: u32 = 0x0205;

pub const GL_GEQUAL: u32 = 0x0206;

pub const GL_ALWAYS: u32 = 0x0207;

/// The GL depth function enum for a comparison.
pub open spec fn gl_depth_func(c: CompareFunction) -> u32 {
    match c {
        CompareFunction::Never => 0x0200,
        CompareFunction::Less => 0x0201,
        CompareFunction::Equal => 0x0202,
        CompareFunction::LessEqual => 0x0203,
        CompareFunction::Greater => 0x0204,
        CompareFunction::NotEqual => 0x0205,
        CompareFunction::GreaterEqual => 0x0206,
        CompareFunction::Always => 0x0207,
    }
}

pub fn gfx_compare_to_gl(compare: CompareFunction) -> (r: u32)
    ensures
        r == gl_depth_func(compare),
{
    match compare {
        CompareFunction::Never => 0x0200,
        CompareFunction::Less => 0x0201,
        CompareFunction::Equal => 0x0202,
        CompareFunction::LessEqual => 0x0203,
        CompareFunction::Greater => 0x0204,
        CompareFunction::NotEqual => 0x0205,
        CompareFunction::GreaterEqual => 0x0206,
        CompareFunction::Always => 0x0207,
    }
}

/// Each comparison is issued as the GL depth function of that same comparison (a less test as
/// GL_LESS, never as GL_LEQUAL), so distinct comparisons give distinct GL functions.
pub proof fn law_depth_func_is_same_comparison(c: CompareFunction, d: CompareFunction)
    ensures
        c == CompareFunction::Never ==> gl_depth_func(c) == GL_NEVER,
        c == CompareFunction::Less ==> gl_depth_func(c) == GL_LESS,
        c == CompareFunction::Equal ==> gl_depth_func(c) == GL_EQUAL,
        c == CompareFunction::LessEqual ==> gl_depth_func(c) == GL_LEQUAL,
        c == CompareFunction::Greater ==> gl_depth_func(c) == GL_GREATER,
        c == CompareFunction::NotEqual ==> gl_depth_func(c) == GL_NOTEQUAL,
        c == CompareFunction::GreaterEqual ==> gl_depth_func(c) == GL_GEQUAL,
        c == CompareFunction::Always ==> gl_depth_func(c) == GL_ALWAYS,
        gl_depth_func(c) == gl_depth_func(d) ==> c == d,
{
}

/// The calls that set the depth state: with depth, enable the test, set the mask and function
/// and the decal offset; without, disable the test.
pub open spec fn depth_stencil_spec(params: Option<DepthStencil>) -> Seq<GlCall> {
    match params {
        Some(p) => seq![
            GlCall::Enable(GL_DEPTH_TEST),
            GlCall::DepthMask(p.depth_write_enabled),
            GlCall::DepthFunc(gl_depth_func(p.depth_compare)),
            GlCall::PolygonOffset { decal: p.polygon_offset },
            if p.polygon_offset {
                GlCall::Enable(GL_POLYGON_OFFSET_FILL)
            } else {
                GlCall::Disable(GL_POLYGON_OFFSET_FILL)
            },
        ],
        None => seq![GlCall::Disable(GL_DEPTH_TEST)],
    }
}

pub fn set_depth_stencil_params(params: Option<DepthStencil>) -> (r: Vec<GlCall>)
    ensures
        r@ == depth_stencil_spec(params),
{
    let mut calls: Vec<GlCall> = Vec::new();
    match params {
        Some(p) => {
            calls.push(GlCall::Enable(GL_DEPTH_TEST));
            calls.push(GlCall::DepthMask(p.depth_write_enabled));
            calls.push(GlCall::DepthFunc(gfx_compare_to_gl(p.depth_compare)));
            calls.push(GlCall::PolygonOffset { decal: p.polygon_offset });
            if p.polygon_offset {
                calls.push(GlCall::Enable(GL_POLYGON_OFFSET_FILL));
            } else {
                calls.push(GlCall::Disable(GL_POLYGON_OFFSET_FILL));
            }
        },
        None => calls.push(GlCall::Disable(GL_DEPTH_TEST)),
    }
    assert(calls@ =~= depth_stencil_spec(params));
    calls
}

/// The calls that set blending: enable it with the separate color and alpha equations and
/// factors, or disable it.
pub open spec fn blend_state_spec(state: Option<BlendState>) -> Seq<GlCall> {
    match state {
        Some(b) => seq![
            GlCall::Enable(GL_BLEND),
            GlCall::BlendEquationSeparate(gl_blend_operation(b.color.operation), gl_blend_operation(b.alpha.operation)),
            GlCall::BlendFuncSeparate(
                gl_blend_factor(b.color.src_factor),
                gl_blend_factor(b.color.dst_factor),
                gl_blend_factor(b.alpha.src_factor),
                gl_blend_factor(b.alpha.dst_factor),
            ),
        ],
        None => seq![GlCall::Disable(GL_BLEND)],
    }
}

pub fn set_blend_state(blend_state: Option<BlendState>) -> (r: Vec<GlCall>)
    ensures
        r@ == blend_state_spec(blend_state),
{
    let mut calls: Vec<GlCall> = Vec::new();
    match blend_state {
        Some(b) => {
            calls.push(GlCall::Enable(GL_BLEND));
            calls.push(
                GlCall::BlendEquationSeparate(
                    gfx_blend_operation_to_gl(b.color.operation),
                    gfx_blend_operation_to_gl(b.alpha.operation),
                ),
            );
            calls.push(
                GlCall::BlendFuncSeparate(
                    gfx_blend_factor_to_gl(b.color.src_factor),
                    gfx_blend_factor_to_gl(b.color.dst_factor),
                    gfx_blend_factor_to_gl(b.alpha.src_factor),
                    gfx_blend_factor_to_gl(b.alpha.dst_factor),
                ),
            );
        },
        None => calls.push(GlCall::Disable(GL_BLEND)),
    }
    assert(calls@ =~= blend_state_spec(blend_state));
    calls
}

/// The calls that set culling: enable it for the face, or disable it.
pub open spec fn cull_mode_spec(cull_mode: Option<Face>) -> Seq<GlCall> {
    match cull_mode {
        Some(Face::Front) => seq![GlCall::Enable(GL_CULL_FACE), GlCall::CullFace(GL_FRONT)],
        Some(Face::Back) => seq![GlCall::Enable(GL_CULL_FACE), GlCall::CullFace(GL_BACK)],
        None => seq![GlCall::Disable(GL_CULL_FACE)],
    }
}

pub fn set_cull_mode(cull_mode: Option<Face>) -> (r: Vec<GlCall>)
    ensures
        r@ == cull_mode_spec(cull_mode),
{
    let mut calls: Vec<GlCall> = Vec::new();
    match cull_mode {
        Some(Face::Front) => {
            calls.push(GlCall::Enable(GL_CULL_FACE));
            calls.push(GlCall::CullFace(GL_FRONT));
        },
        Some(Face::Back) => {
            calls.push(GlCall::Enable(GL_CULL_FACE));
            calls.push(GlCall::CullFace(GL_BACK));
        },
        None => calls.push(GlCall::Disable(GL_CULL_FACE)),
    }
    assert(calls@ =~= cull_mode_spec(cull_mode));
    calls
}

} // verus!
