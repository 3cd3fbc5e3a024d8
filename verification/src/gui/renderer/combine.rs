use vstd::prelude::*;
use vstd::string::StringExecFns;

verus! {

/// Color combiner input codes (CCMUX) that select a distinct source.
pub const CCMUX_ENVIRONMENT: u32 = 0x05;

pub const CCMUX_TEXEL0: u32 = 0x01;

pub const CCMUX_TEXEL1: u32 = 0x02;

pub const CCMUX_TEXEL0_ALPHA: u32 = 0x08;

pub const CCMUX_TEXEL1_ALPHA: u32 = 0x09;

/// Alpha combiner input codes (ACMUX) for the two texels.
pub const ACMUX_TEXEL0: u32 = 0x01;

pub const ACMUX_TEXEL1: u32 = 0x02;

/// One combiner cycle's four inputs, `(a - b) * c + d`, as their mux codes.
#[derive(Clone, Copy, Debug, PartialEq, Eq)]
pub struct CombinePass {
    pub a: u32,
    pub b: u32,
    pub c: u32,
    pub d: u32,
}

/// The color and alpha passes of both combiner cycles, as set by G_SETCOMBINE.
#[derive(Clone, Copy, Debug, PartialEq, Eq)]
pub struct CombineParams {
    pub c0: CombinePass,
    pub a0: CombinePass,
    pub c1: CombinePass,
    pub a1: CombinePass,
}

pub open spec fn pass_reads(p: CombinePass, x: u32) -> bool {
    p.a == x || p.b == x || p.c == x || p.d == x
}

/// Whether the combiner samples texture 0: a color input of TEXEL0 or TEXEL0_ALPHA, or an alpha
/// input of TEXEL0, in either cycle.
pub open spec fn spec_uses_texture0(c: CombineParams) -> bool {
    ||| pass_reads(c.c0, CCMUX_TEXEL0) || pass_reads(c.c0, CCMUX_TEXEL0_ALPHA)
    ||| pass_reads(c.c1, CCMUX_TEXEL0) || pass_reads(c.c1, CCMUX_TEXEL0_ALPHA)
    ||| pass_reads(c.a0, ACMUX_TEXEL0) || pass_reads(c.a1, ACMUX_TEXEL0)
}

/// Whether the combiner samples texture 1 (as for texture 0).
pub open spec fn spec_uses_texture1(c: CombineParams) -> bool {
    ||| pass_reads(c.c0, CCMUX_TEXEL1) || pass_reads(c.c0, CCMUX_TEXEL1_ALPHA)
    ||| pass_reads(c.c1, CCMUX_TEXEL1) || pass_reads(c.c1, CCMUX_TEXEL1_ALPHA)
    ||| pass_reads(c.a0, ACMUX_TEXEL1) || pass_reads(c.a1, ACMUX_TEXEL1)
}

fn reads(p: CombinePass, x: u32) -> (r: bool)
    ensures
        r == pass_reads(p, x),
{
    p.a == x || p.b == x || p.c == x || p.d == x
}

impl CombineParams {
    pub fn uses_texture0(&self) -> (r: bool)
        ensures
            r == spec_uses_texture0(*self),
    {
        reads(self.c0, CCMUX_TEXEL0) || reads(self.c0, CCMUX_TEXEL0_ALPHA) || reads(self.c1, CCMUX_TEXEL0)
            || reads(self.c1, CCMUX_TEXEL0_ALPHA) || reads(self.a0, ACMUX_TEXEL0) || reads(
            self.a1,
            ACMUX_TEXEL0,
        )
    }

    pub fn uses_texture1(&self) -> (r: bool)
        ensures
            r == spec_uses_texture1(*self),
    {
        reads(self.c0, CCMUX_TEXEL1) || reads(self.c0, CCMUX_TEXEL1_ALPHA) || reads(self.c1, CCMUX_TEXEL1)
            || reads(self.c1, CCMUX_TEXEL1_ALPHA) || reads(self.a0, ACMUX_TEXEL1) || reads(
            self.a1,
            ACMUX_TEXEL1,
        )
    }

    /// Whether cycle `index` (0 or 1) uses the same four codes for color and alpha.
    pub fn cc_ac_same(&self, index: usize) -> (r: bool)
        requires
            index < 2,
        ensures
            r == (if index == 0 {
                self.c0 == self.a0
            } else {
                self.c1 == self.a1
            }),
    {
        let (c, a) = if index == 0 {
            (self.c0, self.a0)
        } else {
            (self.c1, self.a1)
        };
        c.a == a.a && c.b == a.b && c.c == a.c && c.d == a.d
    }
}

/// The combiner cycle mode (G_MDSFT_CYCLETYPE).
#[derive(Clone, Copy, Debug, PartialEq, Eq)]
pub enum CycleType {
    OneCycle,
    TwoCycle,
    Copy,
    Fill,
}

/// The texture filter (G_MDSFT_TEXTFILT).
#[derive(Clone, Copy, Debug, PartialEq, Eq)]
pub enum TextureFilter {
    Point,
    Average,
    Bilerp,
}

/// The two-bit cycle type field of othermode high.
pub open spec fn cycle_type_of(other_mode_h: u32) -> CycleType {
    let v = (other_mode_h >> 20u32) & 3u32;
    if v == 0 {
        CycleType::OneCycle
    } else if v == 1 {
        CycleType::TwoCycle
    } else if v == 2 {
        CycleType::Copy
    } else {
        CycleType::Fill
    }
}

/// The texture filter field decodes unless it holds the unassigned value 1.
pub open spec fn texture_filter_decodes(other_mode_h: u32) -> bool {
    (other_mode_h >> 12u32) & 3u32 != 1
}

pub open spec fn texture_filter_of(other_mode_h: u32) -> TextureFilter {
    let v = (other_mode_h >> 12u32) & 3u32;
    if v == 0 {
        TextureFilter::Point
    } else if v == 2 {
        TextureFilter::Bilerp
    } else {
        TextureFilter::Average
    }
}

/// othermode low decodes as a render mode unless a second blender alpha field holds the
/// unassigned value 3.
pub open spec fn render_mode_decodes(other_mode_l: u32) -> bool {
    (other_mode_l >> 16u32) & 3u32 != 3 && (other_mode_l >> 18u32) & 3u32 != 3
}

/// fast3d's `get_cycle_type_from_other_mode_h`: the cycle type field, bits 20..21.
#[verifier::external_body]
pub(crate) fn cycle_type(other_mode_h: u32) -> (r: CycleType)
    ensures
        r == cycle_type_of(other_mode_h),
{
    match fast3d::gbi::utils::get_cycle_type_from_other_mode_h(other_mode_h) {
        fast3d::fast3d_gbi::defines::CycleType::OneCycle => CycleType::OneCycle,
        fast3d::fast3d_gbi::defines::CycleType::TwoCycle => CycleType::TwoCycle,
        fast3d::fast3d_gbi::defines::CycleType::Copy => CycleType::Copy,
        fast3d::fast3d_gbi::defines::CycleType::Fill => CycleType::Fill,
    }
}

/// fast3d's `get_texture_filter_from_other_mode_h`: the filter field, bits 12..13 (0 point,
/// 2 bilerp, 3 average); it panics on 1, which `requires` leaves out.
#[verifier::external_body]
pub(crate) fn texture_filter(other_mode_h: u32) -> (r: TextureFilter)
    requires
        texture_filter_decodes(other_mode_h),
    ensures
        r == texture_filter_of(other_mode_h),
{
    match fast3d::gbi::utils::get_texture_filter_from_other_mode_h(other_mode_h) {
        fast3d::fast3d_gbi::defines::TextureFilter::Point => TextureFilter::Point,
        fast3d::fast3d_gbi::defines::TextureFilter::Average => TextureFilter::Average,
        fast3d::fast3d_gbi::defines::TextureFilter::Bilerp => TextureFilter::Bilerp,
    }
}

/// fast3d's `other_mode_l_uses_texture_edge`: the render mode's CVG_X_ALPHA flag (0x1000). It
/// decodes the render mode first and panics where that fails, which `requires` leaves out.
#[verifier::external_body]
pub(crate) fn uses_texture_edge(other_mode_l: u32) -> (r: bool)
    requires
        render_mode_decodes(other_mode_l),
    ensures
        r == (other_mode_l & 0x1000u32 != 0),
{
    fast3d::gbi::utils::other_mode_l_uses_texture_edge(other_mode_l)
}

/// fast3d's `other_mode_l_uses_alpha`: the first cycle's second blender alpha is 1 - alpha
/// (field bits 18..19 equal 0).
#[verifier::external_body]
pub(crate) fn uses_alpha(other_mode_l: u32) -> (r: bool)
    requires
        render_mode_decodes(other_mode_l),
    ensures
        r == ((other_mode_l >> 18u32) & 3u32 == 0),
{
    fast3d::gbi::utils::other_mode_l_uses_alpha(other_mode_l)
}

/// fast3d's `other_mode_l_uses_fog`: the first cycle's first blender color is fog (field bits
/// 30..31 equal 3).
#[verifier::external_body]
pub(crate) fn uses_fog(other_mode_l: u32) -> (r: bool)
    requires
        render_mode_decodes(other_mode_l),
    ensures
        r == ((other_mode_l >> 30u32) & 3u32 == 3),
{
    fast3d::gbi::utils::other_mode_l_uses_fog(other_mode_l)
}

/// fast3d's `other_mode_l_alpha_compare_dither`: both alpha compare bits set.
#[verifier::external_body]
pub(crate) fn alpha_compare_dither(other_mode_l: u32) -> (r: bool)
    ensures
        r == (other_mode_l & 3u32 == 3),
{
    fast3d::gbi::utils::other_mode_l_alpha_compare_dither(other_mode_l)
}

/// fast3d's `other_mode_l_alpha_compare_threshold`: the low alpha compare bit set.
#[verifier::external_body]
pub(crate) fn alpha_compare_threshold(other_mode_l: u32) -> (r: bool)
    ensures
        r == (other_mode_l & 1u32 == 1),
{
    fast3d::gbi::utils::other_mode_l_alpha_compare_threshold(other_mode_l)
}

/// fast3d's `GeometryModes::contains` with the LIGHTING flag (0x20000).
#[verifier::external_body]
pub(crate) fn uses_lighting(geometry_mode: u32) -> (r: bool)
    ensures
        r == (geometry_mode & 0x20000u32 != 0),
{
    fast3d::fast3d_gbi::defines::GeometryModes::from_bits_retain(geometry_mode).contains(
        fast3d::fast3d_gbi::defines::GeometryModes::LIGHTING,
    )
}

/// `(a - b) * c + d`, less the opening parenthesis that the function head carries.
pub open spec fn combine_expr(a: Seq<char>, b: Seq<char>, c: Seq<char>, d: Seq<char>) -> Seq<char> {
    a + " - "@ + b + ") * "@ + c + " + "@ + d
}

/// Append `head` and then `(a - b) * c + d` (less the parenthesis that `head` ends with).
pub(crate) fn push_combine(s: &mut String, head: &str, a: &str, b: &str, c: &str, d: &str)
    ensures
        final(s)@ == old(s)@ + head@ + combine_expr(a@, b@, c@, d@),
{
    s.append(head);
    s.append(a);
    s.append(" - ");
    s.append(b);
    s.append(") * ");
    s.append(c);
    s.append(" + ");
    s.append(d);
    assert(s@ =~= old(s)@ + head@ + combine_expr(a@, b@, c@, d@));
}

} // verus!
