pub mod capture;

use vstd::prelude::*;

verus! {

/// winit can transiently report `u32::MAX`, and a minimized window a zero dimension: both mean
/// "ignore this size" for the surface and the aspect.
pub open spec fn size_is_valid(width: u32, height: u32) -> bool {
    width != 0 && height != 0 && width != u32::MAX && height != u32::MAX
}

/// The size, unless it is a zero or sentinel one.
pub fn valid_surface_size(width: u32, height: u32) -> (r: Option<(u32, u32)>)
    ensures
        r == (if size_is_valid(width, height) { Some((width, height)) } else { None }),
{
    if width == 0 || height == 0 || width == u32::MAX || height == u32::MAX {
        None
    } else {
        Some((width, height))
    }
}

/// The display aspect as an exact ratio `num / den` (the HUD reads it as a float).
#[derive(Clone, Copy, Debug, PartialEq, Eq)]
pub struct Aspect {
    pub num: u32,
    pub den: u32,
}

/// The native 4:3 aspect (SCREEN_WIDTH / SCREEN_HEIGHT).
pub open spec fn native() -> Aspect {
    Aspect { num: 4, den: 3 }
}

pub fn native_aspect() -> (a: Aspect)
    ensures
        a == native(),
{
    Aspect { num: 4, den: 3 }
}

/// The widescreen aspect of a window: its width over its height, but never narrower than 4:3 (a
/// tall window pillarboxes; no upper clamp); an invalid or transient size gives 4:3.
pub open spec fn spec_aspect_from_size(width: u32, height: u32) -> Aspect {
    if size_is_valid(width, height) && 3 * width >= 4 * height {
        Aspect { num: width, den: height }
    } else {
        native()
    }
}

/// Store the aspect derived from a window's physical size (see `spec_aspect_from_size`).
pub fn set_aspect_from_size(aspect: &mut Aspect, width: u32, height: u32)
    ensures
        *final(aspect) == spec_aspect_from_size(width, height),
{
    *aspect = match valid_surface_size(width, height) {
        Some((w, h)) => if 3 * (w as u64) >= 4 * (h as u64) {
            Aspect { num: w, den: h }
        } else {
            native_aspect()
        },
        None => native_aspect(),
    };
}

/// The stored aspect is never narrower than native 4:3 and never has a zero denominator.
pub proof fn law_aspect_at_least_native(width: u32, height: u32)
    ensures
        spec_aspect_from_size(width, height).den > 0,
        3 * spec_aspect_from_size(width, height).num >= 4 * spec_aspect_from_size(width, height).den,
{
}

/// The graphics microcode a guest build declares (`HLXMicrocode` in runtime.h).
#[derive(Clone, Copy, Debug, PartialEq, Eq)]
pub enum Microcode {
    F3dex2,
    F3d,
}

/// The guest's vertex and matrix layout (`HLXDataFormat` in runtime.h).
#[derive(Clone, Copy, Debug, PartialEq, Eq)]
pub enum DataFormat {
    Fixed,
    Float,
}

/// The microcode for a declared id: 0 is F3DEX2, 1 is F3D; any other id means the C header and
/// this mapping have drifted, which falls back to F3DEX2 and is reported (the flag).
pub fn microcode_from_id(id: u32) -> (r: (Microcode, bool))
    ensures
        r == (if id == 0 {
            (Microcode::F3dex2, false)
        } else if id == 1 {
            (Microcode::F3d, false)
        } else {
            (Microcode::F3dex2, true)
        }),
{
    if id == 0 {
        (Microcode::F3dex2, false)
    } else if id == 1 {
        (Microcode::F3d, false)
    } else {
        (Microcode::F3dex2, true)
    }
}

/// The data format for a declared id: 0 is fixed point, 1 is float; any other id has drifted,
/// falls back to fixed point and is reported (the flag).
pub fn data_format_from_id(id: u32) -> (r: (DataFormat, bool))
    ensures
        r == (if id == 0 {
            (DataFormat::Fixed, false)
        } else if id == 1 {
            (DataFormat::Float, false)
        } else {
            (DataFormat::Fixed, true)
        }),
{
    if id == 0 {
        (DataFormat::Fixed, false)
    } else if id == 1 {
        (DataFormat::Float, false)
    } else {
        (DataFormat::Fixed, true)
    }
}

/// The surface extent configured for a window size: never below 1x1.
pub fn surface_extent(width: u32, height: u32) -> (r: (u32, u32))
    ensures
        r.0 == (if width >= 1 { width } else { 1 }),
        r.1 == (if height >= 1 { height } else { 1 }),
{
    (if width >= 1 {
        width
    } else {
        1
    }, if height >= 1 {
        height
    } else {
        1
    })
}

/// A message to the render thread, without its reply channel.
#[derive(Clone, Copy, Debug, PartialEq, Eq)]
pub enum RenderCommand {
    Gfx(usize),
    Resize(u32, u32),
    Shutdown,
}

/// What the render thread does, in order.
#[derive(Clone, Copy, Debug, PartialEq, Eq)]
pub enum RenderAction {
    /// Consume the display list at this guest address.
    Consume(usize),
    /// Release the blocked guest (it then posts SP and DP).
    Release,
    /// Present the frame.
    Present,
    /// Reconfigure the surface.
    Resize(u32, u32),
    /// Leave the loop.
    Stop,
}

/// The render loop's dispatch: a display list is consumed, the guest released, and then the frame
/// presented — the guest is released before the present; a resize reconfigures only for a valid
/// size; a shutdown leaves the loop.
pub fn render_actions(cmd: RenderCommand) -> (r: Vec<RenderAction>)
    ensures
        r@ == (match cmd {
            RenderCommand::Gfx(p) => seq![RenderAction::Consume(p), RenderAction::Release, RenderAction::Present],
            RenderCommand::Resize(w, h) => if size_is_valid(w, h) {
                seq![RenderAction::Resize(w, h)]
            } else {
                Seq::<RenderAction>::empty()
            },
            RenderCommand::Shutdown => seq![RenderAction::Stop],
        }),
{
    let mut r: Vec<RenderAction> = Vec::new();
    match cmd {
        RenderCommand::Gfx(p) => {
            r.push(RenderAction::Consume(p));
            r.push(RenderAction::Release);
            r.push(RenderAction::Present);
        },
        RenderCommand::Resize(w, h) => {
            if let Some((w2, h2)) = valid_surface_size(w, h) {
                r.push(RenderAction::Resize(w2, h2));
            }
        },
        RenderCommand::Shutdown => {
            r.push(RenderAction::Stop);
        },
    }
    r
}

/// The actions of a spec-level run of the loop over `cmds`: each command's actions in turn, until
/// the first shutdown (which stops the loop; later commands are never read).
pub open spec fn loop_actions(cmds: Seq<RenderCommand>) -> Seq<RenderAction>
    decreases cmds.len(),
{
    if cmds.len() == 0 {
        Seq::empty()
    } else if cmds[0] is Shutdown {
        seq![RenderAction::Stop]
    } else {
        command_actions(cmds[0]) + loop_actions(cmds.drop_first())
    }
}

/// The actions for one command, as `render_actions` states them.
pub open spec fn command_actions(cmd: RenderCommand) -> Seq<RenderAction> {
    match cmd {
        RenderCommand::Gfx(p) => seq![RenderAction::Consume(p), RenderAction::Release, RenderAction::Present],
        RenderCommand::Resize(w, h) => if size_is_valid(w, h) {
            seq![RenderAction::Resize(w, h)]
        } else {
            Seq::<RenderAction>::empty()
        },
        RenderCommand::Shutdown => seq![RenderAction::Stop],
    }
}

/// The render loop over a sequence of received commands: dispatch each in order and stop at the
/// first shutdown (a dropped sender is the end of `cmds`).
pub fn render_loop_on(cmds: &[RenderCommand]) -> (r: Vec<RenderAction>)
    ensures
        r@ == loop_actions(cmds@),
{
    let mut r: Vec<RenderAction> = Vec::new();
    let mut i: usize = 0;
    assert(cmds@.skip(0) =~= cmds@);
    assert(r@ + loop_actions(cmds@.skip(0)) =~= loop_actions(cmds@));
    loop
        invariant_except_break
            i <= cmds@.len(),
            r@ + loop_actions(cmds@.skip(i as int)) == loop_actions(cmds@),
        ensures
            r@ == loop_actions(cmds@),
        decreases cmds@.len() - i,
    {
        if i >= cmds.len() {
            assert(cmds@.skip(i as int) =~= Seq::<RenderCommand>::empty());
            assert(r@ + Seq::<RenderAction>::empty() =~= r@);
            break;
        }
        let cmd = cmds[i];
        proof {
            assert(cmds@.skip(i as int).drop_first() =~= cmds@.skip(i + 1));
            assert(cmds@.skip(i as int)[0] == cmd);
        }
        if let RenderCommand::Shutdown = cmd {
            r.push(RenderAction::Stop);
            break;
        }
        let a = render_actions(cmd);
        let ghost before = r@;
        let mut j: usize = 0;
        while j < a.len()
            invariant
                j <= a@.len(),
                r@ == before + a@.take(j as int),
            decreases a@.len() - j,
        {
            r.push(a[j]);
            j = j + 1;
            assert(r@ =~= before + a@.take(j as int));
        }
        assert(a@.take(j as int) =~= a@);
        assert(a@ == command_actions(cmd));
        assert(r@ + loop_actions(cmds@.skip(i + 1)) =~= before + loop_actions(cmds@.skip(i as int)));
        i = i + 1;
    }
    r
}

} // verus!
