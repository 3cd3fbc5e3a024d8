use vstd::prelude::*;

verus! {

/// The runtime's process flags: whether the libultra runtime owns frame pacing and input (set by
/// HLXRuntimeInit), and whether a shutdown was requested.
pub struct RuntimeFlags {
    pub active: bool,
    pub shutdown: bool,
}

impl RuntimeFlags {
    pub fn new() -> (f: RuntimeFlags)
        ensures
            !f.active,
            !f.shutdown,
    {
        RuntimeFlags { active: false, shutdown: false }
    }
}

/// True once the runtime owns frame pacing and input.
pub fn runtime_active(f: &RuntimeFlags) -> (r: bool)
    ensures
        r == f.active,
{
    f.active
}

/// Set by HLXRuntimeInit.
pub fn mark_runtime_active(f: &mut RuntimeFlags)
    ensures
        final(f).active,
        final(f).shutdown == old(f).shutdown,
{
    f.active = true;
}

/// Set by a window close, a winit exit, or a fatal render-thread failure; observed by the event
/// pump, which then tears down and returns.
pub fn request_shutdown(f: &mut RuntimeFlags)
    ensures
        final(f).shutdown,
        final(f).active == old(f).active,
{
    f.shutdown = true;
}

pub fn shutdown_requested(f: &RuntimeFlags) -> (r: bool)
    ensures
        r == f.shutdown,
{
    f.shutdown
}

/// One step of the graceful teardown.
#[derive(Clone, Copy, Debug, PartialEq, Eq)]
pub enum TeardownStep {
    /// Detach and drop the audio runtime, so no player or callback outlives the process.
    Audio,
    /// Stop and join the VI retrace clock.
    Vi,
    /// Flush the EEPROM to disk.
    Save,
}

/// The graceful teardown, in order: audio first, then the retrace clock, then the EEPROM flush —
/// audio is always torn down before the save is flushed.
pub fn teardown() -> (steps: Vec<TeardownStep>)
    ensures
        steps@ == seq![TeardownStep::Audio, TeardownStep::Vi, TeardownStep::Save],
{
    let mut steps: Vec<TeardownStep> = Vec::new();
    steps.push(TeardownStep::Audio);
    steps.push(TeardownStep::Vi);
    steps.push(TeardownStep::Save);
    steps
}

} // verus!
