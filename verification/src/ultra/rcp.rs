use crate::ultra::event::{post, posted_to, EventTable, OS_EVENT_DP, OS_EVENT_SP};
use crate::ultra::mesg::{MesgRegistry, QueueView, SendStep};
use vstd::prelude::*;

verus! {

/// OSTask types (include/PR/sptask.h).
pub const M_GFXTASK: u32 = 1;

pub const M_AUDTASK: u32 = 2;

/// The size of one audio command (Acmd) in bytes.
pub const ACMD_SIZE: u32 = 16;

/// Where osSpTaskStartGo sends a task.
#[derive(Clone, Copy, Debug, PartialEq, Eq)]
pub enum TaskRoute {
    /// A display list: consumed by the render thread, then SP and DP complete.
    Gfx,
    /// An audio command list of this many commands, interpreted in place; then SP completes.
    Audio(i32),
    /// Anything else (load, yield) is a no-op.
    Ignored,
}

/// Route an RCP task by its type; an audio task's command count is its data size over the
/// command size.
pub fn route_task(task_type: u32, data_size: u32) -> (r: TaskRoute)
    ensures
        task_type == M_GFXTASK ==> r == TaskRoute::Gfx,
        task_type == M_AUDTASK ==> r == TaskRoute::Audio((data_size / ACMD_SIZE) as i32),
        task_type != M_GFXTASK && task_type != M_AUDTASK ==> r == TaskRoute::Ignored,
{
    if task_type == M_GFXTASK {
        TaskRoute::Gfx
    } else if task_type == M_AUDTASK {
        TaskRoute::Audio((data_size / ACMD_SIZE) as i32)
    } else {
        TaskRoute::Ignored
    }
}

/// The two completions a graphics task posts, in osSendMesg tail order: SP before DP (so the
/// game's SP handler runs before its DP handler).
pub fn gfx_completion_events() -> (r: [i32; 2])
    ensures
        r@ == seq![OS_EVENT_SP, OS_EVENT_DP],
{
    [OS_EVENT_SP, OS_EVENT_DP]
}

/// The registry after a non-blocking post to `target`, if any.
pub open spec fn after_post(
    reg: Map<usize, QueueView>,
    target: Option<(usize, usize)>,
) -> Map<usize, QueueView> {
    match target {
        Some((k, m)) => reg.insert(k, reg[k].send(m, 0, 0).0),
        None => reg,
    }
}

/// The receiver that a non-blocking post to `target` wakes, as a sequence of zero or one.
pub open spec fn woken_by(reg: Map<usize, QueueView>, target: Option<(usize, usize)>) -> Seq<usize> {
    match target {
        Some((k, m)) => match reg[k].send(m, 0, 0).1 {
            SendStep::Done { wake: Some(w), .. } => seq![w],
            _ => Seq::empty(),
        },
        None => Seq::empty(),
    }
}

/// Post SP then DP through the event table; the result lists the receivers to wake, in order.
pub fn post_gfx_completion(t: &EventTable, reg: &mut MesgRegistry) -> (wakes: Vec<usize>)
    requires
        t.wf(),
        old(reg).wf(),
        posted_to(t@, OS_EVENT_SP) matches Some((k, _)) ==> old(reg)@.contains_key(k),
        posted_to(t@, OS_EVENT_DP) matches Some((k, _)) ==> old(reg)@.contains_key(k),
    ensures
        final(reg).wf(),
        ({
            let mid = after_post(old(reg)@, posted_to(t@, OS_EVENT_SP));
            &&& final(reg)@ == after_post(mid, posted_to(t@, OS_EVENT_DP))
            &&& wakes@ == woken_by(old(reg)@, posted_to(t@, OS_EVENT_SP)) + woken_by(
                mid,
                posted_to(t@, OS_EVENT_DP),
            )
        }),
{
    let mut wakes: Vec<usize> = Vec::new();
    let events = gfx_completion_events();
    let r1 = post(t, reg, events[0]);
    if let Some(SendStep::Done { wake: Some(w), .. }) = r1 {
        wakes.push(w);
    }
    let r2 = post(t, reg, events[1]);
    if let Some(SendStep::Done { wake: Some(w), .. }) = r2 {
        wakes.push(w);
    }
    wakes
}

} // verus!
