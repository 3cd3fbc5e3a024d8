use crate::ultra::mesg::{MesgRegistry, QueueView, SendStep};
use vstd::prelude::*;

verus! {

/// Device to RDRAM.
pub const OS_READ: i32 = 0;

/// RDRAM to device.
pub const OS_WRITE: i32 = 1;

/// A PI copy to perform: `len` bytes from address `src` to address `dst` (they may overlap).
#[derive(Clone, Copy, Debug, PartialEq, Eq)]
pub struct PiTransfer {
    pub src: usize,
    pub dst: usize,
    pub len: usize,
}

/// The argument checks of osPiStartDma: non-null message and queue, a size within `isize`, a
/// known direction, and for a nonempty copy non-null, non-wrapping device and RDRAM ranges.
pub open spec fn pi_args_ok(mb: usize, dir: i32, dev_addr: usize, v_addr: usize, nbytes: usize, mq: usize) -> bool {
    &&& mb != 0
    &&& mq != 0
    &&& nbytes <= isize::MAX
    &&& (dir == OS_READ || dir == OS_WRITE)
    &&& nbytes > 0 ==> v_addr != 0 && dev_addr != 0 && dev_addr + nbytes <= usize::MAX && v_addr
        + nbytes <= usize::MAX
}

pub open spec fn queue_has_room(reg: Map<usize, QueueView>, mq: usize) -> bool {
    reg.contains_key(mq) && reg[mq].msgs.len() < reg[mq].cap
}

/// Synchronous PI DMA: when the arguments are valid and the completion queue exists with room,
/// name the copy to perform (device to RDRAM for a read, RDRAM to device for a write) and post
/// `mb` to `mq` — 0 and the copy; otherwise -1 with no copy and no post. The copy and its
/// completion go together: there is no copy without a completion. The last result names a
/// receiver to wake.
pub fn pi_start_dma(
    reg: &mut MesgRegistry,
    mb: usize,
    dir: i32,
    dev_addr: usize,
    v_addr: usize,
    nbytes: usize,
    mq: usize,
) -> (r: (i32, Option<PiTransfer>, Option<usize>))
    requires
        old(reg).wf(),
    ensures
        final(reg).wf(),
        if pi_args_ok(mb, dir, dev_addr, v_addr, nbytes, mq) && queue_has_room(old(reg)@, mq) {
            &&& r.0 == 0
            &&& r.1 == Some(
                if dir == OS_READ {
                    PiTransfer { src: dev_addr, dst: v_addr, len: nbytes }
                } else {
                    PiTransfer { src: v_addr, dst: dev_addr, len: nbytes }
                },
            )
            &&& final(reg)@ == old(reg)@.insert(mq, old(reg)@[mq].send(mb, 0, 0).0)
            &&& old(reg)@[mq].send(mb, 0, 0).1 == (SendStep::Done { ret: 0, wake: r.2 })
        } else {
            r == (-1i32, None::<PiTransfer>, None::<usize>) && final(reg)@ == old(reg)@
        },
{
    if mb == 0 || mq == 0 || nbytes > isize::MAX as usize {
        return (-1, None, None);
    }
    if dir != OS_READ && dir != OS_WRITE {
        return (-1, None, None);
    }
    if nbytes > 0 && (v_addr == 0 || dev_addr == 0 || dev_addr.checked_add(nbytes).is_none()
        || v_addr.checked_add(nbytes).is_none()) {
        return (-1, None, None);
    }
    if reg.reserve(mq) != 0 {
        return (-1, None, None);
    }
    let t = if dir == OS_READ {
        PiTransfer { src: dev_addr, dst: v_addr, len: nbytes }
    } else {
        PiTransfer { src: v_addr, dst: dev_addr, len: nbytes }
    };
    match reg.send(mq, mb, 0, 0) {
        SendStep::Done { wake, .. } => (0, Some(t), wake),
        SendStep::Park => (0, Some(t), None),
    }
}

} // verus!
