use crate::ultra::mesg::{MesgRegistry, SendStep};
use vstd::prelude::*;

verus! {

pub const NUM_EVENTS: usize = 32;

/// OS_EVENT_SP: SP task done.
pub const OS_EVENT_SP: i32 = 4;

/// OS_EVENT_SI: SI (controller) read done.
pub const OS_EVENT_SI: i32 = 5;

/// OS_EVENT_DP: DP full-sync done.
pub const OS_EVENT_DP: i32 = 9;

/// The slot of an OS_EVENT_* selector, when it names one of the table's slots.
pub open spec fn event_slot(event: i32) -> Option<int> {
    if 0 <= event < NUM_EVENTS {
        Some(event as int)
    } else {
        None
    }
}

/// The event table: for each OS_EVENT_* selector, the queue key and message registered by
/// osSetEventMesg, if any.
pub struct EventTable {
    slots: Vec<Option<(usize, usize)>>,
}

impl View for EventTable {
    type V = Seq<Option<(usize, usize)>>;

    closed spec fn view(&self) -> Seq<Option<(usize, usize)>> {
        self.slots@
    }
}

impl EventTable {
    pub fn new() -> (t: EventTable)
        ensures
            t@ == Seq::new(NUM_EVENTS as nat, |i: int| None::<(usize, usize)>),
    {
        let mut slots: Vec<Option<(usize, usize)>> = Vec::new();
        let mut i: usize = 0;
        while i < NUM_EVENTS
            invariant
                i <= NUM_EVENTS,
                slots@ == Seq::new(i as nat, |j: int| None::<(usize, usize)>),
            decreases NUM_EVENTS - i,
        {
            slots.push(None);
            i = i + 1;
            assert(slots@ =~= Seq::new(i as nat, |j: int| None::<(usize, usize)>));
        }
        EventTable { slots }
    }

    pub closed spec fn wf(&self) -> bool {
        self.slots@.len() == NUM_EVENTS
    }

    pub proof fn lemma_wf(&self)
        requires
            self.wf(),
        ensures
            self@.len() == NUM_EVENTS,
    {
    }

    /// osSetEventMesg: register (`mq`, `msg`) for `event`; a selector outside the table is ignored.
    pub fn set_mesg(&mut self, event: i32, mq: usize, msg: usize)
        requires
            old(self).wf(),
        ensures
            final(self).wf(),
            final(self)@ == (match event_slot(event) {
                Some(i) => old(self)@.update(i, Some((mq, msg))),
                None => old(self)@,
            }),
    {
        if 0 <= event && (event as usize) < NUM_EVENTS {
            self.slots.set(event as usize, Some((mq, msg)));
        }
    }

    /// The registration for `event`, if any.
    pub fn lookup(&self, event: i32) -> (r: Option<(usize, usize)>)
        requires
            self.wf(),
        ensures
            r == (match event_slot(event) {
                Some(i) => self@[i],
                None => None,
            }),
    {
        if 0 <= event && (event as usize) < NUM_EVENTS {
            self.slots[event as usize]
        } else {
            None
        }
    }
}

/// The queue a post of `event` lands on, and with which message.
pub open spec fn posted_to(t: Seq<Option<(usize, usize)>>, event: i32) -> Option<(usize, usize)> {
    match event_slot(event) {
        Some(i) => t[i],
        None => None,
    }
}

/// Post the message registered for `event` to its queue, tail order and non-blocking (a host
/// injector never parks). Nothing happens for an unregistered event. The result is the send's
/// outcome, whose `wake` names a receiver to wake.
pub fn post(t: &EventTable, reg: &mut MesgRegistry, event: i32) -> (r: Option<SendStep>)
    requires
        t.wf(),
        old(reg).wf(),
        posted_to(t@, event) matches Some((k, _)) ==> old(reg)@.contains_key(k),
    ensures
        final(reg).wf(),
        match posted_to(t@, event) {
            Some((k, m)) => {
                &&& final(reg)@ == old(reg)@.insert(k, old(reg)@[k].send(m, 0, 0).0)
                &&& r == Some(old(reg)@[k].send(m, 0, 0).1)
            },
            None => final(reg)@ == old(reg)@ && r is None,
        },
{
    match t.lookup(event) {
        Some((key, msg)) => Some(reg.send(key, msg, 0, 0)),
        None => None,
    }
}

} // verus!
