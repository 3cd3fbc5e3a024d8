use helix::ultra::event::{post, EventTable, OS_EVENT_DP, OS_EVENT_SI, OS_EVENT_SP};
use helix::ultra::mesg::MesgRegistry;
use helix::ultra::rcp::{gfx_completion_events, post_gfx_completion, route_task, TaskRoute, M_AUDTASK, M_GFXTASK};

#[test]
fn post_delivers_registered_message() {
    let mut reg = MesgRegistry::new();
    let mq = 0x7000;
    reg.create(mq, 1);
    let mut t = EventTable::new();
    t.set_mesg(OS_EVENT_SI, mq, 0x5150);
    assert!(post(&t, &mut reg, OS_EVENT_SI).is_some());
    assert_eq!(reg.recv(mq, 0, 0).pair(), (0, 0x5150));
}

#[test]
fn post_unregistered_event_is_noop() {
    let mut reg = MesgRegistry::new();
    let t = EventTable::new();
    assert!(post(&t, &mut reg, 6).is_none());
    assert!(post(&t, &mut reg, -1).is_none());
    assert!(post(&t, &mut reg, 32).is_none());
}

#[test]
fn lookup_and_out_of_range_registration() {
    let mut t = EventTable::new();
    assert_eq!(t.lookup(OS_EVENT_SP), None);
    t.set_mesg(OS_EVENT_SP, 1, 2);
    assert_eq!(t.lookup(OS_EVENT_SP), Some((1, 2)));
    t.set_mesg(40, 3, 4);
    assert_eq!(t.lookup(40), None);
    t.set_mesg(OS_EVENT_SP, 5, 6);
    assert_eq!(t.lookup(OS_EVENT_SP), Some((5, 6)));
}

#[test]
fn gfx_posts_sp_before_dp() {
    let seq = gfx_completion_events();
    let sp = seq.iter().position(|&e| e == OS_EVENT_SP).unwrap();
    let dp = seq.iter().position(|&e| e == OS_EVENT_DP).unwrap();
    assert!(sp < dp, "SP posts before DP");
}

#[test]
fn gfx_completion_lands_sp_then_dp_on_a_shared_queue() {
    let mut reg = MesgRegistry::new();
    let mq = 0x8000;
    reg.create(mq, 8);
    let mut t = EventTable::new();
    t.set_mesg(OS_EVENT_SP, mq, 100);
    t.set_mesg(OS_EVENT_DP, mq, 101);
    let wakes = post_gfx_completion(&t, &mut reg);
    assert!(wakes.is_empty());
    assert_eq!(reg.recv(mq, 0, 0).pair(), (0, 100));
    assert_eq!(reg.recv(mq, 0, 0).pair(), (0, 101));
}

#[test]
fn gfx_completion_wakes_a_parked_receiver() {
    let mut reg = MesgRegistry::new();
    let mq = 0x9000;
    reg.create(mq, 8);
    let mut t = EventTable::new();
    t.set_mesg(OS_EVENT_SP, mq, 100);
    assert_eq!(reg.recv(mq, 1, 7), helix::ultra::mesg::RecvStep::Park);
    let wakes = post_gfx_completion(&t, &mut reg);
    assert_eq!(wakes, vec![7]);
}

#[test]
fn tasks_route_by_type() {
    assert_eq!(route_task(M_GFXTASK, 1024), TaskRoute::Gfx);
    assert_eq!(route_task(M_AUDTASK, 160), TaskRoute::Audio(10));
    assert_eq!(route_task(M_AUDTASK, 17), TaskRoute::Audio(1));
    assert_eq!(route_task(3, 160), TaskRoute::Ignored);
}
