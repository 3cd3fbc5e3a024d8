use helix::ultra::mesg::{MesgRegistry, RecvStep, SendStep, OS_MESG_BLOCK};

fn send(reg: &mut MesgRegistry, key: usize, msg: usize, flag: i32) -> i32 {
    reg.send(key, msg, flag, 0).ret()
}

fn send_coalescing(reg: &mut MesgRegistry, key: usize, msg: usize) -> i32 {
    reg.send_coalescing(key, msg).ret()
}

fn recv(reg: &mut MesgRegistry, key: usize, flag: i32) -> (i32, usize) {
    reg.recv(key, flag, 0).pair()
}

#[test]
fn noblock_send_recv_fifo() {
    let mut reg = MesgRegistry::new();
    let key = 0x1000;
    reg.create(key, 2);
    assert_eq!(send(&mut reg, key, 0xAA, 0), 0);
    assert_eq!(send(&mut reg, key, 0xBB, 0), 0);
    assert_eq!(send(&mut reg, key, 0xCC, 0), -1);
    assert_eq!(recv(&mut reg, key, 0), (0, 0xAA));
    assert_eq!(recv(&mut reg, key, 0), (0, 0xBB));
    assert_eq!(recv(&mut reg, key, 0), (-1, 0));
}

#[test]
fn ring_wraps_around() {
    let mut reg = MesgRegistry::new();
    let key = 0x1000;
    reg.create(key, 2);
    assert_eq!(send(&mut reg, key, 1, 0), 0);
    assert_eq!(send(&mut reg, key, 2, 0), 0);
    assert_eq!(recv(&mut reg, key, 0), (0, 1));
    assert_eq!(send(&mut reg, key, 3, 0), 0);
    assert_eq!(recv(&mut reg, key, 0), (0, 2));
    assert_eq!(recv(&mut reg, key, 0), (0, 3));
}

const VI: usize = 102;
const SP: usize = 100;
const DP: usize = 101;

#[test]
fn vi_coalesces_to_one_outstanding() {
    let mut reg = MesgRegistry::new();
    let key = 0x2000;
    reg.create(key, 8);
    assert_eq!(send_coalescing(&mut reg, key, VI), 0);
    assert_eq!(send_coalescing(&mut reg, key, VI), 0, "suppressed post still reports success");
    assert_eq!(recv(&mut reg, key, 0), (0, VI));
    assert_eq!(recv(&mut reg, key, 0), (-1, 0), "only one retrace was ever queued");
}

#[test]
fn completions_never_dropped_under_vi_saturation() {
    let mut reg = MesgRegistry::new();
    let key = 0x3000;
    reg.create(key, 16);
    for _ in 0..100 {
        assert_eq!(send_coalescing(&mut reg, key, VI), 0);
    }
    assert_eq!(send(&mut reg, key, SP, 0), 0, "SP_COMPLETE must not drop");
    assert_eq!(send(&mut reg, key, DP, 0), 0, "DP_COMPLETE must not drop");
    assert_eq!(recv(&mut reg, key, 0), (0, VI));
    assert_eq!(recv(&mut reg, key, 0), (0, SP));
    assert_eq!(recv(&mut reg, key, 0), (0, DP));
    assert_eq!(recv(&mut reg, key, 0), (-1, 0));
}

#[test]
fn vi_reenqueues_after_consume() {
    let mut reg = MesgRegistry::new();
    let key = 0x4000;
    reg.create(key, 4);
    assert_eq!(send_coalescing(&mut reg, key, VI), 0);
    assert_eq!(send_coalescing(&mut reg, key, VI), 0);
    assert_eq!(recv(&mut reg, key, 0), (0, VI));
    assert_eq!(send_coalescing(&mut reg, key, VI), 0);
    assert_eq!(recv(&mut reg, key, 0), (0, VI));
    assert_eq!(recv(&mut reg, key, 0), (-1, 0));
}

#[test]
fn concurrent_vi_between_completions_is_coalesced() {
    let mut reg = MesgRegistry::new();
    let key = 0x5000;
    reg.create(key, 16);
    assert_eq!(send_coalescing(&mut reg, key, VI), 0);
    assert_eq!(send(&mut reg, key, SP, 0), 0);
    assert_eq!(send_coalescing(&mut reg, key, VI), 0);
    assert_eq!(send(&mut reg, key, DP, 0), 0);
    assert_eq!(recv(&mut reg, key, 0), (0, VI));
    assert_eq!(recv(&mut reg, key, 0), (0, SP));
    assert_eq!(recv(&mut reg, key, 0), (0, DP));
    assert_eq!(recv(&mut reg, key, 0), (-1, 0), "no second retrace slipped in");
}

#[test]
fn ring_is_fifo_and_caps_at_count_without_overflow() {
    let mut reg = MesgRegistry::new();
    let mq = 0x6000;
    reg.create(mq, 16);
    for i in 1..=16usize {
        assert_eq!(send(&mut reg, mq, i, 0), 0, "slot {i}");
    }
    assert_eq!(send(&mut reg, mq, 99, 0), -1);
    for i in 1..=16usize {
        assert_eq!(recv(&mut reg, mq, 0), (0, i));
    }
    assert_eq!(recv(&mut reg, mq, 0).0, -1);
}

#[test]
fn interrupt_burst_sp_drains_before_dp() {
    const MESG_VI: usize = 1;
    const MESG_SP: usize = 2;
    const MESG_DP: usize = 3;
    let mut reg = MesgRegistry::new();
    let mq = 0x7000;
    reg.create(mq, 16);
    for _ in 0..3 {
        assert_eq!(send(&mut reg, mq, MESG_VI, 0), 0);
    }
    assert_eq!(send(&mut reg, mq, MESG_SP, 0), 0);
    assert_eq!(send(&mut reg, mq, MESG_DP, 0), 0);
    for expected in [MESG_VI, MESG_VI, MESG_VI, MESG_SP, MESG_DP] {
        assert_eq!(recv(&mut reg, mq, 0), (0, expected));
    }
}

#[test]
fn create_with_nonpositive_count_has_one_slot() {
    let mut reg = MesgRegistry::new();
    reg.create(1, 0);
    assert_eq!(send(&mut reg, 1, 7, 0), 0);
    assert_eq!(send(&mut reg, 1, 8, 0), -1);
    reg.create(2, -5);
    assert_eq!(send(&mut reg, 2, 7, 0), 0);
    assert_eq!(send(&mut reg, 2, 8, 0), -1);
}

#[test]
fn blocking_recv_on_empty_parks_and_send_wakes_it() {
    let mut reg = MesgRegistry::new();
    reg.create(1, 1);
    assert_eq!(reg.recv(1, OS_MESG_BLOCK, 0xA1), RecvStep::Park);
    assert_eq!(reg.send(1, 0x77, 0, 0), SendStep::Done { ret: 0, wake: Some(0xA1) });
    assert_eq!(reg.recv(1, OS_MESG_BLOCK, 0xA1), RecvStep::Done { ret: 0, msg: 0x77, wake: None });
}

#[test]
fn blocking_send_on_full_parks_and_recv_wakes_it_then_fifo() {
    let mut reg = MesgRegistry::new();
    reg.create(1, 2);
    assert_eq!(send(&mut reg, 1, 0x11, 0), 0);
    assert_eq!(send(&mut reg, 1, 0x44, 0), 0);
    assert_eq!(send(&mut reg, 1, 0x33, 0), -1);
    assert_eq!(reg.send(1, 0x22, OS_MESG_BLOCK, 0xB2), SendStep::Park);
    assert_eq!(reg.recv(1, 0, 0), RecvStep::Done { ret: 0, msg: 0x11, wake: Some(0xB2) });
    assert_eq!(reg.send(1, 0x22, OS_MESG_BLOCK, 0xB2), SendStep::Done { ret: 0, wake: None });
    assert_eq!(recv(&mut reg, 1, 0), (0, 0x44));
    assert_eq!(recv(&mut reg, 1, 0), (0, 0x22));
}

#[test]
fn reserve_reports_missing_full_and_room() {
    let mut reg = MesgRegistry::new();
    assert_eq!(reg.reserve(9), -2);
    reg.create(9, 1);
    assert_eq!(reg.reserve(9), 0);
    assert_eq!(send(&mut reg, 9, 1, 0), 0);
    assert_eq!(reg.reserve(9), -1);
}
