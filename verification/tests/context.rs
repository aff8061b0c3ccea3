use std::collections::VecDeque;

use heng_rs::context::{Context, Signal};
use heng_rs::time::ToDuration;

fn ctx_with(msgs: &[u32]) -> Context<u32> {
    let mut ctx = Context::new();
    for m in msgs {
        ctx.push_msg_back(*m);
    }
    ctx
}

#[test]
fn queue() {
    // messages 1, 2, 4, 3 arrive while the task is stopped, and it starts again
    let mut ctx: Context<u32> = Context::new();
    ctx.signal(Signal::Stop);
    ctx.push_msg_back(1);
    ctx.push_msg_back(2);
    ctx.push_msg_back(4);
    ctx.push_msg_back(3);
    ctx.signal(Signal::Start);
    assert!(ctx.running());

    assert_eq!(ctx.get_queue_mut(|queue| queue.pop_front()), Some(1));
    assert_eq!(ctx.get_msg_front(), Some(2));
    assert_eq!(ctx.get_msg_back(), Some(3));
    assert_eq!(ctx.get_queue_mut(|queue| queue.get(0) == Some(&4)), true);
}

#[test]
fn stop_send_restart() {
    // a stopped task keeps what it is sent and takes it once started again
    let mut ctx: Context<u32> = Context::new();
    ctx.signal(Signal::ChangeDur(400.millis() + 100.millis()));
    ctx.signal(Signal::Stop);
    assert!(!ctx.running());
    ctx.push_msg_back(32);
    ctx.signal(Signal::Start);
    assert!(ctx.running());
    assert_eq!(ctx.get_msg_front(), Some(32));
    assert_eq!(ctx.dur(), 500.millis());
}

#[test]
fn new_context_runs_with_empty_interval() {
    let mut ctx: Context<u32> = Context::new();
    assert!(ctx.running());
    assert_eq!(ctx.dur().as_nanos(), 0);
    assert_eq!(ctx.get_msg_front(), None);
    assert_eq!(ctx.get_msg_back(), None);
}

#[test]
fn messages_leave_in_order_of_arrival() {
    let mut ctx = ctx_with(&[7, 8, 9]);
    assert_eq!(ctx.get_msg_front(), Some(7));
    ctx.push_msg_back(10);
    assert_eq!(ctx.get_msg_front(), Some(8));
    assert_eq!(ctx.get_msg_front(), Some(9));
    assert_eq!(ctx.get_msg_front(), Some(10));
    assert_eq!(ctx.get_msg_front(), None);
}

#[test]
fn take_undoes_push_at_the_same_end() {
    let mut ctx = ctx_with(&[1, 2]);
    ctx.push_msg_front(0);
    assert_eq!(ctx.get_msg_front(), Some(0));
    ctx.push_msg_back(3);
    assert_eq!(ctx.get_msg_back(), Some(3));
    assert_eq!(ctx.get_queue_mut(|q: &mut VecDeque<u32>| q.iter().copied().collect::<Vec<u32>>()), vec![1, 2]);
}

#[test]
fn signals_set_state_and_keep_queue() {
    let mut ctx = ctx_with(&[5]);
    ctx.signal(Signal::Stop).signal(Signal::Stop);
    assert!(!ctx.running());
    ctx.signal(Signal::ChangeDur(2.s()));
    assert!(!ctx.running());
    assert_eq!(ctx.dur(), 2.s());
    ctx.signal(Signal::Start);
    assert!(ctx.running());
    assert_eq!(ctx.dur(), 2.s());
    assert_eq!(ctx.get_msg_front(), Some(5));
}

#[test]
fn restart_only_on_a_new_interval() {
    let mut ctx: Context<u32> = Context::new();
    ctx.signal(Signal::ChangeDur(1.s()));
    assert!(!ctx.should_restart(1.s(), None));
    assert!(!ctx.should_restart(1.s(), Some(Signal::Stop)));
    assert!(!ctx.running());
    assert!(!ctx.should_restart(1.s(), Some(Signal::Start)));
    assert!(ctx.running());
    assert!(!ctx.should_restart(1.s(), Some(Signal::ChangeDur(1.s()))));
    assert!(ctx.should_restart(1.s(), Some(Signal::ChangeDur(500.millis()))));
    assert_eq!(ctx.dur(), 500.millis());
}
