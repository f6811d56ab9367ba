use firecracker::dispatch::{EpollContext, EpollDispatch};

struct DummyEpollHandler {
    evt: Option<u16>,
}

#[test]
fn test_device_handler() {
    let mut ep: EpollContext<DummyEpollHandler> = EpollContext::new();
    let (base, sender) = ep.allocate_tokens(1);
    assert_eq!(ep.device_handlers_len(), 1);
    assert_eq!(base, 1);

    let handler = DummyEpollHandler { evt: None };
    assert!(sender.send(handler).is_ok());
    assert!(ep.get_device_handler(0).is_ok());
}

#[test]
fn new_epoll_context_test() {
    let ep: EpollContext<DummyEpollHandler> = EpollContext::new();
    assert_eq!(ep.stdin_index(), 0);
    assert_eq!(ep.next_dispatch_index(), 1);
    assert_eq!(ep.dispatch(0), None);
}

#[test]
fn enable_disable_stdin_test() {
    let mut ep: EpollContext<DummyEpollHandler> = EpollContext::new();
    ep.enable_stdin_event(true);
    assert_eq!(ep.dispatch(ep.stdin_index()), Some(EpollDispatch::Stdin));
    ep.disable_stdin_event();
    assert_eq!(ep.dispatch(ep.stdin_index()), None);
    ep.enable_stdin_event(true);
    assert_eq!(ep.dispatch(ep.stdin_index()), Some(EpollDispatch::Stdin));
    ep.disable_stdin_event();
    assert_eq!(ep.dispatch(ep.stdin_index()), None);
}

#[test]
fn add_remove_event_test() {
    let mut ep: EpollContext<DummyEpollHandler> = EpollContext::new();
    let epev = ep.add_event(7i32, EpollDispatch::Exit);
    assert_eq!(epev.dispatch_index, 1);
    let idx = epev.dispatch_index;
    assert_eq!(ep.remove_event(epev), 7);
    assert_eq!(ep.dispatch(idx), None);
}

#[test]
fn epoll_event_test() {
    let mut ep: EpollContext<DummyEpollHandler> = EpollContext::new();
    let epev = ep.add_event(10u32, EpollDispatch::Exit);
    let idx = epev.dispatch_index;
    assert!(ep.dispatch(idx).is_some());
    assert_eq!(ep.dispatch(idx).unwrap(), EpollDispatch::Exit);
    ep.remove_event(epev);
}

#[test]
fn epoll_event_try_get_after_remove_test() {
    let mut ep: EpollContext<DummyEpollHandler> = EpollContext::new();
    let epev = ep.add_event(10u32, EpollDispatch::Exit);
    let idx = epev.dispatch_index;
    ep.remove_event(epev);
    assert_eq!(ep.dispatch(idx), None);
    assert_eq!(ep.next_dispatch_index(), 2);
}

#[test]
fn epoll_event_try_use_after_remove_test() {
    let mut ep: EpollContext<DummyEpollHandler> = EpollContext::new();
    let epev = ep.add_event(10u32, EpollDispatch::Exit);
    let idx = epev.dispatch_index;
    assert_eq!(ep.dispatch(idx), Some(EpollDispatch::Exit));
    ep.remove_event(epev);
    assert!(ep.dispatch(idx).is_none());
}

#[test]
fn handler_not_sent_yet() {
    let mut ep: EpollContext<DummyEpollHandler> = EpollContext::new();
    let (_base, sender) = ep.allocate_tokens(2);
    assert!(ep.get_device_handler(0).is_err());
    assert!(sender.send(DummyEpollHandler { evt: Some(3) }).is_ok());
    let h = ep.get_device_handler(0).unwrap();
    assert_eq!(h.evt, Some(3));
    h.evt = Some(9);
    // The installed handler is kept; the channel is not read again.
    assert_eq!(ep.get_device_handler(0).unwrap().evt, Some(9));
}

#[test]
fn device_tokens_numbered() {
    let mut ep: EpollContext<DummyEpollHandler> = EpollContext::new();
    let (b0, _s0) = ep.allocate_tokens(2);
    let (b1, _s1) = ep.allocate_tokens(3);
    assert_eq!(b0, 1);
    assert_eq!(b1, 3);
    assert_eq!(ep.dispatch(1), Some(EpollDispatch::DeviceHandler(0, 0)));
    assert_eq!(ep.dispatch(2), Some(EpollDispatch::DeviceHandler(0, 1)));
    assert_eq!(ep.dispatch(5), Some(EpollDispatch::DeviceHandler(1, 2)));
    assert_eq!(ep.dispatch(6), None);
}

#[test]
fn stdin_not_registered_leaves_slot_empty() {
    let mut ep: EpollContext<DummyEpollHandler> = EpollContext::new();
    ep.enable_stdin_event(false);
    assert_eq!(ep.dispatch(ep.stdin_index()), None);
}
