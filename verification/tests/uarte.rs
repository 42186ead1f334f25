use embassy_drivers::ring_buf::RINGBUF_SIZE;
use embassy_drivers::uarte::{
    port_bit, FillBuf, Instance, Interrupt, InterruptSetup, Pins, Port, RxActions, RxEvents,
    RxState, Sealed, TxState, Uarte, UarteState, WritePoll,
};

struct Dev;
impl Sealed for Dev {}
impl Instance for Dev {
    fn interrupt() -> Interrupt {
        Interrupt::UARTE0_UART0
    }
}

fn idle_actions() -> RxActions {
    RxActions {
        reset_rxdrdy: false,
        start_rx: None,
        disable_rxdrdy_irq: false,
        reset_endrx: false,
        wake: false,
        more_work: false,
    }
}

fn ev(rxdrdy: bool, endrx: bool, received: Vec<u8>) -> RxEvents {
    RxEvents { rxdrdy, endrx, received }
}

#[test]
fn port_bits() {
    assert!(!port_bit(Port::Port0));
    assert!(port_bit(Port::Port1));
}

#[test]
fn start_asks_priority_seven_enable_and_pend() {
    let mut s = UarteState::new(Dev);
    assert_eq!(s.start(), InterruptSetup { priority: 7, enable: true, pend: true });
}

#[test]
fn driver_starts_once() {
    let mut u = Uarte::new(Dev);
    let (setup, n) = u.with_state(|mut s| {
        let r = s.poll_write(&[1, 2]);
        (s, r)
    });
    assert_eq!(setup, Some(InterruptSetup { priority: 7, enable: true, pend: true }));
    assert_eq!(n, WritePoll::Ready(2));
    let (setup, n) = u.with_state(|mut s| {
        let r = s.poll_write(&[3]);
        (s, r)
    });
    assert_eq!(setup, None);
    assert_eq!(n, WritePoll::Ready(1));
    let a = u.state().tx_step(false);
    assert_eq!(a.start_tx, Some(vec![1, 2, 3]));
    assert_eq!(u.state().rx_state(), RxState::Idle);
    assert_eq!(u.state().rx_free(), RINGBUF_SIZE);
}

#[test]
fn pins_hold_their_parts() {
    let p = Pins { rxd: 10u8, txd: 9u8, dma: 2u8, usart: 1u8 };
    assert_eq!((p.rxd, p.txd, p.dma, p.usart), (10, 9, 2, 1));
}

#[test]
fn receive_cycle_delivers_bytes_in_order() {
    let mut s = UarteState::new(Dev);
    // Idle with room: a reception of the whole free region starts.
    let a = s.rx_step(ev(false, false, vec![]));
    assert_eq!(a, RxActions { reset_rxdrdy: true, start_rx: Some(RINGBUF_SIZE), ..idle_actions() });
    // Nothing yet.
    assert_eq!(s.rx_step(ev(false, false, vec![])), idle_actions());
    // First byte arrived.
    let a = s.rx_step(ev(true, false, vec![]));
    assert_eq!(
        a,
        RxActions { reset_rxdrdy: true, disable_rxdrdy_irq: true, wake: true, more_work: true, ..idle_actions() }
    );
    // Reader finds nothing yet, so the reception is stopped.
    match s.poll_fill_buf() {
        FillBuf::Pending { stop_rx } => assert!(stop_rx),
        FillBuf::Ready(_) => panic!("no data expected"),
    }
    match s.poll_fill_buf() {
        FillBuf::Pending { stop_rx } => assert!(!stop_rx),
        FillBuf::Ready(_) => panic!("no data expected"),
    }
    // Reception ends with three bytes.
    let a = s.rx_step(ev(false, true, vec![5, 6, 7]));
    assert_eq!(a, RxActions { reset_endrx: true, wake: true, more_work: true, ..idle_actions() });
    match s.poll_fill_buf() {
        FillBuf::Ready(b) => assert_eq!(b, vec![5, 6, 7]),
        FillBuf::Pending { .. } => panic!("data expected"),
    }
    s.consume(2);
    match s.poll_fill_buf() {
        FillBuf::Ready(b) => assert_eq!(b, vec![7]),
        FillBuf::Pending { .. } => panic!("data expected"),
    }
    // Back in idle, the next reception covers the rest of the buffer.
    let a = s.rx_step(ev(false, false, vec![]));
    assert_eq!(a.start_rx, Some(RINGBUF_SIZE - 3));
}

#[test]
fn receive_room_shrinks_as_bytes_arrive() {
    let mut s = UarteState::new(Dev);
    s.rx_step(ev(false, false, vec![]));
    s.rx_step(ev(true, false, vec![]));
    assert_eq!(s.rx_state(), RxState::ReceivingReady);
    s.rx_step(ev(false, true, vec![1; 10]));
    assert_eq!(s.rx_state(), RxState::Idle);
    assert_eq!(s.rx_free(), RINGBUF_SIZE - 10);
}

#[test]
fn transmit_cycle_sends_queued_bytes() {
    let mut s = UarteState::new(Dev);
    let a = s.tx_step(false);
    assert!(a.start_tx.is_none() && !a.more_work);
    assert_eq!(s.poll_write(&[1, 2, 3]), WritePoll::Ready(3));
    let a = s.tx_step(false);
    assert_eq!(a.start_tx, Some(vec![1, 2, 3]));
    assert!(!a.reset_endtx && !a.wake && !a.more_work);
    assert_eq!(s.poll_write(&[4]), WritePoll::Ready(1));
    // Still transmitting the first three.
    let a = s.tx_step(false);
    assert!(a.start_tx.is_none() && !a.more_work);
    let a = s.tx_step(true);
    assert!(a.reset_endtx && a.wake && a.more_work);
    let a = s.tx_step(false);
    assert_eq!(a.start_tx, Some(vec![4]));
}

#[test]
fn write_waits_when_full() {
    let mut s = UarteState::new(Dev);
    let big = vec![1u8; RINGBUF_SIZE + 5];
    assert_eq!(s.poll_write(&big), WritePoll::Ready(RINGBUF_SIZE));
    assert_eq!(s.poll_write(&[1]), WritePoll::Pending);
}

#[test]
fn states_are_distinct() {
    assert_ne!(RxState::Idle, RxState::Stopping);
    assert_eq!(TxState::Transmitting(3), TxState::Transmitting(3));
    assert_ne!(Interrupt::UARTE0_UART0, Interrupt::UARTE1);
}
