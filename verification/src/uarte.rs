//! The buffered UARTE driver: its receive and transmit state machines.
//!
//! The interrupt handler reads the peripheral's event registers, lets
//! [`UarteState::rx_step`] and [`UarteState::tx_step`] decide, performs the
//! register writes they ask for, and repeats while they report more work.
use vstd::prelude::*;
use crate::ring_buf::{RingBuf, RINGBUF_SIZE};

verus! {

/// State of the receiver.
#[derive(Clone, Copy, Debug, PartialEq, Eq, Structural)]
pub enum RxState {
    /// No reception is running.
    Idle,
    /// A reception is running and no byte has arrived yet.
    Receiving,
    /// A reception is running and at least one byte has arrived.
    ReceivingReady,
    /// The reception was asked to stop and its end is awaited.
    Stopping,
}

/// How many more passes of the receive side a state can ask for: each pass
/// that reports more work moves to a state of lower rank, so the handler's
/// loop over the receive side ends.
pub open spec fn rx_rank(s: RxState) -> nat {
    match s {
        RxState::Idle => 0,
        RxState::Receiving => 2,
        RxState::ReceivingReady => 1,
        RxState::Stopping => 1,
    }
}

/// The receive side of the interrupt handler asks for at most two further
/// passes, so its loop makes at most three: the rank of the state it starts
/// in is at most 2, and each pass that asks for more work lowers it.
pub proof fn lemma_rx_rank_bound(s: RxState)
    ensures
        rx_rank(s) <= 2,
{
}

/// State of the transmitter.
#[derive(Clone, Copy, Debug, PartialEq, Eq, Structural)]
pub enum TxState {
    /// No transmission is running.
    Idle,
    /// A transmission of that many bytes from the transmit buffer is running.
    Transmitting(usize),
}

/// Interrupt lines that a UARTE instance can use.
#[derive(Clone, Copy, Debug, PartialEq, Eq, Structural)]
#[allow(non_camel_case_types)]
pub enum Interrupt {
    UARTE0_UART0,
    UARTE1,
}

/// GPIO port of a pin.
#[derive(Clone, Copy, Debug, PartialEq, Eq, Structural)]
pub enum Port {
    Port0,
    Port1,
}

/// The PORT bit of a pin selection register for a pin of `port`.
pub fn port_bit(port: Port) -> (r: bool)
    ensures
        r == (port == Port::Port1),
{
    match port {
        Port::Port0 => false,
        Port::Port1 => true,
    }
}

/// Marks the types that may implement [`Instance`].
pub trait Sealed {

}

/// A UARTE peripheral instance.
pub trait Instance: Sealed {
    /// The interrupt line of this instance.
    fn interrupt() -> Interrupt;
}

/// The pins and peripherals a UARTE is built from.
pub struct Pins<RX, TX, DMA, USART> {
    pub rxd: RX,
    pub txd: TX,
    pub dma: DMA,
    pub usart: USART,
}

/// What `start` asks of the interrupt controller for the instance's line.
#[derive(Clone, Copy, Debug, PartialEq, Eq, Structural)]
pub struct InterruptSetup {
    /// Priority level to give the line.
    pub priority: u8,
    /// Enable the line.
    pub enable: bool,
    /// Pend the line once, so that the handler runs.
    pub pend: bool,
}

/// Register reads the receive side of the interrupt handler acts on.
pub struct RxEvents {
    /// EVENTS_RXDRDY is set.
    pub rxdrdy: bool,
    /// EVENTS_ENDRX is set.
    pub endrx: bool,
    /// The bytes the finished reception wrote (RXD.AMOUNT of them).
    pub received: Vec<u8>,
}

/// Register writes and notifications the receive side asks for.
#[derive(Clone, Copy, Debug, PartialEq, Eq, Structural)]
pub struct RxActions {
    /// Clear EVENTS_RXDRDY.
    pub reset_rxdrdy: bool,
    /// Start a reception of that many bytes into the receive buffer's free
    /// region, with the RXDRDY interrupt enabled.
    pub start_rx: Option<usize>,
    /// Disable the RXDRDY interrupt.
    pub disable_rxdrdy_irq: bool,
    /// Clear EVENTS_ENDRX.
    pub reset_endrx: bool,
    /// Wake the task waiting to read.
    pub wake: bool,
    /// Run the receive side again.
    pub more_work: bool,
}

/// Register writes and notifications the transmit side asks for.
pub struct TxActions {
    /// Start a transmission of these bytes.
    pub start_tx: Option<Vec<u8>>,
    /// Clear EVENTS_ENDTX.
    pub reset_endtx: bool,
    /// Wake the task waiting to write.
    pub wake: bool,
    /// Run the transmit side again.
    pub more_work: bool,
}

/// Outcome of a read poll.
pub enum FillBuf {
    /// These bytes are available; consume them with `consume`.
    Ready(Vec<u8>),
    /// Nothing is available; the caller's waker is to be stored. When
    /// `stop_rx` is set the running reception is to be stopped (TASKS_STOPRX),
    /// so that the bytes it already got are handed over.
    Pending { stop_rx: bool },
}

/// Outcome of a write poll.
#[derive(Clone, Copy, Debug, PartialEq, Eq, Structural)]
pub enum WritePoll {
    /// That many bytes were queued; the interrupt is to be pended.
    Ready(usize),
    /// The transmit buffer is full; the caller's waker is to be stored.
    Pending,
}

/// The state shared between the driver and its interrupt handler.
pub struct UarteState<T> {
    inner: T,
    rx: RingBuf,
    rx_state: RxState,
    tx: RingBuf,
    tx_state: TxState,
    rx_delivered: Ghost<Seq<u8>>,
    rx_consumed: Ghost<Seq<u8>>,
    tx_accepted: Ghost<Seq<u8>>,
    tx_sent: Ghost<Seq<u8>>,
}

impl<T> UarteState<T> {
    /// Both buffers are well formed, a running transmission covers a
    /// non-empty prefix of the transmit buffer's filled region, and the
    /// buffers hold exactly the bytes received but not consumed, and queued
    /// but not sent.
    pub closed spec fn wf(&self) -> bool {
        &&& self.rx.wf()
        &&& self.tx.wf()
        &&& match self.tx_state {
            TxState::Idle => true,
            TxState::Transmitting(n) => 0 < n <= self.tx.pop_len(),
        }
        &&& self.rx_delivered@ == self.rx_consumed@ + self.rx@
        &&& self.tx_accepted@ == self.tx_sent@ + self.tx@
    }

    /// Every byte the peripheral has received, in order.
    pub closed spec fn rx_delivered(&self) -> Seq<u8> {
        self.rx_delivered@
    }

    /// Every byte the reader has consumed, in order.
    pub closed spec fn rx_consumed(&self) -> Seq<u8> {
        self.rx_consumed@
    }

    /// Every byte the writer has queued, in order.
    pub closed spec fn tx_accepted(&self) -> Seq<u8> {
        self.tx_accepted@
    }

    /// Every byte whose transmission has finished, in order.
    pub closed spec fn tx_sent(&self) -> Seq<u8> {
        self.tx_sent@
    }

    /// Bytes received and not yet consumed.
    pub closed spec fn rx_bytes(&self) -> Seq<u8> {
        self.rx@
    }

    /// Bytes queued for transmission and not yet sent.
    pub closed spec fn tx_bytes(&self) -> Seq<u8> {
        self.tx@
    }

    /// State of the receiver.
    pub closed spec fn spec_rx_state(&self) -> RxState {
        self.rx_state
    }

    /// State of the transmitter.
    pub closed spec fn spec_tx_state(&self) -> TxState {
        self.tx_state
    }

    /// The receive buffer.
    pub closed spec fn rx_ring(&self) -> RingBuf {
        self.rx
    }

    /// The transmit buffer.
    pub closed spec fn tx_ring(&self) -> RingBuf {
        self.tx
    }

    /// Length of the contiguous free region of the receive buffer.
    pub open spec fn rx_room(&self) -> nat {
        self.rx_ring().push_len()
    }

    /// Length of the contiguous filled region of the receive buffer.
    pub open spec fn rx_ready(&self) -> nat {
        self.rx_ring().pop_len()
    }

    /// Length of the contiguous free region of the transmit buffer.
    pub open spec fn tx_room(&self) -> nat {
        self.tx_ring().push_len()
    }

    /// Length of the contiguous filled region of the transmit buffer.
    pub open spec fn tx_ready(&self) -> nat {
        self.tx_ring().pop_len()
    }

    /// The buffers of a well-formed state are well formed, and hold the
    /// bytes received but not consumed and queued but not sent.
    pub proof fn lemma_rings(&self)
        requires
            self.wf(),
        ensures
            self.rx_ring().wf(),
            self.tx_ring().wf(),
            self.rx_ring()@ == self.rx_bytes(),
            self.tx_ring()@ == self.tx_bytes(),
    {
    }

    /// State of the receiver.
    pub fn rx_state(&self) -> (r: RxState)
        ensures
            r == self.spec_rx_state(),
    {
        self.rx_state
    }

    /// Length of the contiguous free region of the receive buffer, which a
    /// reception is given.
    pub fn rx_free(&self) -> (r: usize)
        requires
            self.wf(),
        ensures
            r == self.rx_room(),
    {
        let (_pos, n) = self.rx.push_buf();
        n
    }

    /// The peripheral instance.
    pub closed spec fn spec_inner(&self) -> T {
        self.inner
    }

    /// The state of a freshly set up peripheral: both buffers empty and
    /// both directions idle.
    pub fn new(inner: T) -> (r: Self)
        ensures
            r.wf(),
            r.rx_bytes() == Seq::<u8>::empty(),
            r.tx_bytes() == Seq::<u8>::empty(),
            r.spec_rx_state() == RxState::Idle,
            r.spec_tx_state() == TxState::Idle,
            r.spec_inner() == inner,
            r.rx_delivered() == Seq::<u8>::empty(),
            r.rx_consumed() == Seq::<u8>::empty(),
            r.tx_accepted() == Seq::<u8>::empty(),
            r.tx_sent() == Seq::<u8>::empty(),
            r.rx_ring().start_pos() == 0 && r.rx_ring().end_pos() == 0,
            r.tx_ring().start_pos() == 0 && r.tx_ring().end_pos() == 0,
    {
        let r = UarteState {
            inner,
            rx: RingBuf::new(),
            rx_state: RxState::Idle,
            tx: RingBuf::new(),
            tx_state: TxState::Idle,
            rx_delivered: Ghost(Seq::empty()),
            rx_consumed: Ghost(Seq::empty()),
            tx_accepted: Ghost(Seq::empty()),
            tx_sent: Ghost(Seq::empty()),
        };
        assert(r.rx_delivered@ =~= r.rx_consumed@ + r.rx@);
        assert(r.tx_accepted@ =~= r.tx_sent@ + r.tx@);
        r
    }

    /// What to ask of the interrupt controller when the driver starts.
    pub fn start(&mut self) -> (r: InterruptSetup)
        ensures
            r == (InterruptSetup { priority: 7, enable: true, pend: true }),
            *final(self) == *old(self),
    {
        InterruptSetup { priority: 7, enable: true, pend: true }
    }

    /// Read poll: hands out the contiguous received bytes, or, when there
    /// are none, asks to stop a reception that already got bytes.
    pub fn poll_fill_buf(&mut self) -> (r: FillBuf)
        requires
            old(self).wf(),
        ensures
            final(self).wf(),
            final(self).rx_bytes() == old(self).rx_bytes(),
            final(self).tx_bytes() == old(self).tx_bytes(),
            final(self).spec_tx_state() == old(self).spec_tx_state(),
            final(self).rx_ring() == old(self).rx_ring(),
            final(self).tx_ring() == old(self).tx_ring(),
            final(self).rx_delivered() == old(self).rx_delivered(),
            final(self).rx_consumed() == old(self).rx_consumed(),
            final(self).tx_accepted() == old(self).tx_accepted(),
            final(self).tx_sent() == old(self).tx_sent(),
            old(self).rx_bytes().len() > 0 ==> {
                &&& r matches FillBuf::Ready(bytes)
                &&& bytes@.len() > 0
                &&& bytes@.len() == old(self).rx_ready()
                &&& bytes@ == old(self).rx_bytes().take(old(self).rx_ready() as int)
                &&& final(self).spec_rx_state() == old(self).spec_rx_state()
            },
            old(self).rx_bytes().len() == 0 ==> {
                &&& r matches FillBuf::Pending { stop_rx }
                &&& stop_rx == (old(self).spec_rx_state() == RxState::ReceivingReady)
                &&& final(self).spec_rx_state() == if stop_rx {
                    RxState::Stopping
                } else {
                    old(self).spec_rx_state()
                }
            },
    {
        let buf = self.rx.filled();
        if buf.len() != 0 {
            return FillBuf::Ready(buf);
        }
        if self.rx_state == RxState::ReceivingReady {
            self.rx_state = RxState::Stopping;
            return FillBuf::Pending { stop_rx: true };
        }
        FillBuf::Pending { stop_rx: false }
    }

    /// Marks the first `amt` bytes handed out by `poll_fill_buf` as read.
    pub fn consume(&mut self, amt: usize)
        requires
            old(self).wf(),
            amt <= old(self).rx_ready(),
        ensures
            final(self).wf(),
            final(self).rx_bytes() == old(self).rx_bytes().skip(amt as int),
            final(self).rx_consumed() == old(self).rx_consumed() + old(self).rx_bytes().take(
                amt as int,
            ),
            final(self).rx_delivered() == old(self).rx_delivered(),
            final(self).rx_ring().start_pos() == (old(self).rx_ring().start_pos() + amt) % (
            RINGBUF_SIZE as int),
            final(self).rx_ring().end_pos() == old(self).rx_ring().end_pos(),
            final(self).tx_ring() == old(self).tx_ring(),
            final(self).tx_bytes() == old(self).tx_bytes(),
            final(self).tx_accepted() == old(self).tx_accepted(),
            final(self).tx_sent() == old(self).tx_sent(),
            final(self).spec_rx_state() == old(self).spec_rx_state(),
            final(self).spec_tx_state() == old(self).spec_tx_state(),
    {
        let ghost before = self.rx@;
        self.rx.pop(amt);
        self.rx_consumed = Ghost(self.rx_consumed@ + before.take(amt as int));
        assert(before.take(amt as int) + before.skip(amt as int) =~= before);
        assert(self.rx_delivered@ =~= self.rx_consumed@ + self.rx@);
    }

    /// Write poll: queues as many leading bytes of `buf` as fit in the
    /// contiguous free region of the transmit buffer.
    pub fn poll_write(&mut self, buf: &[u8]) -> (r: WritePoll)
        requires
            old(self).wf(),
        ensures
            final(self).wf(),
            final(self).rx_bytes() == old(self).rx_bytes(),
            final(self).spec_rx_state() == old(self).spec_rx_state(),
            final(self).spec_tx_state() == old(self).spec_tx_state(),
            old(self).tx_room() == 0 ==> r == WritePoll::Pending && final(self).tx_bytes()
                == old(self).tx_bytes(),
            old(self).tx_room() > 0 ==> {
                &&& r matches WritePoll::Ready(n)
                &&& n == vstd::math::min(old(self).tx_room() as int, buf@.len() as int)
                &&& final(self).tx_bytes() == old(self).tx_bytes() + buf@.take(n as int)
                &&& final(self).tx_accepted() == old(self).tx_accepted() + buf@.take(n as int)
                &&& final(self).tx_ring().start_pos() == old(self).tx_ring().start_pos()
                &&& final(self).tx_ring().end_pos() == (old(self).tx_ring().end_pos() + n) % (
                RINGBUF_SIZE as int)
            },
            old(self).tx_room() == 0 ==> final(self).tx_accepted() == old(self).tx_accepted()
                && final(self).tx_ring() == old(self).tx_ring(),
            final(self).rx_ring() == old(self).rx_ring(),
            final(self).tx_sent() == old(self).tx_sent(),
            final(self).rx_delivered() == old(self).rx_delivered(),
            final(self).rx_consumed() == old(self).rx_consumed(),
    {
        let (_pos, room) = self.tx.push_buf();
        if room == 0 {
            return WritePoll::Pending;
        }
        let n = self.tx.push_slice(buf);
        self.tx_accepted = Ghost(self.tx_accepted@ + buf@.take(n as int));
        assert(self.tx_accepted@ =~= self.tx_sent@ + self.tx@);
        WritePoll::Ready(n)
    }

    /// One pass of the receive side of the interrupt handler.
    pub fn rx_step(&mut self, ev: RxEvents) -> (a: RxActions)
        requires
            old(self).wf(),
            old(self).spec_rx_state() == RxState::Idle ==> !ev.endrx,
            ev.endrx ==> ev.received@.len() <= old(self).rx_room(),
        ensures
            final(self).wf(),
            final(self).tx_bytes() == old(self).tx_bytes(),
            final(self).spec_tx_state() == old(self).spec_tx_state(),
            final(self).tx_accepted() == old(self).tx_accepted(),
            final(self).tx_sent() == old(self).tx_sent(),
            final(self).rx_consumed() == old(self).rx_consumed(),
            final(self).rx_bytes() == old(self).rx_bytes() ==> final(self).rx_delivered() == old(self).rx_delivered(),
            final(self).tx_ring() == old(self).tx_ring(),
            final(self).rx_ring().start_pos() == old(self).rx_ring().start_pos(),
            final(self).rx_ring().end_pos() == (old(self).rx_ring().end_pos() + (final(self).rx_bytes().len() - old(self).rx_bytes().len())) % (RINGBUF_SIZE as int),
            !a.more_work && final(self).spec_rx_state() == RxState::Idle ==> final(self).rx_bytes().len() == RINGBUF_SIZE,
            a.more_work ==> rx_rank(final(self).spec_rx_state()) < rx_rank(
                old(self).spec_rx_state(),
            ),
            match old(self).spec_rx_state() {
                RxState::Idle => if old(self).rx_room() > 0 {
                    &&& a == RxActions {
                        reset_rxdrdy: true,
                        start_rx: Some(old(self).rx_room() as usize),
                        disable_rxdrdy_irq: false,
                        reset_endrx: false,
                        wake: false,
                        more_work: false,
                    }
                    &&& final(self).rx_bytes() == old(self).rx_bytes()
                    &&& final(self).spec_rx_state() == RxState::Receiving
                } else {
                    &&& a == RxActions {
                        reset_rxdrdy: ev.rxdrdy,
                        start_rx: None,
                        disable_rxdrdy_irq: false,
                        reset_endrx: false,
                        wake: false,
                        more_work: false,
                    }
                    &&& final(self).rx_bytes() == old(self).rx_bytes()
                    &&& final(self).spec_rx_state() == RxState::Idle
                },
                RxState::Receiving => if ev.rxdrdy {
                    &&& a == RxActions {
                        reset_rxdrdy: true,
                        start_rx: None,
                        disable_rxdrdy_irq: true,
                        reset_endrx: false,
                        wake: true,
                        more_work: true,
                    }
                    &&& final(self).rx_bytes() == old(self).rx_bytes()
                    &&& final(self).spec_rx_state() == RxState::ReceivingReady
                } else {
                    &&& a == RxActions {
                        reset_rxdrdy: false,
                        start_rx: None,
                        disable_rxdrdy_irq: false,
                        reset_endrx: false,
                        wake: false,
                        more_work: false,
                    }
                    &&& final(self).rx_bytes() == old(self).rx_bytes()
                    &&& final(self).spec_rx_state() == RxState::Receiving
                },
                RxState::ReceivingReady | RxState::Stopping => if ev.endrx {
                    &&& a == RxActions {
                        reset_rxdrdy: ev.rxdrdy,
                        start_rx: None,
                        disable_rxdrdy_irq: false,
                        reset_endrx: true,
                        wake: true,
                        more_work: true,
                    }
                    &&& final(self).rx_bytes() == old(self).rx_bytes() + ev.received@
                    &&& final(self).rx_delivered() == old(self).rx_delivered() + ev.received@
                    &&& final(self).spec_rx_state() == RxState::Idle
                } else {
                    &&& a == RxActions {
                        reset_rxdrdy: ev.rxdrdy,
                        start_rx: None,
                        disable_rxdrdy_irq: false,
                        reset_endrx: false,
                        wake: false,
                        more_work: false,
                    }
                    &&& final(self).rx_bytes() == old(self).rx_bytes()
                    &&& final(self).spec_rx_state() == old(self).spec_rx_state()
                },
            },
    {
        proof {
            self.rx.lemma_regions();
        }
        let mut a = RxActions {
            reset_rxdrdy: false,
            start_rx: None,
            disable_rxdrdy_irq: false,
            reset_endrx: false,
            wake: false,
            more_work: false,
        };
        match self.rx_state {
            RxState::Idle => {
                if ev.rxdrdy {
                    a.reset_rxdrdy = true;
                }
                let (_pos, n) = self.rx.push_buf();
                if n != 0 {
                    self.rx_state = RxState::Receiving;
                    a.start_rx = Some(n);
                    a.reset_rxdrdy = true;
                }
            },
            RxState::Receiving => {
                if ev.rxdrdy {
                    a.disable_rxdrdy_irq = true;
                    a.reset_rxdrdy = true;
                    a.wake = true;
                    self.rx_state = RxState::ReceivingReady;
                    a.more_work = true;
                }
            },
            RxState::ReceivingReady | RxState::Stopping => {
                if ev.rxdrdy {
                    a.reset_rxdrdy = true;
                }
                if ev.endrx {
                    let n = self.rx.push_slice(ev.received.as_slice());
                    assert(ev.received@.take(n as int) =~= ev.received@);
                    self.rx_delivered = Ghost(self.rx_delivered@ + ev.received@);
                    assert(self.rx_delivered@ =~= self.rx_consumed@ + self.rx@);
                    a.reset_endrx = true;
                    a.wake = true;
                    self.rx_state = RxState::Idle;
                    a.more_work = true;
                }
            },
        }
        a
    }

    /// One pass of the transmit side of the interrupt handler.
    pub fn tx_step(&mut self, endtx: bool) -> (a: TxActions)
        requires
            old(self).wf(),
        ensures
            final(self).wf(),
            final(self).rx_bytes() == old(self).rx_bytes(),
            final(self).spec_rx_state() == old(self).spec_rx_state(),
            final(self).rx_delivered() == old(self).rx_delivered(),
            final(self).rx_consumed() == old(self).rx_consumed(),
            final(self).tx_accepted() == old(self).tx_accepted(),
            final(self).tx_bytes() == old(self).tx_bytes() ==> final(self).tx_sent() == old(self).tx_sent(),
            final(self).rx_ring() == old(self).rx_ring(),
            final(self).tx_ring().end_pos() == old(self).tx_ring().end_pos(),
            final(self).tx_ring().start_pos() == (old(self).tx_ring().start_pos() + (old(self).tx_bytes().len() - final(self).tx_bytes().len())) % (RINGBUF_SIZE as int),
            final(self).tx_bytes() == old(self).tx_bytes() ==> final(self).tx_ring() == old(self).tx_ring(),
            !a.more_work && final(self).spec_tx_state() is Idle ==> final(self).tx_bytes().len()
                == 0,
            a.more_work ==> final(self).spec_tx_state() == TxState::Idle && !(old(self).spec_tx_state() is Idle),
            match old(self).spec_tx_state() {
                TxState::Idle => if old(self).tx_ready() > 0 {
                    &&& a.start_tx matches Some(bytes)
                    &&& bytes@ == old(self).tx_bytes().take(old(self).tx_ready() as int)
                    &&& !a.reset_endtx && !a.wake && !a.more_work
                    &&& final(self).tx_bytes() == old(self).tx_bytes()
                    &&& final(self).spec_tx_state() == TxState::Transmitting(
                        old(self).tx_ready() as usize,
                    )
                } else {
                    &&& a.start_tx is None
                    &&& !a.reset_endtx && !a.wake && !a.more_work
                    &&& final(self).tx_bytes() == old(self).tx_bytes()
                    &&& final(self).spec_tx_state() == TxState::Idle
                },
                TxState::Transmitting(n) => if endtx {
                    &&& a.start_tx is None
                    &&& a.reset_endtx && a.wake && a.more_work
                    &&& final(self).tx_bytes() == old(self).tx_bytes().skip(n as int)
                    &&& final(self).tx_sent() == old(self).tx_sent() + old(self).tx_bytes().take(
                        n as int,
                    )
                    &&& final(self).spec_tx_state() == TxState::Idle
                } else {
                    &&& a.start_tx is None
                    &&& !a.reset_endtx && !a.wake && !a.more_work
                    &&& final(self).tx_bytes() == old(self).tx_bytes()
                    &&& final(self).spec_tx_state() == TxState::Transmitting(n)
                },
            },
    {
        proof {
            self.tx.lemma_regions();
        }
        match self.tx_state {
            TxState::Idle => {
                let buf = self.tx.filled();
                if buf.len() != 0 {
                    self.tx_state = TxState::Transmitting(buf.len());
                    return TxActions { start_tx: Some(buf), reset_endtx: false, wake: false, more_work: false };
                }
                TxActions { start_tx: None, reset_endtx: false, wake: false, more_work: false }
            },
            TxState::Transmitting(n) => {
                if endtx {
                    let ghost before = self.tx@;
                    self.tx.pop(n);
                    self.tx_sent = Ghost(self.tx_sent@ + before.take(n as int));
                    assert(before.take(n as int) + before.skip(n as int) =~= before);
                    assert(self.tx_accepted@ =~= self.tx_sent@ + self.tx@);
                    self.tx_state = TxState::Idle;
                    return TxActions { start_tx: None, reset_endtx: true, wake: true, more_work: true };
                }
                TxActions { start_tx: None, reset_endtx: false, wake: false, more_work: false }
            },
        }
    }
}

/// No byte is lost, duplicated or reordered on either side: what the
/// peripheral received is what the reader consumed followed by what is still
/// buffered, and what the writer queued is what was transmitted followed by
/// what is still buffered.
pub proof fn lemma_bytes_conserved<T>(s: &UarteState<T>)
    requires
        s.wf(),
    ensures
        s.rx_delivered() == s.rx_consumed() + s.rx_bytes(),
        s.tx_accepted() == s.tx_sent() + s.tx_bytes(),
        s.rx_consumed().is_prefix_of(s.rx_delivered()),
        s.tx_sent().is_prefix_of(s.tx_accepted()),
{
    assert(s.rx_delivered().subrange(0, s.rx_consumed().len() as int) =~= s.rx_consumed());
    assert(s.tx_accepted().subrange(0, s.tx_sent().len() as int) =~= s.tx_sent());
}

/// Interface to a UARTE instance.
pub struct Uarte<T: Instance> {
    started: bool,
    state: Option<UarteState<T>>,
}

impl<T: Instance> Uarte<T> {
    /// The driver holds its state, and that state is well formed.
    pub open spec fn wf(&self) -> bool {
        self.holds_state() && self.spec_state().wf()
    }

    /// The driver holds its state (it gives it up only while an operation
    /// runs on it).
    pub closed spec fn holds_state(&self) -> bool {
        self.state is Some
    }

    /// Whether the interrupt side has been started.
    pub closed spec fn spec_started(&self) -> bool {
        self.started
    }

    /// The state shared with the interrupt handler.
    pub closed spec fn spec_state(&self) -> UarteState<T> {
        self.state->Some_0
    }

    /// A driver for `uarte` that has not started yet.
    pub fn new(uarte: T) -> (r: Self)
        ensures
            r.wf(),
            !r.spec_started(),
            r.spec_state().rx_bytes() == Seq::<u8>::empty(),
            r.spec_state().tx_bytes() == Seq::<u8>::empty(),
            r.spec_state().spec_rx_state() == RxState::Idle,
            r.spec_state().spec_tx_state() == TxState::Idle,
            r.spec_state().spec_inner() == uarte,
            r.spec_state().rx_ring().start_pos() == 0 && r.spec_state().rx_ring().end_pos() == 0,
            r.spec_state().tx_ring().start_pos() == 0 && r.spec_state().tx_ring().end_pos() == 0,
    {
        Uarte { started: false, state: Some(UarteState::new(uarte)) }
    }

    /// Runs `op` once on the state, starting the driver first if it has not
    /// started: on the first call the state is to be registered with the
    /// interrupt handler and the returned interrupt setup performed; on
    /// later calls nothing is returned for that. Gives back the setup and
    /// `op`'s result. `op` takes the state and hands it back, well formed,
    /// with its result.
    pub fn with_state<R, F: FnOnce(UarteState<T>) -> (UarteState<T>, R)>(&mut self, op: F) -> (r: (
        Option<InterruptSetup>,
        R,
    ))
        requires
            old(self).wf(),
            forall|s: UarteState<T>| s.wf() ==> #[trigger] op.requires((s,)),
            forall|s: UarteState<T>, out: (UarteState<T>, R)|
                s.wf() && #[trigger] op.ensures((s,), out) ==> out.0.wf(),
        ensures
            final(self).wf(),
            final(self).spec_started(),
            op.ensures((old(self).spec_state(),), (final(self).spec_state(), r.1)),
            old(self).spec_started() ==> r.0 is None,
            !old(self).spec_started() ==> r.0 == Some(
                InterruptSetup { priority: 7, enable: true, pend: true },
            ),
    {
        let mut st = self.state.take().unwrap();
        let mut setup = None;
        if !self.started {
            self.started = true;
            setup = Some(st.start());
        }
        let (st2, res) = op(st);
        self.state = Some(st2);
        (setup, res)
    }

    /// The shared state, for the interrupt handler of a started driver.
    pub fn state(&mut self) -> (r: &mut UarteState<T>)
        requires
            old(self).wf(),
        ensures
            *r == old(self).spec_state(),
            final(self).holds_state(),
            final(self).spec_state() == *final(r),
            final(self).spec_started() == old(self).spec_started(),
    {
        self.state.as_mut().unwrap()
    }
}

} // verus!
