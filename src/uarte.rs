//! Low-power DMA serial transceiver.
//!
//! The peripheral is powered on when a transfer starts and powered off by
//! the interrupt handler as soon as neither direction has a transfer in
//! flight. Operations are explicit state machines: the scheduler polls
//! them, and an operation that is abandoned is cancelled, which halts the
//! DMA engine before its buffer may be reused.
use vstd::prelude::*;

use crate::peripheral::Irq;
use crate::signal::Signal;

verus! {

/// The largest transfer, in bytes, that the DMA engine takes at once.
pub const EASY_DMA_SIZE: usize = 65535;

#[derive(Clone, Copy, PartialEq, Eq, Structural, Debug)]
pub enum Parity {
    Excluded,
    Included,
}

/// The closed set of transceiver instances.
#[derive(Clone, Copy, PartialEq, Eq, Structural, Debug)]
pub enum Instance {
    Uarte0,
    Uarte1,
}

/// Marks the identifiers that may name a transceiver; only `Instance` is one.
pub trait Sealed {

}

impl Sealed for Instance {

}

/// The pins that a transceiver is wired to, by pin number; clear-to-send and
/// ready-to-send are optional. `txd_high` is the output level of the
/// transmit pin.
#[derive(Clone, Copy, PartialEq, Eq, Structural, Debug)]
pub struct Pins {
    pub rxd: u32,
    pub txd: u32,
    pub cts: Option<u32>,
    pub rts: Option<u32>,
    pub txd_high: bool,
}

/// A buffer handed to the DMA engine: its address in the device's memory
/// and its length in bytes.
#[derive(Clone, Copy, PartialEq, Eq, Structural, Debug)]
pub struct DmaBuffer {
    pub addr: u32,
    pub len: usize,
}

/// The register block of one transceiver. The peripheral writes it too:
/// it raises the event flags, and reports in `rxd_amount` how many bytes
/// the last reception moved. A pin select of `None` is disconnected; a task
/// flag records that the task was triggered.
#[derive(Clone, Copy, PartialEq, Eq, Structural, Debug)]
pub struct Registers {
    pub enable: bool,
    pub psel_rxd: Option<u32>,
    pub psel_txd: Option<u32>,
    pub psel_cts: Option<u32>,
    pub psel_rts: Option<u32>,
    pub baudrate: u32,
    pub parity: Parity,
    pub inten_endtx: bool,
    pub inten_txstopped: bool,
    pub inten_endrx: bool,
    pub inten_rxto: bool,
    pub events_endtx: bool,
    pub events_txstarted: bool,
    pub events_txstopped: bool,
    pub events_endrx: bool,
    pub events_rxstarted: bool,
    pub events_rxto: bool,
    pub txd_ptr: u32,
    pub txd_maxcnt: u32,
    pub rxd_ptr: u32,
    pub rxd_maxcnt: u32,
    pub rxd_amount: u32,
    pub tasks_starttx: bool,
    pub tasks_stoptx: bool,
    pub tasks_startrx: bool,
    pub tasks_stoprx: bool,
}

impl Registers {
    /// The register block as it comes out of reset: powered off, nothing
    /// connected, no event, no task.
    pub fn new() -> (r: Registers)
        ensures
            r == Self::reset_value(),
    {
        Registers {
            enable: false,
            psel_rxd: None,
            psel_txd: None,
            psel_cts: None,
            psel_rts: None,
            baudrate: 0,
            parity: Parity::Excluded,
            inten_endtx: false,
            inten_txstopped: false,
            inten_endrx: false,
            inten_rxto: false,
            events_endtx: false,
            events_txstarted: false,
            events_txstopped: false,
            events_endrx: false,
            events_rxstarted: false,
            events_rxto: false,
            txd_ptr: 0,
            txd_maxcnt: 0,
            rxd_ptr: 0,
            rxd_maxcnt: 0,
            rxd_amount: 0,
            tasks_starttx: false,
            tasks_stoptx: false,
            tasks_startrx: false,
            tasks_stoprx: false,
        }
    }

    pub open spec fn reset_value() -> Registers {
        Registers {
            enable: false,
            psel_rxd: None,
            psel_txd: None,
            psel_cts: None,
            psel_rts: None,
            baudrate: 0,
            parity: Parity::Excluded,
            inten_endtx: false,
            inten_txstopped: false,
            inten_endrx: false,
            inten_rxto: false,
            events_endtx: false,
            events_txstarted: false,
            events_txstopped: false,
            events_endrx: false,
            events_rxstarted: false,
            events_rxto: false,
            txd_ptr: 0,
            txd_maxcnt: 0,
            rxd_ptr: 0,
            rxd_maxcnt: 0,
            rxd_amount: 0,
            tasks_starttx: false,
            tasks_stoptx: false,
            tasks_startrx: false,
            tasks_stoprx: false,
        }
    }

    /// Whether the events asserted now make the handler consider powering
    /// the peripheral off: a transfer that ran to the end of its buffer, or
    /// the confirmation of a stop.
    pub open spec fn try_disable(self) -> bool {
        ||| (self.events_endtx && self.events_txstarted)
        ||| self.events_txstopped
        ||| (self.events_endrx && self.events_rxstarted)
        ||| self.events_rxto
    }

    /// The registers after one run of the interrupt handler: the four
    /// events are cleared, a direction whose transfer ended is no longer
    /// started, and the peripheral is powered off when power-down was
    /// considered and neither direction is still started.
    pub open spec fn after_irq(self) -> Registers {
        let txs = self.events_txstarted && !self.events_endtx;
        let rxs = self.events_rxstarted && !self.events_endrx;
        Registers {
            events_endtx: false,
            events_txstopped: false,
            events_endrx: false,
            events_rxto: false,
            events_txstarted: txs,
            events_rxstarted: rxs,
            enable: self.enable && !(self.try_disable() && !txs && !rxs),
            ..self
        }
    }

    /// The registers after a transmission of `buf` was started: powered on,
    /// the buffer programmed, the start task triggered and acknowledged.
    pub open spec fn after_start_tx(self, buf: DmaBuffer) -> Registers {
        Registers {
            enable: true,
            txd_ptr: buf.addr,
            txd_maxcnt: buf.len as u32,
            tasks_starttx: true,
            events_txstarted: true,
            ..self
        }
    }

    /// As `after_start_tx`, for a reception.
    pub open spec fn after_start_rx(self, buf: DmaBuffer) -> Registers {
        Registers {
            enable: true,
            rxd_ptr: buf.addr,
            rxd_maxcnt: buf.len as u32,
            tasks_startrx: true,
            events_rxstarted: true,
            ..self
        }
    }

    /// The registers after a transmission in flight was told to stop.
    pub open spec fn after_stop_tx(self) -> Registers {
        Registers { events_txstarted: false, tasks_stoptx: true, ..self }
    }

    /// The registers after a reception in flight was told to stop.
    pub open spec fn after_stop_rx(self) -> Registers {
        Registers { events_rxstarted: false, tasks_stoprx: true, ..self }
    }
}

/// What a transceiver shares with its interrupt handler: the completion of
/// a transmission, and the byte count of a completed reception.
#[derive(Clone, Copy, PartialEq, Eq, Debug)]
pub struct State {
    pub tx_done: Signal<()>,
    pub rx_done: Signal<u32>,
}

impl State {
    pub fn new() -> (r: State)
        ensures
            r.tx_done.value is None,
            r.rx_done.value is None,
    {
        State { tx_done: Signal::new(), rx_done: Signal::new() }
    }

    /// The channels after one run of the interrupt handler on `regs`:
    /// the end of a transmission is signalled, and the end of a reception
    /// with the byte count the peripheral reported.
    pub open spec fn after_irq(self, regs: Registers) -> State {
        State {
            tx_done: if regs.events_endtx {
                Signal { value: Some(()) }
            } else {
                self.tx_done
            },
            rx_done: if regs.events_endrx {
                Signal { value: Some(regs.rxd_amount) }
            } else {
                self.rx_done
            },
        }
    }
}

/// A transceiver: one instance, its register block, its interrupt line, its
/// pins, and the state it shares with its interrupt handler.
pub struct Uarte {
    pub instance: Instance,
    pub regs: Registers,
    pub irq: Irq,
    pub pins: Pins,
    pub state: State,
}

impl Uarte {
    /// The register block as construction leaves it.
    pub open spec fn configured(
        uarte: Registers,
        pins: Pins,
        parity: Parity,
        baudrate: u32,
    ) -> Registers {
        Registers {
            psel_rxd: Some(pins.rxd),
            psel_txd: Some(pins.txd),
            psel_cts: pins.cts,
            psel_rts: pins.rts,
            baudrate,
            parity,
            events_endtx: false,
            events_endrx: false,
            inten_endtx: true,
            inten_txstopped: true,
            inten_endrx: true,
            inten_rxto: true,
            ..uarte
        }
    }

    /// Wires the pins, sets baud rate and parity, clears stale completion
    /// events, arms the four interrupt sources and binds the handler. The
    /// peripheral must be powered off, and stays so until a transfer starts.
    pub fn new(
        instance: Instance,
        uarte: Registers,
        irq: Irq,
        pins: Pins,
        parity: Parity,
        baudrate: u32,
    ) -> (r: Uarte)
        requires
            !uarte.enable,
        ensures
            r.instance == instance,
            r.regs == Self::configured(uarte, pins, parity, baudrate),
            !r.regs.enable,
            r.irq == (Irq { enabled: true, handler_installed: true, pending: false, ..irq }),
            r.pins == (Pins { txd_high: true, ..pins }),
            r.state.tx_done.value is None,
            r.state.rx_done.value is None,
    {
        let mut regs = uarte;
        let mut pins = pins;
        regs.psel_rxd = Some(pins.rxd);
        pins.txd_high = true;
        regs.psel_txd = Some(pins.txd);
        regs.psel_cts = match pins.cts {
            Some(pin) => Some(pin),
            None => None,
        };
        regs.psel_rts = match pins.rts {
            Some(pin) => Some(pin),
            None => None,
        };
        regs.baudrate = baudrate;
        regs.parity = parity;
        regs.events_endtx = false;
        regs.events_endrx = false;
        regs.inten_endtx = true;
        regs.inten_txstopped = true;
        regs.inten_endrx = true;
        regs.inten_rxto = true;
        let mut irq = irq;
        irq.set_handler();
        irq.unpend();
        irq.enable();
        Uarte { instance, regs, irq, pins, state: State::new() }
    }

    /// Hands the instance, the register block, the line and the pins back
    /// once the interrupt handler has powered the peripheral off; while it
    /// is still powered on, gives the transceiver back to wait on.
    pub fn free(self) -> (r: Result<(Instance, Registers, Irq, Pins), Uarte>)
        ensures
            !self.regs.enable ==> r == Ok::<_, Uarte>((self.instance, self.regs, self.irq, self.pins)),
            self.regs.enable ==> (r matches Err(u) && u == self),
    {
        if self.regs.enable {
            Err(self)
        } else {
            Ok((self.instance, self.regs, self.irq, self.pins))
        }
    }

    fn enable(&mut self)
        ensures
            *final(self) == (Uarte { regs: Registers { enable: true, ..old(self).regs }, ..*old(self) }),
    {
        self.regs.enable = true;
    }

    pub fn tx_started(&self) -> (r: bool)
        ensures
            r == self.regs.events_txstarted,
    {
        self.regs.events_txstarted
    }

    pub fn rx_started(&self) -> (r: bool)
        ensures
            r == self.regs.events_rxstarted,
    {
        self.regs.events_rxstarted
    }

    /// The interrupt handler. Each asserted event is cleared and handled;
    /// whether to power off is decided once, after all of them.
    pub fn on_irq(&mut self)
        ensures
            final(self).regs == old(self).regs.after_irq(),
            final(self).state == old(self).state.after_irq(old(self).regs),
            final(self).instance == old(self).instance,
            final(self).irq == old(self).irq,
            final(self).pins == old(self).pins,
    {
        let mut try_disable = false;

        if self.regs.events_endtx {
            self.regs.events_endtx = false;
            if self.regs.events_txstarted {
                // The buffer was sent to its end.
                self.regs.events_txstarted = false;
                try_disable = true;
            }
            self.state.tx_done.signal(());
        }
        if self.regs.events_txstopped {
            self.regs.events_txstopped = false;
            try_disable = true;
        }
        if self.regs.events_endrx {
            self.regs.events_endrx = false;
            // The count is valid only now, before the started flag goes.
            let len = self.regs.rxd_amount;
            if self.regs.events_rxstarted {
                // The buffer was filled to its end.
                self.regs.events_rxstarted = false;
                try_disable = true;
            }
            self.state.rx_done.signal(len);
        }
        if self.regs.events_rxto {
            self.regs.events_rxto = false;
            try_disable = true;
        }
        if try_disable && !self.regs.events_txstarted && !self.regs.events_rxstarted {
            self.regs.enable = false;
        }
    }

    /// A transmission may be prepared only while none is started: starting a
    /// second one is a programming error, refused before any register or
    /// channel is touched.
    pub open spec fn send_allowed(self) -> bool {
        !self.regs.events_txstarted
    }

    /// As `send_allowed`, for receptions.
    pub open spec fn receive_allowed(self) -> bool {
        !self.regs.events_rxstarted
    }

    /// Prepares a transmission of `tx_buffer`. No other transmission may be
    /// in flight; a stale completion is dropped.
    pub fn send(&mut self, tx_buffer: DmaBuffer) -> (r: SendFuture)
        requires
            old(self).send_allowed(),
        ensures
            *final(self) == (Uarte {
                state: State { tx_done: Signal { value: None }, ..old(self).state },
                ..*old(self)
            }),
            r.buf() == tx_buffer,
            r.phase() == Phase::NotStarted,
    {
        self.state.tx_done.reset();
        SendFuture { buf: tx_buffer, phase: Phase::NotStarted }
    }

    /// Prepares a reception into `rx_buffer`. No other reception may be in
    /// flight; a stale completion is dropped.
    pub fn receive(&mut self, rx_buffer: DmaBuffer) -> (r: ReceiveFuture)
        requires
            old(self).receive_allowed(),
        ensures
            *final(self) == (Uarte {
                state: State { rx_done: Signal { value: None }, ..old(self).state },
                ..*old(self)
            }),
            r.buf() == rx_buffer,
            r.phase() == Phase::NotStarted,
    {
        self.state.rx_done.reset();
        ReceiveFuture { buf: rx_buffer, phase: Phase::NotStarted }
    }
}

/// The outcome of one poll step.
#[derive(Clone, Copy, PartialEq, Eq, Structural, Debug)]
pub enum Poll<T> {
    Ready(T),
    Pending,
}

/// Where an operation stands. `Stopping`: a stop was issued, and the buffer
/// stays lent to the DMA engine until the handler reports the halt.
#[derive(Clone, Copy, PartialEq, Eq, Structural, Debug)]
pub enum Phase {
    NotStarted,
    Started,
    Stopping,
    Complete,
}

/// A transmission of one buffer.
pub struct SendFuture {
    buf: DmaBuffer,
    phase: Phase,
}

impl SendFuture {
    /// A poll step that would start the transfer needs a buffer that fits
    /// the DMA engine; a longer one is a programming error, refused before
    /// any register is written.
    pub open spec fn poll_allowed(self, u: Uarte) -> bool {
        u.state.tx_done.value is None && !u.regs.events_txstarted ==> self.buf().len
            <= EASY_DMA_SIZE
    }

    pub closed spec fn buf(self) -> DmaBuffer {
        self.buf
    }

    /// The buffer lent to the DMA engine.
    pub fn buffer(&self) -> (r: DmaBuffer)
        ensures
            r == self.buf(),
    {
        self.buf
    }

    pub closed spec fn phase(self) -> Phase {
        self.phase
    }

    /// One poll step, from `self` and `u` to `f`, `u2` and the outcome `r`:
    /// a pending completion is consumed; otherwise, when no transmission is
    /// in flight, the buffer is programmed and started; otherwise nothing
    /// changes.
    pub open spec fn poll_post(
        self,
        u: Uarte,
        f: SendFuture,
        u2: Uarte,
        r: Poll<()>,
    ) -> bool {
        match u.state.tx_done.value {
            Some(_) => {
                &&& r == Poll::Ready(())
                &&& u2 == (Uarte {
                    state: State { tx_done: Signal { value: None }, ..u.state },
                    ..u
                })
                &&& f.buf() == self.buf()
                &&& f.phase() == Phase::Complete
            },
            None => {
                &&& r == Poll::<()>::Pending
                &&& if !u.regs.events_txstarted {
                    &&& u2 == (Uarte { regs: u.regs.after_start_tx(self.buf()), ..u })
                    &&& f.buf() == self.buf()
                    &&& f.phase() == Phase::Started
                } else {
                    u2 == u && f == self
                }
            },
        }
    }

    /// Cancellation, from `self` and `u` to `f` and `u2`: a transmission in
    /// flight is told to stop, and `r` says that the caller has to wait for
    /// the halt; otherwise nothing changes.
    pub open spec fn drop_post(self, u: Uarte, f: SendFuture, u2: Uarte, r: bool) -> bool {
        if u.regs.events_txstarted {
            &&& r
            &&& u2 == (Uarte { regs: u.regs.after_stop_tx(), ..u })
            &&& f.buf() == self.buf()
            &&& f.phase() == Phase::Stopping
        } else {
            !r && u2 == u && f == self
        }
    }

    /// Whether the buffer may be reused: no stop is waiting to be confirmed.
    pub open spec fn released_spec(self, state: State) -> bool {
        self.phase() != Phase::Stopping || state.tx_done.value is Some
    }

    /// One poll step of the scheduler. On the step that starts the
    /// transmission the peripheral is powered on, the buffer's address and
    /// length are programmed, and the start task is triggered; the
    /// peripheral acknowledges it by raising TXSTARTED, a bounded wait that
    /// is over when the step returns.
    pub fn poll(&mut self, uarte: &mut Uarte) -> (r: Poll<()>)
        requires
            old(self).poll_allowed(*old(uarte)),
        ensures
            old(self).poll_post(*old(uarte), *final(self), *final(uarte), r),
    {
        match uarte.state.tx_done.poll_wait() {
            Some(_) => {
                self.phase = Phase::Complete;
                Poll::Ready(())
            },
            None => {
                if !uarte.tx_started() {
                    let len = self.buf.len;
                    uarte.enable();
                    uarte.regs.txd_ptr = self.buf.addr;
                    uarte.regs.txd_maxcnt = len as u32;
                    uarte.regs.tasks_starttx = true;
                    uarte.regs.events_txstarted = true;
                    self.phase = Phase::Started;
                }
                Poll::Pending
            },
        }
    }

    /// Cleanup of an abandoned transmission: when one is in flight, its
    /// started flag is cleared and the stop task triggered, and the result
    /// says that the buffer stays lent until `released` holds.
    pub fn drop(&mut self, uarte: &mut Uarte) -> (r: bool)
        ensures
            old(self).drop_post(*old(uarte), *final(self), *final(uarte), r),
    {
        if uarte.tx_started() {
            uarte.regs.events_txstarted = false;
            uarte.regs.tasks_stoptx = true;
            self.phase = Phase::Stopping;
            true
        } else {
            false
        }
    }

    /// Whether the DMA engine is done with the buffer.
    pub fn released(&self, uarte: &Uarte) -> (r: bool)
        ensures
            r == self.released_spec(uarte.state),
    {
        match self.phase {
            Phase::Stopping => uarte.state.tx_done.signaled(),
            _ => true,
        }
    }
}

/// A reception into one buffer.
pub struct ReceiveFuture {
    buf: DmaBuffer,
    phase: Phase,
}

impl ReceiveFuture {
    /// A poll step that would start the transfer needs a buffer that fits
    /// the DMA engine; a longer one is a programming error, refused before
    /// any register is written.
    pub open spec fn poll_allowed(self, u: Uarte) -> bool {
        u.state.rx_done.value is None && !u.regs.events_rxstarted ==> self.buf().len
            <= EASY_DMA_SIZE
    }

    pub closed spec fn buf(self) -> DmaBuffer {
        self.buf
    }

    /// The buffer lent to the DMA engine.
    pub fn buffer(&self) -> (r: DmaBuffer)
        ensures
            r == self.buf(),
    {
        self.buf
    }

    pub closed spec fn phase(self) -> Phase {
        self.phase
    }

    /// One poll step, from `self` and `u` to `f`, `u2` and the outcome `r`:
    /// a pending completion is consumed and its byte count returned;
    /// otherwise, when no reception is in flight, the buffer is programmed
    /// and started; otherwise nothing changes.
    pub open spec fn poll_post(
        self,
        u: Uarte,
        f: ReceiveFuture,
        u2: Uarte,
        r: Poll<usize>,
    ) -> bool {
        match u.state.rx_done.value {
            Some(n) => {
                &&& r == Poll::Ready(n as usize)
                &&& u2 == (Uarte {
                    state: State { rx_done: Signal { value: None }, ..u.state },
                    ..u
                })
                &&& f.buf() == self.buf()
                &&& f.phase() == Phase::Complete
            },
            None => {
                &&& r == Poll::<usize>::Pending
                &&& if !u.regs.events_rxstarted {
                    &&& u2 == (Uarte { regs: u.regs.after_start_rx(self.buf()), ..u })
                    &&& f.buf() == self.buf()
                    &&& f.phase() == Phase::Started
                } else {
                    u2 == u && f == self
                }
            },
        }
    }

    /// Cancellation, from `self` and `u` to `f` and `u2`: a reception in
    /// flight is told to stop, and `r` says that the caller has to wait for
    /// the halt; otherwise nothing changes.
    pub open spec fn drop_post(self, u: Uarte, f: ReceiveFuture, u2: Uarte, r: bool) -> bool {
        if u.regs.events_rxstarted {
            &&& r
            &&& u2 == (Uarte { regs: u.regs.after_stop_rx(), ..u })
            &&& f.buf() == self.buf()
            &&& f.phase() == Phase::Stopping
        } else {
            !r && u2 == u && f == self
        }
    }

    /// An explicit stop, from `self` and `u` to `f` and `u2`: a reception in
    /// flight is told to stop and the count comes later; one that never
    /// started has moved no byte.
    pub open spec fn stop_post(
        self,
        u: Uarte,
        f: ReceiveFuture,
        u2: Uarte,
        r: Poll<usize>,
    ) -> bool {
        if u.regs.events_rxstarted {
            &&& r == Poll::<usize>::Pending
            &&& u2 == (Uarte { regs: u.regs.after_stop_rx(), ..u })
            &&& f.buf() == self.buf()
            &&& f.phase() == Phase::Stopping
        } else {
            &&& r == Poll::Ready(0usize)
            &&& u2 == u
            &&& f.buf() == self.buf()
            &&& f.phase() == Phase::Complete
        }
    }

    /// Waiting on a stop, from `self` and `u` to `f` and `u2`: the byte
    /// count the handler reported is consumed and returned, once it is there.
    pub open spec fn poll_stop_post(
        self,
        u: Uarte,
        f: ReceiveFuture,
        u2: Uarte,
        r: Poll<usize>,
    ) -> bool {
        match u.state.rx_done.value {
            Some(n) => {
                &&& r == Poll::Ready(n as usize)
                &&& u2 == (Uarte {
                    state: State { rx_done: Signal { value: None }, ..u.state },
                    ..u
                })
                &&& f.buf() == self.buf()
                &&& f.phase() == Phase::Complete
            },
            None => r == Poll::<usize>::Pending && u2 == u && f == self,
        }
    }

    /// Whether the buffer may be reused: no stop is waiting to be confirmed.
    pub open spec fn released_spec(self, state: State) -> bool {
        self.phase() != Phase::Stopping || state.rx_done.value is Some
    }

    /// One poll step of the scheduler; `Ready` carries the number of bytes
    /// received. On the step that starts the reception the peripheral is
    /// powered on, the buffer programmed and the start task triggered; the
    /// peripheral acknowledges it by raising RXSTARTED before the step
    /// returns.
    pub fn poll(&mut self, uarte: &mut Uarte) -> (r: Poll<usize>)
        requires
            old(self).poll_allowed(*old(uarte)),
        ensures
            old(self).poll_post(*old(uarte), *final(self), *final(uarte), r),
    {
        match uarte.state.rx_done.poll_wait() {
            Some(n) => {
                self.phase = Phase::Complete;
                Poll::Ready(n as usize)
            },
            None => {
                if !uarte.rx_started() {
                    let len = self.buf.len;
                    uarte.enable();
                    uarte.regs.rxd_ptr = self.buf.addr;
                    uarte.regs.rxd_maxcnt = len as u32;
                    uarte.regs.tasks_startrx = true;
                    uarte.regs.events_rxstarted = true;
                    self.phase = Phase::Started;
                }
                Poll::Pending
            },
        }
    }

    /// Cleanup of an abandoned reception: when one is in flight, its
    /// started flag is cleared and the stop task triggered, and the result
    /// says that the buffer stays lent until `released` holds.
    pub fn drop(&mut self, uarte: &mut Uarte) -> (r: bool)
        ensures
            old(self).drop_post(*old(uarte), *final(self), *final(uarte), r),
    {
        if uarte.rx_started() {
            uarte.regs.events_rxstarted = false;
            uarte.regs.tasks_stoprx = true;
            self.phase = Phase::Stopping;
            true
        } else {
            false
        }
    }

    /// Stops the reception. `Ready(0)` when it never started; otherwise the
    /// stop task is triggered and `poll_stop` gives the byte count.
    pub fn stop(&mut self, uarte: &mut Uarte) -> (r: Poll<usize>)
        ensures
            old(self).stop_post(*old(uarte), *final(self), *final(uarte), r),
    {
        if uarte.rx_started() {
            uarte.regs.events_rxstarted = false;
            uarte.regs.tasks_stoprx = true;
            self.phase = Phase::Stopping;
            Poll::Pending
        } else {
            // Stopped before it started: no byte was received.
            self.phase = Phase::Complete;
            Poll::Ready(0)
        }
    }

    /// Waits on a stop: the number of bytes received before it, once the
    /// handler has reported it.
    pub fn poll_stop(&mut self, uarte: &mut Uarte) -> (r: Poll<usize>)
        ensures
            old(self).poll_stop_post(*old(uarte), *final(self), *final(uarte), r),
    {
        match uarte.state.rx_done.poll_wait() {
            Some(n) => {
                self.phase = Phase::Complete;
                Poll::Ready(n as usize)
            },
            None => Poll::Pending,
        }
    }

    /// Whether the DMA engine is done with the buffer.
    pub fn released(&self, uarte: &Uarte) -> (r: bool)
        ensures
            r == self.released_spec(uarte.state),
    {
        match self.phase {
            Phase::Stopping => uarte.state.rx_done.signaled(),
            _ => true,
        }
    }
}

} // verus!
