//! Laws of the transceiver that relate several of its steps.
use vstd::prelude::*;

use crate::uarte::{
    DmaBuffer,
    EASY_DMA_SIZE,
    Poll,
    ReceiveFuture,
    Registers,
    SendFuture,
    State,
    Uarte,
};

verus! {

/// The poll step that starts a transfer leaves the direction's started flag
/// raised, so that a second operation of that direction is refused until
/// the first completes or is cancelled.
pub proof fn lemma_one_transfer_per_direction(
    s: SendFuture,
    u: Uarte,
    s2: SendFuture,
    u2: Uarte,
    rs: Poll<()>,
    v: ReceiveFuture,
    w: Uarte,
    v2: ReceiveFuture,
    w2: Uarte,
    rv: Poll<usize>,
)
    requires
        s.poll_post(u, s2, u2, rs),
        u.state.tx_done.value is None,
        v.poll_post(w, v2, w2, rv),
        w.state.rx_done.value is None,
    ensures
        u2.regs.events_txstarted,
        !u2.send_allowed(),
        w2.regs.events_rxstarted,
        !w2.receive_allowed(),
{
}

/// A buffer longer than the DMA engine takes is refused by the poll step
/// that would start it, and only by that one.
pub proof fn lemma_oversized_buffer_refused(s: SendFuture, v: ReceiveFuture, u: Uarte)
    requires
        s.buf().len > EASY_DMA_SIZE,
        v.buf().len > EASY_DMA_SIZE,
    ensures
        s.poll_allowed(u) <==> (u.state.tx_done.value is Some || u.regs.events_txstarted),
        v.poll_allowed(u) <==> (u.state.rx_done.value is Some || u.regs.events_rxstarted),
{
}

/// A transfer whose buffer fits the DMA engine programs exactly that
/// buffer's address and length.
pub proof fn lemma_programmed_length(r: Registers, buf: DmaBuffer)
    requires
        buf.len <= EASY_DMA_SIZE,
    ensures
        r.after_start_tx(buf).txd_ptr == buf.addr,
        r.after_start_tx(buf).txd_maxcnt as int == buf.len,
        r.after_start_rx(buf).rxd_ptr == buf.addr,
        r.after_start_rx(buf).rxd_maxcnt as int == buf.len,
{
}

/// Power gating: starting a transfer powers the peripheral on; the handler
/// never powers it on; it powers it off once power-down is considered and
/// neither direction is still started, and never while one is.
pub proof fn lemma_power_gating(r: Registers, buf: DmaBuffer)
    ensures
        r.after_start_tx(buf).enable,
        r.after_start_rx(buf).enable,
        r.after_irq().enable ==> r.enable,
        r.try_disable() && !r.after_irq().events_txstarted && !r.after_irq().events_rxstarted
            ==> !r.after_irq().enable,
        r.after_irq().events_txstarted || r.after_irq().events_rxstarted ==> r.after_irq().enable
            == r.enable,
{
}

/// One handler run that sees both a transmit stop and a reception that
/// filled its buffer powers the peripheral off exactly when no transmission
/// remains started after both are handled.
pub proof fn lemma_event_aggregation(r: Registers)
    requires
        r.events_txstopped,
        r.events_endrx,
        r.events_rxstarted,
    ensures
        !r.after_irq().events_rxstarted,
        r.after_irq().events_txstarted == (r.events_txstarted && !r.events_endtx),
        r.after_irq().enable == (r.enable && r.after_irq().events_txstarted),
{
}

/// Cancelling a reception in flight triggers the stop task and clears the
/// started flag, and the buffer stays lent to the DMA engine until the
/// handler has reported a byte count, whatever else happens meanwhile.
pub proof fn lemma_cancel_receive(
    f: ReceiveFuture,
    u: Uarte,
    f2: ReceiveFuture,
    u2: Uarte,
    waiting: bool,
    later: State,
)
    requires
        u.regs.events_rxstarted,
        f.drop_post(u, f2, u2, waiting),
    ensures
        waiting,
        u2.regs.tasks_stoprx,
        !u2.regs.events_rxstarted,
        f2.released_spec(later) <==> later.rx_done.value is Some,
{
}

/// Cancelling a transmission in flight triggers the stop task, and the
/// buffer stays lent until the handler has reported the end.
pub proof fn lemma_cancel_send(
    f: SendFuture,
    u: Uarte,
    f2: SendFuture,
    u2: Uarte,
    waiting: bool,
    later: State,
)
    requires
        u.regs.events_txstarted,
        f.drop_post(u, f2, u2, waiting),
    ensures
        waiting,
        u2.regs.tasks_stoptx,
        !u2.regs.events_txstarted,
        f2.released_spec(later) <==> later.tx_done.value is Some,
{
}

/// Stopping a reception in flight gives exactly the byte count that the
/// peripheral reports with the end of reception that follows the stop;
/// stopping one that never started gives 0.
pub proof fn lemma_stop_byte_count(
    f0: ReceiveFuture,
    u0: Uarte,
    f1: ReceiveFuture,
    u1: Uarte,
    r1: Poll<usize>,
    u2: Uarte,
    u3: Uarte,
    f4: ReceiveFuture,
    u4: Uarte,
    r4: Poll<usize>,
)
    requires
        f0.stop_post(u0, f1, u1, r1),
        u2.state == u1.state,
        u2.regs.events_endrx,
        u3.regs == u2.regs.after_irq(),
        u3.state == u2.state.after_irq(u2.regs),
        f1.poll_stop_post(u3, f4, u4, r4),
    ensures
        u0.regs.events_rxstarted ==> r1 == Poll::<usize>::Pending && r4 == Poll::Ready(
            u2.regs.rxd_amount as usize,
        ),
        !u0.regs.events_rxstarted ==> r1 == Poll::Ready(0usize),
{
}

} // verus!
