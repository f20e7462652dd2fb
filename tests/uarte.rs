use uarte_core::peripheral::Irq;
use uarte_core::uarte::{
    DmaBuffer, Instance, Parity, Pins, Poll, Registers, Uarte, EASY_DMA_SIZE,
};

const BAUD_115200: u32 = 0x01D7E000;

fn pins() -> Pins {
    Pins { rxd: 8, txd: 6, cts: None, rts: Some(5), txd_high: false }
}

fn uarte() -> Uarte {
    Uarte::new(Instance::Uarte0, Registers::new(), Irq::new(2), pins(), Parity::Excluded, BAUD_115200)
}

fn buf(addr: u32, len: usize) -> DmaBuffer {
    DmaBuffer { addr, len }
}

#[test]
fn construction_configures_and_leaves_powered_off() {
    let u = uarte();
    assert!(!u.regs.enable);
    assert_eq!(u.regs.psel_rxd, Some(8));
    assert_eq!(u.regs.psel_txd, Some(6));
    assert_eq!(u.regs.psel_cts, None);
    assert_eq!(u.regs.psel_rts, Some(5));
    assert_eq!(u.regs.baudrate, BAUD_115200);
    assert_eq!(u.regs.parity, Parity::Excluded);
    assert!(u.regs.inten_endtx && u.regs.inten_txstopped && u.regs.inten_endrx && u.regs.inten_rxto);
    assert!(u.irq.enabled && u.irq.handler_installed && !u.irq.pending);
    assert!(u.pins.txd_high);
    assert!(!u.state.tx_done.signaled());
    assert!(!u.state.rx_done.signaled());
}

#[test]
fn construction_clears_stale_completion_events() {
    let mut regs = Registers::new();
    regs.events_endtx = true;
    regs.events_endrx = true;
    let mut irq = Irq::new(2);
    irq.pending = true;
    let u = Uarte::new(Instance::Uarte1, regs, irq, pins(), Parity::Included, BAUD_115200);
    assert!(!u.regs.events_endtx);
    assert!(!u.regs.events_endrx);
    assert!(!u.irq.pending);
    assert_eq!(u.instance, Instance::Uarte1);
    assert_eq!(u.regs.parity, Parity::Included);
}

#[test]
fn first_send_poll_powers_on_and_programs_buffer() {
    let mut u = uarte();
    let mut f = u.send(buf(0x2000_0100, 12));
    assert!(!u.regs.enable);
    assert_eq!(f.poll(&mut u), Poll::Pending);
    assert!(u.regs.enable);
    assert_eq!(u.regs.txd_ptr, 0x2000_0100);
    assert_eq!(u.regs.txd_maxcnt, 12);
    assert!(u.regs.tasks_starttx);
    assert!(u.tx_started());
}

#[test]
fn later_send_poll_leaves_hardware_alone() {
    let mut u = uarte();
    let mut f = u.send(buf(0x2000_0100, 12));
    f.poll(&mut u);
    let before = u.regs;
    assert_eq!(f.poll(&mut u), Poll::Pending);
    assert_eq!(u.regs, before);
}

#[test]
fn send_completes_and_powers_off() {
    let mut u = uarte();
    let mut f = u.send(buf(0x2000_0100, 4));
    f.poll(&mut u);
    u.regs.events_endtx = true;
    u.on_irq();
    assert!(!u.regs.enable);
    assert!(!u.tx_started());
    assert!(!u.regs.events_endtx);
    assert_eq!(f.poll(&mut u), Poll::Ready(()));
    assert!(!u.state.tx_done.signaled());
    assert!(f.released(&u));
}

#[test]
fn receive_completes_with_byte_count_and_powers_off() {
    let mut u = uarte();
    let mut f = u.receive(buf(0x2000_0200, 16));
    assert_eq!(f.poll(&mut u), Poll::Pending);
    assert!(u.regs.enable);
    assert_eq!(u.regs.rxd_ptr, 0x2000_0200);
    assert_eq!(u.regs.rxd_maxcnt, 16);
    assert!(u.regs.tasks_startrx);
    u.regs.events_endrx = true;
    u.regs.rxd_amount = 16;
    u.on_irq();
    assert!(!u.regs.enable);
    assert_eq!(f.poll(&mut u), Poll::Ready(16));
}

#[test]
fn interleaved_transfers_power_off_after_both() {
    let mut u = uarte();
    let mut tx = u.send(buf(0x2000_0000, 3));
    let mut rx = u.receive(buf(0x2000_0010, 5));
    tx.poll(&mut u);
    rx.poll(&mut u);
    assert!(u.regs.enable);
    u.regs.events_endtx = true;
    u.on_irq();
    assert!(u.regs.enable);
    assert_eq!(tx.poll(&mut u), Poll::Ready(()));
    assert_eq!(rx.poll(&mut u), Poll::Pending);
    u.regs.events_endrx = true;
    u.regs.rxd_amount = 5;
    u.on_irq();
    assert!(!u.regs.enable);
    assert_eq!(rx.poll(&mut u), Poll::Ready(5));
}

#[test]
fn largest_buffer_programs_its_exact_length() {
    let mut u = uarte();
    let mut f = u.send(buf(0x2000_0000, EASY_DMA_SIZE));
    f.poll(&mut u);
    assert_eq!(u.regs.txd_maxcnt, 65535);
    let mut r = u.receive(buf(0x2000_0000, EASY_DMA_SIZE));
    r.poll(&mut u);
    assert_eq!(u.regs.rxd_maxcnt, 65535);
}

#[test]
fn empty_buffer_programs_zero_length() {
    let mut u = uarte();
    let mut f = u.send(buf(0x2000_0000, 0));
    f.poll(&mut u);
    assert_eq!(u.regs.txd_maxcnt, 0);
    assert!(u.regs.enable);
}

#[test]
fn send_drops_stale_completion() {
    let mut u = uarte();
    u.state.tx_done.signal(());
    let mut f = u.send(buf(0x2000_0000, 2));
    assert!(!u.state.tx_done.signaled());
    assert_eq!(f.poll(&mut u), Poll::Pending);
}

#[test]
fn cancelled_receive_keeps_buffer_until_halt_is_reported() {
    let mut u = uarte();
    let mut f = u.receive(buf(0x2000_0200, 8));
    f.poll(&mut u);
    assert!(f.drop(&mut u));
    assert!(u.regs.tasks_stoprx);
    assert!(!u.rx_started());
    assert!(!f.released(&u));
    // The peripheral confirms the stop: end of reception, then timeout.
    u.regs.events_endrx = true;
    u.regs.rxd_amount = 3;
    u.regs.events_rxto = true;
    u.on_irq();
    assert!(f.released(&u));
    assert!(!u.regs.enable);
}

#[test]
fn cancelled_receive_before_start_needs_no_wait() {
    let mut u = uarte();
    let mut f = u.receive(buf(0x2000_0200, 8));
    let before = u.regs;
    assert!(!f.drop(&mut u));
    assert_eq!(u.regs, before);
    assert!(f.released(&u));
}

#[test]
fn cancelled_send_keeps_buffer_until_end_is_reported() {
    let mut u = uarte();
    let mut f = u.send(buf(0x2000_0300, 8));
    f.poll(&mut u);
    assert!(f.drop(&mut u));
    assert!(u.regs.tasks_stoptx);
    assert!(!u.tx_started());
    assert!(!f.released(&u));
    u.regs.events_endtx = true;
    u.regs.events_txstopped = true;
    u.on_irq();
    assert!(f.released(&u));
    assert!(!u.regs.enable);
}

#[test]
fn stop_returns_bytes_received_so_far() {
    let mut u = uarte();
    let mut f = u.receive(buf(0x2000_0200, 10));
    f.poll(&mut u);
    assert_eq!(f.stop(&mut u), Poll::Pending);
    assert!(u.regs.tasks_stoprx);
    assert_eq!(f.poll_stop(&mut u), Poll::Pending);
    u.regs.events_endrx = true;
    u.regs.rxd_amount = 4;
    u.on_irq();
    assert_eq!(f.poll_stop(&mut u), Poll::Ready(4));
    u.regs.events_rxto = true;
    u.on_irq();
    assert!(!u.regs.enable);
}

#[test]
fn stop_before_start_returns_zero() {
    let mut u = uarte();
    let mut f = u.receive(buf(0x2000_0200, 10));
    assert_eq!(f.stop(&mut u), Poll::Ready(0));
    assert!(!u.regs.tasks_stoprx);
}

#[test]
fn stop_with_nothing_received_returns_zero_count() {
    let mut u = uarte();
    let mut f = u.receive(buf(0x2000_0200, 10));
    f.poll(&mut u);
    f.stop(&mut u);
    u.regs.events_endrx = true;
    u.regs.rxd_amount = 0;
    u.regs.events_rxto = true;
    u.on_irq();
    assert_eq!(f.poll_stop(&mut u), Poll::Ready(0));
}

#[test]
fn one_handler_run_with_tx_stop_and_rx_full_powers_off_when_both_idle() {
    let mut u = uarte();
    let mut tx = u.send(buf(0x2000_0000, 3));
    let mut rx = u.receive(buf(0x2000_0010, 5));
    tx.poll(&mut u);
    rx.poll(&mut u);
    tx.drop(&mut u);
    u.regs.events_txstopped = true;
    u.regs.events_endrx = true;
    u.regs.rxd_amount = 5;
    u.on_irq();
    assert!(!u.regs.enable);
    assert!(!u.regs.events_txstopped && !u.regs.events_endrx);
    assert_eq!(rx.poll(&mut u), Poll::Ready(5));
}

#[test]
fn one_handler_run_keeps_power_while_a_transmission_is_started() {
    let mut u = uarte();
    let mut tx = u.send(buf(0x2000_0000, 3));
    let mut rx = u.receive(buf(0x2000_0010, 5));
    tx.poll(&mut u);
    rx.poll(&mut u);
    u.regs.events_txstopped = true;
    u.regs.events_endrx = true;
    u.regs.rxd_amount = 5;
    u.on_irq();
    assert!(u.regs.enable);
    assert!(u.tx_started());
    assert!(!u.rx_started());
}

#[test]
fn end_of_stopped_transmission_alone_keeps_power() {
    let mut u = uarte();
    let mut tx = u.send(buf(0x2000_0000, 3));
    tx.poll(&mut u);
    tx.drop(&mut u);
    u.regs.events_endtx = true;
    u.on_irq();
    assert!(u.regs.enable);
    assert!(tx.released(&u));
    u.regs.events_txstopped = true;
    u.on_irq();
    assert!(!u.regs.enable);
}

#[test]
fn free_waits_for_power_off() {
    let mut u = uarte();
    let mut tx = u.send(buf(0x2000_0000, 3));
    tx.poll(&mut u);
    let mut u = match u.free() {
        Ok(_) => panic!("freed while powered on"),
        Err(u) => u,
    };
    u.regs.events_endtx = true;
    u.on_irq();
    match u.free() {
        Ok((instance, regs, irq, pins)) => {
            assert_eq!(instance, Instance::Uarte0);
            assert!(!regs.enable);
            assert_eq!(irq.number, 2);
            assert_eq!(pins.rxd, 8);
        }
        Err(_) => panic!("not freed once powered off"),
    }
}
