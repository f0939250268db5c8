use uart_stack::dmaengine::{
    Answer, Capabilities, Channel, ChannelSetup, Preparation, SetupStep, SlaveConfig,
};
use uart_stack::errno::Errno;
use uart_stack::serial::dma::state::{Phase, State};
use uart_stack::serial::dma::{
    channel_requests, ChannelRequest, Config, RxFlush, RxStart, StateMachine, Stats, TxStart,
    RX_SIZE, TX_SIZE,
};
use uart_stack::serial::locked_port::{Effect, LockedPort};

#[test]
fn transmit_completion_advances_exactly_once() {
    let mut state = State {
        active: true,
        tx: Phase::Running,
        tx_len: 256,
        ..State::new()
    };
    assert_eq!(state.complete_tx(), Some(256));
    assert_eq!(state.complete_tx(), None);
}

#[test]
fn flush_does_not_advance_the_reset_tty_queue() {
    let mut state = State {
        active: true,
        tx: Phase::Running,
        tx_len: 256,
        ..State::new()
    };
    assert!(state.cancel_tx());
    assert!(state.tx == Phase::Stopping);
    assert_eq!(state.complete_tx(), None);
    assert_eq!(state.tx_len, 0);
}

#[test]
fn late_completion_after_close_is_ignored() {
    let mut state = State {
        tx: Phase::Running,
        rx: Phase::Running,
        tx_len: 17,
        ..State::new()
    };
    assert_eq!(state.complete_tx(), None);
    assert!(!state.complete_rx());
}

#[test]
fn timeout_and_full_receive_callback_cannot_both_deliver() {
    let mut state = State {
        active: true,
        rx: Phase::Stopping,
        ..State::new()
    };
    assert!(!state.complete_rx());
    state.rx = Phase::Running;
    assert!(state.complete_rx());
    assert!(!state.complete_rx());
    assert!(state.rx_cpu_safe);
}

fn open_machine(stats: &mut Stats) -> StateMachine {
    let mut machine = StateMachine::new(Some(Ok(())), stats).unwrap();
    machine.activate();
    machine
}

fn start(machine: &StateMachine, port: &LockedPort) -> TxStart {
    let mut block = Vec::new();
    let choice = machine.tx_start(port, &mut block);
    let expected = match choice {
        TxStart::Submit(count) => port.xmit.iter().take(count).copied().collect(),
        _ => Vec::new(),
    };
    assert_eq!(block, expected);
    choice
}

fn queued(bytes: &[u8]) -> LockedPort {
    let mut port = LockedPort::new(24_000_000);
    port.xmit.extend(bytes);
    port
}

#[test]
fn acquisition_counts_ports_and_fallbacks() {
    let mut stats = Stats::new();
    let machine = StateMachine::new(Some(Ok(())), &mut stats).unwrap();
    assert!(machine.available());
    assert_eq!(stats.channels, 1);
    let fallback = StateMachine::new(Some(Err(Errno::ENODEV)), &mut stats).unwrap();
    assert!(!fallback.available());
    assert_eq!(stats.fallback, 1);
    let deferred = StateMachine::new(Some(Err(Errno::EPROBE_DEFER)), &mut stats);
    assert_eq!(deferred.unwrap_err(), Errno::EPROBE_DEFER);
    assert!(!StateMachine::new(None, &mut stats).unwrap().available());
    assert_eq!((stats.channels, stats.fallback), (1, 1));
    machine.release(&mut stats);
    fallback.release(&mut stats);
    assert_eq!(stats.channels, 0);
}

#[test]
fn statistics_are_one_counter_to_a_line() {
    let mut stats = Stats::new();
    stats.channels = 1;
    stats.tx_bytes = 1234567890;
    stats.errors = u64::MAX;
    assert_eq!(
        stats.write(),
        "dma_ports 1\npio_fallbacks 0\ntx_dma_bytes 1234567890\nrx_dma_bytes 0\n\
         tx_dma_blocks 0\nrx_dma_blocks 0\nrx_dma_flushes 0\ntx_dma_flushes 0\n\
         dma_errors 18446744073709551615\n"
    );
}

#[test]
fn transmit_block_is_peeked_submitted_and_completed() {
    let mut stats = Stats::new();
    let mut machine = open_machine(&mut stats);
    let data: Vec<u8> = (0..300).map(|i| i as u8).collect();
    let mut port = queued(&data);
    let mut block = vec![9; 3];
    assert_eq!(machine.tx_start(&port, &mut block), TxStart::Submit(TX_SIZE));
    assert_eq!(block, data[..TX_SIZE].to_vec());
    assert_eq!(port.tx_pending(), 300);
    assert!(machine.tx_submitted(TX_SIZE, Ok(5), &mut stats));
    assert!(machine.tx_busy() && machine.tx_running());
    assert!(matches!(start(&machine, &port), TxStart::Dma));
    assert!(machine.tx_complete(&mut port, &mut stats));
    assert_eq!(port.tx_pending(), 44);
    assert_eq!(port.effects, vec![Effect::WriteWakeup]);
    assert_eq!((stats.tx_blocks, stats.tx_bytes), (1, 256));
    assert!(!machine.tx_complete(&mut port, &mut stats));
    assert_eq!(port.tx_pending(), 44);
}

#[test]
fn refused_transmit_block_leaves_the_queue_to_the_processor() {
    let mut stats = Stats::new();
    let mut machine = open_machine(&mut stats);
    let port = queued(b"abc");
    assert!(!machine.tx_submitted(3, Err(Errno::EBUSY), &mut stats));
    assert!(matches!(start(&machine, &port), TxStart::Cpu));
    assert_eq!(port.tx_pending(), 3);
    assert_eq!(stats.errors, 1);
}

#[test]
fn flow_control_and_empty_queues_stay_with_the_processor() {
    let mut stats = Stats::new();
    let machine = open_machine(&mut stats);
    assert!(matches!(start(&machine, &queued(b"")), TxStart::Cpu));
    let mut port = queued(b"abc");
    port.x_char = 0x11;
    assert!(matches!(start(&machine, &port), TxStart::Cpu));
    port.x_char = 0;
    port.tx_stopped = true;
    assert!(matches!(start(&machine, &port), TxStart::Cpu));
}

#[test]
fn flushed_transmit_block_waits_for_the_worker() {
    let mut stats = Stats::new();
    let mut machine = open_machine(&mut stats);
    assert!(machine.tx_submitted(3, Ok(1), &mut stats));
    assert!(machine.tx_flush(&mut stats));
    assert_eq!(stats.tx_flushes, 1);
    let port = queued(b"next");
    assert!(matches!(start(&machine, &port), TxStart::Dma));
    assert_eq!(machine.stopping(), (true, false));
    assert!(machine.work_finish(true, false));
    assert!(matches!(start(&machine, &port), TxStart::Submit(_)));
    assert!(!machine.tx_flush(&mut stats));
}

#[test]
fn receive_timeout_delivers_what_was_written() {
    let mut stats = Stats::new();
    let mut machine = open_machine(&mut stats);
    let mut port = queued(b"");
    assert_eq!(machine.rx_start(), RxStart::Submit);
    assert!(machine.rx_submitted(Ok(9), &mut stats));
    assert_eq!(machine.rx_start(), RxStart::Dma);
    assert_eq!(machine.rx_flush(), RxFlush::Pause { cookie: 9 });
    let flushed = machine.rx_paused(Some(500), true, &mut port, &mut stats);
    assert!(flushed.cpu_safe && flushed.schedule);
    assert_eq!(port.effects, vec![Effect::ReceiveDma { count: 12 }]);
    assert_eq!((stats.rx_blocks, stats.rx_bytes, stats.rx_flushes), (1, 12, 1));
    assert!(!machine.rx_complete(&mut port, &mut stats));
    assert_eq!(machine.rx_flush(), RxFlush::Settled(true));
    assert_eq!(machine.rx_start(), RxStart::Cpu);
    assert!(machine.work_finish(false, true));
    assert_eq!(machine.rx_start(), RxStart::Submit);
}

#[test]
fn impossible_residue_keeps_the_processor_off() {
    let mut stats = Stats::new();
    let mut machine = open_machine(&mut stats);
    let mut port = queued(b"");
    assert!(machine.rx_submitted(Ok(9), &mut stats));
    assert_eq!(machine.work_prepare(), Some(RxFlush::Pause { cookie: 9 }));
    let flushed = machine.rx_paused(Some(RX_SIZE + 1), false, &mut port, &mut stats);
    assert!(!flushed.cpu_safe && !flushed.schedule);
    assert!(port.effects.is_empty());
    assert_eq!(machine.rx_start(), RxStart::Dma);
    assert_eq!(machine.stopping(), (false, true));
    machine.work_finish(false, true);
    assert_eq!(machine.rx_start(), RxStart::Cpu);
    assert_eq!((stats.errors, stats.rx_flushes), (1, 1));
}

#[test]
fn full_receive_block_is_delivered_once() {
    let mut stats = Stats::new();
    let mut machine = open_machine(&mut stats);
    let mut port = queued(b"");
    assert!(machine.rx_submitted(Ok(1), &mut stats));
    assert!(machine.rx_complete(&mut port, &mut stats));
    assert!(!machine.rx_complete(&mut port, &mut stats));
    assert_eq!(port.effects, vec![Effect::ReceiveDma { count: RX_SIZE }]);
    assert_eq!(stats.rx_bytes, 512);
}

#[test]
fn closed_port_starts_nothing() {
    let mut stats = Stats::new();
    let mut machine = open_machine(&mut stats);
    machine.deactivate();
    assert!(machine.close());
    assert!(!machine.schedule());
    assert!(matches!(start(&machine, &queued(b"abc")), TxStart::Cpu));
    assert_eq!(machine.rx_start(), RxStart::Cpu);
    assert_eq!(machine.work_prepare(), None);
    assert!(!machine.tx_busy());
}

#[test]
fn line_settings_change_while_nothing_is_submitted() {
    let mut stats = Stats::new();
    let mut machine = open_machine(&mut stats);
    assert_eq!(machine.configure_begin(), RxFlush::Settled(true));
    assert_eq!(machine.rx_start(), RxStart::Cpu);
    assert!(matches!(start(&machine, &queued(b"abc")), TxStart::Dma));
    assert!(!machine.work_finish(false, false));
    assert_eq!(machine.configure_sync(), (true, true));
    assert_eq!(machine.synchronize(false, true), (false, true));
    assert!(machine.configure_end(true));
    assert_eq!(machine.rx_start(), RxStart::Submit);
}

#[test]
fn line_error_moves_reception_to_the_processor() {
    let mut stats = Stats::new();
    let mut machine = open_machine(&mut stats);
    assert_eq!(machine.rx_error(&mut stats), RxFlush::Settled(true));
    assert_eq!(stats.errors, 1);
    assert_eq!(machine.rx_start(), RxStart::Cpu);
    assert_eq!(machine.stop_receive(), RxFlush::Settled(true));
    machine.activate();
    assert_eq!(machine.rx_start(), RxStart::Submit);
}

fn capable() -> Capabilities {
    Capabilities { terminate: true, pause: true, descriptor_residue: false, synchronize: true }
}

fn setup(receive: bool) -> ChannelSetup {
    let (tx, rx) = channel_requests(Config { fifo: 0xfeb4_0000, burst: 16 });
    assert_eq!((tx.size, rx.size), (256, 512));
    ChannelSetup::new(if receive { rx } else { tx })
}

#[test]
fn channel_is_acquired_configured_and_given_a_buffer() {
    let mut setup = setup(true);
    assert_eq!(setup.step, SetupStep::Acquire);
    setup.resume(Answer::Acquired(Ok(true)));
    setup.resume(Answer::Firmware(true));
    setup.resume(Answer::Matched(Ok(())));
    assert_eq!(setup.channel(), None);
    setup.resume(Answer::Capable(Ok(capable())));
    let expected = SlaveConfig {
        receive: true,
        src_addr: 0xfeb4_0000,
        dst_addr: 0xfeb4_0000,
        src_maxburst: 16,
        dst_maxburst: 16,
    };
    assert_eq!(setup.step, SetupStep::Configure(expected));
    setup.resume(Answer::Configured(Ok(())));
    assert_eq!(setup.step, SetupStep::Allocate(512));
    setup.resume(Answer::Allocated(Ok(())));
    assert_eq!(setup.step, SetupStep::Ready);
    assert_eq!(setup.channel(), Some(Channel { buffer: Some(512), receive: true }));
}

#[test]
fn failed_channel_requests_give_the_channel_back() {
    let mut absent = setup(true);
    absent.resume(Answer::Acquired(Ok(false)));
    assert_eq!(absent.step, SetupStep::Failed { error: Errno::ENODEV, release: false });

    let mut other = setup(false);
    other.resume(Answer::Acquired(Ok(true)));
    other.resume(Answer::Firmware(true));
    other.resume(Answer::Matched(Err(Errno::EINVAL)));
    assert_eq!(other.step, SetupStep::Failed { error: Errno::EINVAL, release: true });

    // A pause is only needed for reception.
    for receive in [false, true] {
        let mut unpausable = setup(receive);
        unpausable.resume(Answer::Acquired(Ok(true)));
        unpausable.resume(Answer::Firmware(true));
        unpausable.resume(Answer::Matched(Ok(())));
        unpausable.resume(Answer::Capable(Ok(Capabilities { pause: false, ..capable() })));
        let failed = SetupStep::Failed { error: Errno::EOPNOTSUPP, release: true };
        assert_eq!(unpausable.step == failed, receive);
    }
}

#[test]
fn transfers_are_checked_against_the_buffer() {
    let channel = Channel { buffer: Some(256), receive: false };
    assert_eq!(channel.submit(256).unwrap(), Preparation { len: 256, receive: false });
    assert_eq!(channel.submit(0).unwrap_err(), Errno::EINVAL);
    assert_eq!(channel.submit(257).unwrap_err(), Errno::EINVAL);
    let unbuffered = Channel { buffer: None, receive: false };
    assert_eq!(unbuffered.submit(1).unwrap_err(), Errno::ENODEV);
    assert_eq!(Channel::submitted(Some(3)).unwrap(), 3);
    assert_eq!(Channel::submitted(None).unwrap_err(), Errno::EBUSY);
    assert_eq!(Channel::submitted(Some(-16)).unwrap_err(), Errno::EBUSY);
    assert_eq!(Channel::submitted(Some(-12)).unwrap_err(), Errno::Other(-12));
}

#[test]
fn request_of_one_channel() {
    let (tx, _) = channel_requests(Config { fifo: 7, burst: 3 });
    assert_eq!(tx, ChannelRequest { receive: false, fifo: 7, size: 256, burst: 3 });
}
