use syscalls::{command, memop, subscribe, yieldk, yieldk_for, Callback, Error, EventSink, Kernel};

const ADC_DRIVER: u32 = 0x0005;

fn sample_event(driver: u32, slot: u32) -> Callback {
    Callback {
        driver,
        slot,
        arg0: 17,
        arg1: 23,
        arg2: 0,
    }
}

#[test]
fn a_second_subscription_on_a_live_slot_fails_with_already() {
    let mut k = Kernel::new();
    let first = subscribe(&mut k, ADC_DRIVER, 0).unwrap();
    assert_eq!(first.driver_number(), ADC_DRIVER);
    assert_eq!(first.subscribe_number(), 0);
    assert!(k.has_subscription(ADC_DRIVER, 0));

    match subscribe(&mut k, ADC_DRIVER, 0) {
        Err(e) => assert_eq!(e, Error::Already),
        Ok(_) => panic!("a live slot must not be subscribed twice"),
    }
    assert!(k.has_subscription(ADC_DRIVER, 0));

    // Another slot of the same driver is free.
    let other = subscribe(&mut k, ADC_DRIVER, 1).unwrap();
    other.release(&mut k);
}

#[test]
fn releasing_a_subscription_frees_the_slot_for_reuse() {
    let mut k = Kernel::new();
    let sub = subscribe(&mut k, ADC_DRIVER, 0).unwrap();
    sub.release(&mut k);
    assert!(!k.has_subscription(ADC_DRIVER, 0));
    let again = subscribe(&mut k, ADC_DRIVER, 0).unwrap();
    again.release(&mut k);
}

#[test]
fn delivery_after_release_does_not_invoke_the_callback() {
    let mut k = Kernel::new();
    let sub = subscribe(&mut k, ADC_DRIVER, 0).unwrap();
    k.post_callback(sample_event(ADC_DRIVER, 0));
    sub.release(&mut k);
    assert!(!k.has_subscription(ADC_DRIVER, 0));

    // The kernel still tries to deliver the queued callback; the revoked
    // registration means the trampoline must not run.
    let mut sink = EventSink::new();
    let completed = yieldk_for(&mut k, ADC_DRIVER, 0, &mut sink);
    assert!(!completed);
    assert!(!sink.fired);
    assert_eq!(k.pending_count(), 0);
}

#[test]
fn a_delivery_attempt_for_a_revoked_slot_hands_nothing_back() {
    let mut k = Kernel::new();
    let sub = subscribe(&mut k, ADC_DRIVER, 0).unwrap();
    k.post_callback(sample_event(ADC_DRIVER, 0));
    sub.release(&mut k);
    assert_eq!(yieldk(&mut k), None);
    assert_eq!(k.yields_taken(), 1);
}

#[test]
fn releasing_a_lease_zeroes_the_kernel_view_of_the_slot() {
    let mut k = Kernel::new();
    let buffer: Vec<u8> = vec![0; 128];
    let lease = syscalls::shared_mem::allow(&mut k, ADC_DRIVER, 0, &buffer).unwrap();
    assert_eq!(lease.driver_number(), ADC_DRIVER);
    assert_eq!(lease.allow_number(), 0);
    assert_eq!(lease.len(), 128);
    assert_eq!(k.shared_len(ADC_DRIVER, 0), 128);

    lease.release(&mut k);
    assert_eq!(k.shared_len(ADC_DRIVER, 0), 0);
}

#[test]
fn a_second_lease_on_a_live_slot_fails_with_already() {
    let mut k = Kernel::new();
    let primary: Vec<u8> = vec![0; 128];
    let alternate: Vec<u8> = vec![0; 128];
    let lease = syscalls::shared_mem::allow(&mut k, ADC_DRIVER, 0, &primary).unwrap();
    match syscalls::shared_mem::allow(&mut k, ADC_DRIVER, 0, &alternate) {
        Err(e) => assert_eq!(e, Error::Already),
        Ok(_) => panic!("a live slot must not be lent twice"),
    }
    assert_eq!(k.shared_len(ADC_DRIVER, 0), 128);

    // The alternate-buffer slot is its own namespace entry.
    let second = syscalls::shared_mem::allow(&mut k, ADC_DRIVER, 1, &alternate).unwrap();
    assert_eq!(k.shared_len(ADC_DRIVER, 1), 128);
    second.release(&mut k);
    lease.release(&mut k);
    assert_eq!(k.shared_len(ADC_DRIVER, 0), 0);
    assert_eq!(k.shared_len(ADC_DRIVER, 1), 0);
}

#[test]
fn yield_for_returns_at_once_when_the_condition_already_holds() {
    let mut k = Kernel::new();
    let sub = subscribe(&mut k, ADC_DRIVER, 0).unwrap();
    k.post_callback(sample_event(ADC_DRIVER, 0));

    let mut sink = EventSink {
        fired: true,
        arg0: 0,
        arg1: 0,
        arg2: 0,
    };
    let completed = yieldk_for(&mut k, ADC_DRIVER, 0, &mut sink);
    assert!(completed);
    // Not one yield trap was issued and the queue was not touched.
    assert_eq!(k.yields_taken(), 0);
    assert_eq!(k.pending_count(), 1);
    sub.release(&mut k);
}

#[test]
fn yield_for_issues_one_yield_trap_per_failed_check() {
    let mut k = Kernel::new();
    let sub = subscribe(&mut k, ADC_DRIVER, 0).unwrap();
    // Two callbacks for an unsubscribed slot are served and discarded before
    // the one that completes the wait.
    k.post_callback(sample_event(ADC_DRIVER, 1));
    k.post_callback(sample_event(ADC_DRIVER, 1));
    k.post_callback(sample_event(ADC_DRIVER, 0));

    let mut sink = EventSink::new();
    let completed = yieldk_for(&mut k, ADC_DRIVER, 0, &mut sink);
    assert!(completed);
    assert!(sink.fired);
    assert_eq!(sink.arg0, 17);
    assert_eq!(sink.arg1, 23);
    // Three failed checks, three yield traps, queue drained.
    assert_eq!(k.yields_taken(), 3);
    assert_eq!(k.pending_count(), 0);
    sub.release(&mut k);
}

#[test]
fn an_empty_buffer_is_the_revoking_reassignment() {
    let mut k = Kernel::new();
    let buffer: Vec<u8> = vec![0; 128];
    let lease = syscalls::shared_mem::allow(&mut k, ADC_DRIVER, 0, &buffer).unwrap();
    assert_eq!(k.shared_len(ADC_DRIVER, 0), 128);
    lease.release(&mut k);

    let empty: Vec<u8> = Vec::new();
    let cleared = syscalls::shared_mem::allow(&mut k, ADC_DRIVER, 0, &empty).unwrap();
    assert_eq!(cleared.len(), 0);
    assert_eq!(k.shared_len(ADC_DRIVER, 0), 0);
}

#[test]
fn the_trampoline_hands_the_argument_words_to_the_callback() {
    let mut sink = EventSink::new();
    assert!(!sink.fired);
    syscalls::c_callback(&mut sink, &sample_event(ADC_DRIVER, 0));
    assert!(sink.fired);
    assert_eq!(sink.arg0, 17);
    assert_eq!(sink.arg1, 23);
    assert_eq!(sink.arg2, 0);
}

#[test]
fn yield_with_nothing_pending_returns_empty_handed() {
    let mut k = Kernel::new();
    assert_eq!(yieldk(&mut k), None);
    assert_eq!(k.yields_taken(), 1);
}

#[test]
fn unconfigured_commands_report_no_such_device() {
    let k = Kernel::new();
    assert_eq!(command(&k, ADC_DRIVER, 0, 0, 0), Err(Error::Nodevice));
}

#[test]
fn memop_reports_the_configured_code() {
    let mut k = Kernel::new();
    assert_eq!(memop(&k, 0, 0), Err(Error::Nosupport));
    k.set_memop_code(0, 42);
    assert_eq!(memop(&k, 0, 0), Ok(42));
    k.set_memop_code(1, -6);
    assert_eq!(memop(&k, 1, 4096), Err(Error::Invalid));
}

#[test]
fn end_to_end_adc_scenario_against_the_mocked_kernel() {
    let mut k = Kernel::new();

    // The mocked analog driver reports three channels on the count command.
    k.set_command_code(ADC_DRIVER, 0, 3);
    let sub = subscribe(&mut k, ADC_DRIVER, 0).unwrap();
    assert_eq!(command(&k, ADC_DRIVER, 0, 0, 0), Ok(3));

    // A kernel that cannot allocate surfaces as out-of-memory.
    k.set_command_code(ADC_DRIVER, 0, -9);
    assert_eq!(command(&k, ADC_DRIVER, 0, 0, 0), Err(Error::Nomem));

    // A single sample on channel 0 is accepted, and the sample-ready callback
    // delivers the value.
    k.set_command_code(ADC_DRIVER, 1, 0);
    assert_eq!(command(&k, ADC_DRIVER, 1, 0, 0), Ok(0));
    k.post_callback(Callback {
        driver: ADC_DRIVER,
        slot: 0,
        arg0: 0,
        arg1: 0,
        arg2: 0x0222,
    });
    let mut sink = EventSink::new();
    assert!(yieldk_for(&mut k, ADC_DRIVER, 0, &mut sink));
    assert!(sink.fired);
    assert_eq!(sink.arg2, 0x0222);

    // A busy driver surfaces as busy.
    k.set_command_code(ADC_DRIVER, 1, -2);
    assert_eq!(command(&k, ADC_DRIVER, 1, 0, 0), Err(Error::Busy));

    sub.release(&mut k);
    assert!(!k.has_subscription(ADC_DRIVER, 0));
}
