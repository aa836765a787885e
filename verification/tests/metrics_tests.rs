use axvm_core::metrics::VmMetrics;

#[test]
fn test_metrics_creation() {
    let metrics = VmMetrics::new();
    assert!(metrics.is_enabled());
    assert_eq!(metrics.vcpu_runs(), 0);
}

#[test]
fn test_metrics_disabled() {
    let mut metrics = VmMetrics::disabled();
    assert!(!metrics.is_enabled());

    metrics.record_vcpu_run();
    assert_eq!(metrics.vcpu_runs(), 0); // Should not record
}

#[test]
fn test_metrics_recording() {
    let mut metrics = VmMetrics::new();

    metrics.record_vcpu_run();
    metrics.record_vcpu_run();
    assert_eq!(metrics.vcpu_runs(), 2);

    metrics.record_io_exit();
    assert_eq!(metrics.io_exits(), 1);
    assert_eq!(metrics.vcpu_exits(), 1);
}

#[test]
fn test_metrics_reset() {
    let mut metrics = VmMetrics::new();

    metrics.record_vcpu_run();
    metrics.record_error();
    assert_eq!(metrics.vcpu_runs(), 1);
    assert_eq!(metrics.errors(), 1);

    metrics.reset();
    assert_eq!(metrics.vcpu_runs(), 0);
    assert_eq!(metrics.errors(), 0);
}

#[test]
fn test_metrics_snapshot() {
    let mut metrics = VmMetrics::new();

    let snap1 = metrics.snapshot();
    metrics.record_vcpu_run();
    metrics.record_vcpu_run();
    let snap2 = metrics.snapshot();

    let delta = snap2.delta(&snap1);
    assert_eq!(delta.vcpu_runs, 2);
}

#[test]
fn test_metrics_exit_kinds() {
    let mut metrics = VmMetrics::new();
    metrics.record_mmio_exit();
    metrics.record_hlt_exit();
    metrics.record_interrupt_exit();
    metrics.record_exception_exit();
    assert_eq!(metrics.mmio_exits(), 1);
    assert_eq!(metrics.hlt_exits(), 1);
    assert_eq!(metrics.interrupt_exits(), 1);
    assert_eq!(metrics.exception_exits(), 1);
    assert_eq!(metrics.vcpu_exits(), 4);
}

#[test]
fn test_metrics_times_and_cycles() {
    let mut metrics = VmMetrics::new();
    metrics.record_runtime(1500);
    metrics.record_vcpu_active_time(700);
    metrics.record_cycles(1000);
    metrics.record_idle_cycles(200);
    metrics.record_instructions(42);
    assert_eq!(metrics.total_runtime(), 1500);
    assert_eq!(metrics.vcpu_active_time(), 700);
    assert_eq!(metrics.total_cycles(), 1000);
    assert_eq!(metrics.idle_cycles(), 200);
    assert_eq!(metrics.total_instructions(), 42);
}

#[test]
fn test_metrics_enable_disable() {
    let mut metrics = VmMetrics::new();
    metrics.disable();
    assert!(!metrics.is_enabled());
    metrics.record_memory_read();
    assert_eq!(metrics.memory_reads(), 0);
    metrics.enable();
    metrics.record_memory_read();
    metrics.record_memory_write();
    metrics.record_memory_fault();
    metrics.record_hardware_failure();
    metrics.record_timeout();
    assert_eq!(metrics.memory_reads(), 1);
    assert_eq!(metrics.memory_writes(), 1);
    assert_eq!(metrics.memory_faults(), 1);
    assert_eq!(metrics.hardware_failures(), 1);
    assert_eq!(metrics.errors(), 1);
    assert_eq!(metrics.timeout_events(), 1);
}
