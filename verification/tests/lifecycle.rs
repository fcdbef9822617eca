//! The daemon lifecycle: startup failures, clean shutdown, and the
//! session-scoped paths.

use wayland_idle_inhibitor::lifecycle::{DaemonError, DaemonLifecycle, DaemonPhase};
use wayland_idle_inhibitor::paths::{lock_path_in, socket_path_in};

/// A lifecycle driven through a fully successful startup.
fn running_daemon() -> DaemonLifecycle {
    let mut lc = DaemonLifecycle::new();
    lc.resolve_runtime_dir(true);
    lc.acquire_lock(true);
    lc.bind_socket(true);
    lc.complete_handshake(true);
    lc
}

#[test]
fn successful_startup_reaches_the_accept_loop() {
    let lc = running_daemon();
    assert_eq!(lc.phase, DaemonPhase::Running);
    assert!(lc.holds_lock());
    assert!(lc.has_socket());
    assert_eq!(lc.failure_reason(), None);
}

#[test]
fn missing_runtime_dir_is_fatal() {
    let mut lc = DaemonLifecycle::new();
    lc.resolve_runtime_dir(false);
    assert_eq!(lc.phase, DaemonPhase::Stopped);
    assert_eq!(lc.failure_reason(), Some(DaemonError::EnvironmentError));
    assert_eq!(lc.exit_code(), 1);
}

#[test]
fn held_lock_stops_second_instance_without_a_socket() {
    let mut second = DaemonLifecycle::new();
    second.resolve_runtime_dir(true);
    second.acquire_lock(false);
    assert_eq!(second.phase, DaemonPhase::Stopped);
    assert_eq!(second.failure_reason(), Some(DaemonError::AlreadyRunning));
    assert!(!second.holds_lock());
    assert!(!second.has_socket());
    assert_eq!(second.exit_code(), 1);
}

#[test]
fn failed_bind_releases_the_lock() {
    let mut lc = DaemonLifecycle::new();
    lc.resolve_runtime_dir(true);
    lc.acquire_lock(true);
    lc.bind_socket(false);
    assert_eq!(lc.failure_reason(), Some(DaemonError::BindError));
    assert!(!lc.holds_lock());
    assert!(!lc.has_socket());
    assert_eq!(lc.exit_code(), 1);
}

#[test]
fn failed_handshake_releases_both_resources() {
    let mut lc = DaemonLifecycle::new();
    lc.resolve_runtime_dir(true);
    lc.acquire_lock(true);
    lc.bind_socket(true);
    lc.complete_handshake(false);
    assert_eq!(
        lc.failure_reason(),
        Some(DaemonError::SessionHandshakeError)
    );
    assert!(!lc.holds_lock());
    assert!(!lc.has_socket());
    assert_eq!(lc.exit_code(), 1);
}

#[test]
fn clean_shutdown_releases_lock_and_socket() {
    let mut lc = running_daemon();
    lc.shutdown();
    assert_eq!(lc.phase, DaemonPhase::Stopped);
    assert!(!lc.holds_lock());
    assert!(!lc.has_socket());
    assert_eq!(lc.exit_code(), 0);

    // A later instance finds both resources free and starts cleanly.
    let next = running_daemon();
    assert!(next.holds_lock());
    assert!(next.has_socket());
}

#[test]
fn termination_signal_ends_the_loop_cleanly() {
    let mut lc = running_daemon();
    assert!(!lc.observe_cancellation(false));
    assert_eq!(lc.phase, DaemonPhase::Running);

    assert!(lc.observe_cancellation(true));
    assert_eq!(lc.phase, DaemonPhase::Stopped);
    assert!(!lc.holds_lock());
    assert!(!lc.has_socket());
    assert_eq!(lc.exit_code(), 0);
}

#[test]
fn session_paths_sit_under_the_runtime_dir() {
    assert_eq!(
        socket_path_in("/run/user/1000"),
        "/run/user/1000/wayland-idle-inhibitor"
    );
    assert_eq!(
        lock_path_in("/run/user/1000"),
        "/run/user/1000/wayland-idle-inhibitor.lock"
    );
}
