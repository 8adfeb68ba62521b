//! Errors and their texts.

use ququmatz::owned::bind::{BindError, BindOutcome};
use ququmatz::owned::connect::{ConnectError, ConnectOutcome};
use ququmatz::owned::direct::DirectOpenError;
use ququmatz::owned::direct_socket::DirectSocketError;
use ququmatz::owned::epoll::{EpollError, EpollOutcome};
use ququmatz::owned::epollwait::EpollWaitError;
use ququmatz::owned::filesupdate::{FilesUpdateError, Update};
use ququmatz::owned::futex::FutexWaitOutcome;
use ququmatz::owned::futexwaitv::FutexWaitvError;
use ququmatz::owned::openat2::Openat2Error;
use ququmatz::owned::path::PathError;
use ququmatz::owned::pipe::PipeError;
use ququmatz::owned::timeout::Expiry;
use ququmatz::types::outcome::CancelOutcome;
use ququmatz::{CompletionError, Errno, Error, InvalidArgKind, SetupError, SubmitError};

#[test]
fn errnos_keep_their_number() {
    assert_eq!(Errno::new(7).raw(), 7);
    assert_eq!(Errno::enoent(), Errno(2));
    assert_eq!(Errno::eagain(), Errno(11));
    assert_eq!(Errno::einval(), Errno(22));
    assert_eq!(Errno(2).message(), "os error 2");
    assert_eq!(Errno(-3).message(), "os error -3");
}

#[test]
fn negation_wraps_only_at_the_minimum() {
    assert_eq!(Errno::from_negated(-2), Errno(2));
    assert_eq!(Errno::from_negated(i32::MIN), Errno(i32::MIN));
}

#[test]
fn errors_say_what_happened() {
    assert_eq!(
        Error::Submit(SubmitError::QueueFull).message(),
        "submission queue is full"
    );
    assert_eq!(
        Error::Submit(SubmitError::Syscall(Errno(16))).message(),
        "submit syscall failed: os error 16"
    );
    assert_eq!(
        Error::Completion(CompletionError::NoCompletion).message(),
        "no completion available"
    );
    assert_eq!(
        Error::Completion(CompletionError::Failed(Errno(5))).message(),
        "operation failed: os error 5"
    );
    assert_eq!(
        Error::Setup(SetupError::InvalidArg(InvalidArgKind::BufferCountZero)).message(),
        "invalid argument: buffer count must be non-zero"
    );
    assert_eq!(
        Error::Setup(SetupError::Syscall(Errno(12))).message(),
        "setup syscall failed: os error 12"
    );
    assert_eq!(
        Error::Syscall(Errno(1)).message(),
        "syscall failed: os error 1"
    );
}

#[test]
fn refused_arguments_say_why() {
    assert_eq!(
        InvalidArgKind::BufferSizeZero.message(),
        "buffer size must be non-zero"
    );
    assert_eq!(
        InvalidArgKind::BufferCountNotPowerOfTwo.message(),
        "buffer count must be a power of two"
    );
    assert_eq!(
        InvalidArgKind::BufferRingSizeOverflow.message(),
        "buffer size overflows"
    );
}

#[test]
fn narrower_errors_convert() {
    assert_eq!(
        Error::from(SubmitError::QueueFull),
        Error::Submit(SubmitError::QueueFull)
    );
    assert_eq!(
        Error::from(CompletionError::NoCompletion),
        Error::Completion(CompletionError::NoCompletion)
    );
    assert_eq!(
        Error::from(SetupError::Syscall(Errno(1))),
        Error::Setup(SetupError::Syscall(Errno(1)))
    );
    assert_eq!(Error::from(Errno(9)), Error::Syscall(Errno(9)));
}

#[test]
fn completion_results_are_counts_or_errors() {
    assert!(Error::cqe_is_ok(0));
    assert!(!Error::cqe_is_ok(-1));
    assert_eq!(Error::from_failed_cqe(3), None);
    let failed = Error::Completion(CompletionError::Failed(Errno(9)));
    assert_eq!(Error::from_failed_cqe(-9), Some(failed));
    assert_eq!(Error::status_of(0), Ok(()));
    assert_eq!(Error::status_of(-9), Err(failed));
    assert_eq!(Error::count_of(41), Ok(41));
    assert_eq!(Error::count_of(-9), Err(failed));
}

#[test]
fn bind_outcomes() {
    let table = [
        (0, BindOutcome::Bound, "socket bound"),
        (-98, BindOutcome::AddressInUse, "address is already in use"),
        (-22, BindOutcome::AlreadyBound, "socket is already bound"),
        (
            -13,
            BindOutcome::PermissionDenied,
            "binding this address requires privilege",
        ),
        (
            -9,
            BindOutcome::Failed(Errno(9)),
            "bind failed: os error 9",
        ),
    ];
    for (raw, outcome, text) in table {
        assert_eq!(BindOutcome::from_raw(raw), outcome);
        assert_eq!(outcome.message(), text);
        assert_eq!(outcome.is_bound(), raw >= 0);
    }
    assert_eq!(
        BindError::StoreTooSmall { needed: 16, got: 3 }.message(),
        "bind address storage needs 16 bytes, got 3"
    );
}

#[test]
fn connect_outcomes() {
    let table = [
        (0, ConnectOutcome::Connected, "socket connected"),
        (-111, ConnectOutcome::ConnectionRefused, "connection refused"),
        (
            -106,
            ConnectOutcome::AlreadyConnected,
            "socket is already connected",
        ),
        (-110, ConnectOutcome::TimedOut, "connection timed out"),
        (
            -101,
            ConnectOutcome::NetworkUnreachable,
            "network is unreachable",
        ),
        (
            -97,
            ConnectOutcome::Failed(Errno(97)),
            "connect failed: os error 97",
        ),
    ];
    for (raw, outcome, text) in table {
        assert_eq!(ConnectOutcome::from_raw(raw), outcome);
        assert_eq!(outcome.message(), text);
        assert_eq!(outcome.is_connected(), raw >= 0);
    }
    assert_eq!(
        ConnectError::StoreTooSmall { needed: 16, got: 0 }.message(),
        "connect address storage needs 16 bytes, got 0"
    );
}

#[test]
fn epoll_outcomes() {
    let table = [
        (0, EpollOutcome::Applied, "epoll registration updated"),
        (
            -17,
            EpollOutcome::AlreadyRegistered,
            "descriptor is already registered",
        ),
        (
            -2,
            EpollOutcome::NotRegistered,
            "descriptor is not registered",
        ),
        (
            -9,
            EpollOutcome::Failed(Errno(9)),
            "epoll_ctl failed: os error 9",
        ),
    ];
    for (raw, outcome, text) in table {
        assert_eq!(EpollOutcome::from_raw(raw), outcome);
        assert_eq!(outcome.message(), text);
        assert_eq!(outcome.is_applied(), raw >= 0);
    }
    assert_eq!(
        EpollError::StoreTooSmall { needed: 12, got: 4 }.message(),
        "epoll_event storage needs 12 bytes, got 4"
    );
    assert_eq!(
        EpollError::StoreMisaligned { needed: 8 }.message(),
        "epoll_event storage must be 8-byte aligned"
    );
}

#[test]
fn other_outcomes() {
    assert_eq!(Expiry::from_raw(-62), Expiry::Expired);
    assert_eq!(Expiry::from_raw(-125), Expiry::Cancelled);
    assert_eq!(Expiry::from_raw(0), Expiry::CountReached);
    assert_eq!(Expiry::from_raw(-22), Expiry::Failed(Errno(22)));

    assert_eq!(FutexWaitOutcome::from_raw(0), FutexWaitOutcome::Woken);
    assert_eq!(
        FutexWaitOutcome::from_raw(-11),
        FutexWaitOutcome::ValueMismatch
    );
    assert_eq!(
        FutexWaitOutcome::from_raw(-125),
        FutexWaitOutcome::Cancelled
    );
    assert_eq!(
        FutexWaitOutcome::from_raw(-22),
        FutexWaitOutcome::Failed(Errno(22))
    );
    assert_eq!(
        FutexWaitOutcome::from_raw(3),
        FutexWaitOutcome::Failed(Errno(-3))
    );

    assert_eq!(
        CancelOutcome::from_raw(2),
        CancelOutcome::Cancelled { count: 2 }
    );
    assert_eq!(CancelOutcome::from_raw(-2), CancelOutcome::NotFound);
    assert_eq!(CancelOutcome::from_raw(-114), CancelOutcome::AlreadyRunning);
    assert_eq!(
        CancelOutcome::from_raw(-22),
        CancelOutcome::Failed(Errno(22))
    );
}

#[test]
fn updates_are_complete_partial_or_failed() {
    let all = Update::from_raw(3, 3);
    assert_eq!(all, Update::All { count: 3 });
    assert!(all.is_complete());
    assert_eq!(all.message(), "3 slots updated");

    let short = Update::from_raw(1, 3);
    assert_eq!(
        short,
        Update::Partial {
            installed: 1,
            requested: 3
        }
    );
    assert!(!short.is_complete());
    assert_eq!(short.installed(), 1);
    assert_eq!(short.message(), "only 1 of 3 slots updated");

    let failed = Update::from_raw(-9, 3);
    assert_eq!(failed, Update::Failed(Errno(9)));
    assert_eq!(failed.installed(), 0);
    assert_eq!(failed.message(), "files_update failed: os error 9");
    assert_eq!(Update::from_raw(5, 3), Update::All { count: 3 });
}

#[test]
fn construction_errors_say_why() {
    assert_eq!(
        PipeError::DestTooSmall { needed: 8, got: 7 }.message(),
        "pipe destination needs 8 bytes, got 7"
    );
    assert_eq!(
        PipeError::DestMisaligned { needed: 4 }.message(),
        "pipe destination must be 4-byte aligned"
    );
    assert_eq!(
        EpollWaitError::StoreTooSmall { needed: 12, got: 1 }.message(),
        "epoll_wait storage needs at least 12 bytes, got 1"
    );
    assert_eq!(
        EpollWaitError::StoreMisaligned { needed: 1 }.message(),
        "epoll_wait storage must be 1-byte aligned"
    );
    assert_eq!(
        FilesUpdateError::StoreTooSmall { needed: 8, got: 4 }.message(),
        "descriptor array needs 8 bytes, got 4"
    );
    assert_eq!(
        FilesUpdateError::StoreMisaligned { needed: 4 }.message(),
        "descriptor array must be 4-byte aligned"
    );
    assert_eq!(
        FilesUpdateError::Empty.message(),
        "a files_update must name at least one slot"
    );
    assert_eq!(
        FutexWaitvError::ArrayTooSmall { needed: 24, got: 8 }.message(),
        "futex_waitv array needs 24 bytes, got 8"
    );
    assert_eq!(
        FutexWaitvError::ArrayMisaligned { needed: 8 }.message(),
        "futex_waitv array must be 8-byte aligned"
    );
    assert_eq!(
        FutexWaitvError::TooManyWaiters { got: 129, max: 128 }.message(),
        "129 waiters exceeds the kernel's limit of 128"
    );
    assert_eq!(
        FutexWaitvError::NoWaiters.message(),
        "futex_waitv needs at least one waiter"
    );
    assert_eq!(
        Openat2Error::HowTooSmall { needed: 24, got: 8 }.message(),
        "open_how storage needs 24 bytes, got 8"
    );
    assert_eq!(
        Openat2Error::HowMisaligned { needed: 8 }.message(),
        "open_how storage must be 8-byte aligned"
    );
    assert_eq!(
        Openat2Error::ModeOutsidePermissionBits { stray: 0o100_000 }.message(),
        "mode sets bits outside 0o7777: 100000"
    );
}

#[test]
fn refusals_have_texts() {
    for text in [
        PathError::NotTerminated.message(),
        PathError::Empty.message(),
        DirectOpenError::CloseOnExec.message(),
        DirectSocketError::CloseOnExec.message(),
    ] {
        assert!(!text.is_empty());
    }
}

#[test]
fn an_update_of_no_slot_is_not_partial() {
    assert_eq!(Update::from_raw(0, 3), Update::Failed(Errno(0)));
    assert_eq!(Update::from_raw(0, 3).installed(), 0);
    assert!(!Update::from_raw(0, 3).is_complete());
    assert_eq!(
        Update::from_raw(1, 3),
        Update::Partial {
            installed: 1,
            requested: 3
        }
    );
    assert_eq!(Update::from_raw(3, 3), Update::All { count: 3 });
    assert_eq!(Update::from_raw(0, 0), Update::All { count: 0 });
}
