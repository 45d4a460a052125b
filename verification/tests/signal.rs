use signal_interner::interner::HashSetInterner;
use signal_interner::signal::{DescriptionError, Signal, SIG_NUM_MAX};

#[test]
fn it_works() {
    let mut interner = HashSetInterner::new();
    let nice = Signal::Abort.description(&mut interner, b"Aborted").unwrap();
    assert_eq!(nice, "Aborted");
}

#[test]
fn num_follows_libc() {
    assert_eq!(Signal::Hangup.num(), libc::SIGHUP);
    assert_eq!(Signal::Interrupt.num(), libc::SIGINT);
    assert_eq!(Signal::Kill.num(), libc::SIGKILL);
    assert_eq!(Signal::Segv.num(), libc::SIGSEGV);
    assert_eq!(Signal::Term.num(), libc::SIGTERM);
    assert_eq!(Signal::Child.num(), libc::SIGCHLD);
    assert_eq!(Signal::Power.num(), libc::SIGPWR);
    assert_eq!(Signal::Sys.num(), libc::SIGSYS);
}

#[test]
fn num_gives_posix_numbers() {
    assert_eq!(Signal::Hangup.num(), 1);
    assert_eq!(Signal::Interrupt.num(), 2);
    assert_eq!(Signal::Quit.num(), 3);
    assert_eq!(Signal::Illegal.num(), 4);
    assert_eq!(Signal::Trap.num(), 5);
    assert_eq!(Signal::Abort.num(), 6);
    assert_eq!(Signal::FloatingPointException.num(), 8);
    assert_eq!(Signal::Kill.num(), 9);
    assert_eq!(Signal::Segv.num(), 11);
    assert_eq!(Signal::Pipe.num(), 13);
    assert_eq!(Signal::Alarm.num(), 14);
    assert_eq!(Signal::Term.num(), 15);
}

#[test]
fn synonyms_share_numbers() {
    assert_eq!(Signal::IOT.num(), Signal::Abort.num());
    assert_eq!(Signal::Poll.num(), Signal::IO.num());
}

#[test]
fn numbers_below_max() {
    let all = [
        Signal::Hangup, Signal::Interrupt, Signal::Quit, Signal::Illegal, Signal::Trap,
        Signal::Abort, Signal::IOT, Signal::Bus, Signal::FloatingPointException, Signal::Kill,
        Signal::User1, Signal::Segv, Signal::User2, Signal::Pipe, Signal::Alarm, Signal::Term,
        Signal::Child, Signal::Continue, Signal::Stop, Signal::TSTP, Signal::TTIN, Signal::TTOU,
        Signal::Urgent, Signal::XCPU, Signal::XFSZ, Signal::VirtualAlarm, Signal::Profiling,
        Signal::Winch, Signal::IO, Signal::Poll, Signal::Power, Signal::Sys,
    ];
    for s in all.iter() {
        assert!(s.num() > 0 && s.num() < SIG_NUM_MAX);
    }
}

#[test]
fn description_interns_text() {
    let mut interner = HashSetInterner::new();
    let a = Signal::Hangup.description(&mut interner, b"Hangup").unwrap();
    let b = Signal::Hangup.description(&mut interner, b"Hangup").unwrap();
    assert_eq!(a, "Hangup");
    assert!(std::ptr::eq(a, b));
}

#[test]
fn description_decodes_utf8() {
    let mut interner = HashSetInterner::new();
    let text = Signal::Term.description(&mut interner, "Beendet \u{e9}".as_bytes()).unwrap();
    assert_eq!(text, "Beendet \u{e9}");
}

#[test]
fn description_rejects_invalid_utf8() {
    let mut interner = HashSetInterner::new();
    let r = Signal::Kill.description(&mut interner, &[0x4b, 0xff, 0x69]);
    match r {
        Err(DescriptionError::NotUtf8(e)) => assert_eq!(e.valid_up_to(), 1),
        Ok(_) => panic!("invalid UTF-8 was accepted"),
    }
}
