use vstd::prelude::*;
use vstd::utf8::{decode_utf8, valid_utf8};

use crate::interner::{intern, keeps_copies, HashSetInterner, Interned, Interner};

verus! {

/// An enum representing signals on UNIX-like systems.
#[derive(Clone, Copy, Debug, Hash, PartialEq, Eq, Structural)]
pub enum Signal {
    /// Hangup detected on controlling terminal or death of controlling process.
    Hangup,
    /// Interrupt from keyboard.
    Interrupt,
    /// Quit from keyboard.
    Quit,
    /// Illegal instruction.
    Illegal,
    /// Trace/breakpoint trap.
    Trap,
    /// Abort signal from C abort function.
    Abort,
    /// IOT trap. A synonym for SIGABRT.
    IOT,
    /// Bus error (bad memory access).
    Bus,
    /// Floating point exception.
    FloatingPointException,
    /// Kill signal.
    Kill,
    /// User-defined signal 1.
    User1,
    /// Invalid memory reference.
    Segv,
    /// User-defined signal 2.
    User2,
    /// Broken pipe: write to pipe with no readers.
    Pipe,
    /// Timer signal from C alarm function.
    Alarm,
    /// Termination signal.
    Term,
    /// Child stopped or terminated.
    Child,
    /// Continue if stopped.
    Continue,
    /// Stop process.
    Stop,
    /// Stop typed at terminal.
    TSTP,
    /// Terminal input for background process.
    TTIN,
    /// Terminal output for background process.
    TTOU,
    /// Urgent condition on socket.
    Urgent,
    /// CPU time limit exceeded.
    XCPU,
    /// File size limit exceeded.
    XFSZ,
    /// Virtual alarm clock.
    VirtualAlarm,
    /// Profiling time expired.
    Profiling,
    /// Windows resize signal.
    Winch,
    /// I/O now possible.
    IO,
    /// Pollable event (Sys V). Synonym for IO
    Poll,
    /// Power failure (System V).
    ///
    /// Doesn't exist on apple systems so will be ignored.
    Power,
    /// Bad argument to routine (SVr4).
    Sys,
}

/// The number by which the operating system knows a signal.
pub type SigNum = libc::c_int;

/// A bound that every signal number of `Signal` stays below.
pub const SIG_NUM_MAX: SigNum = 64;

/// The number that POSIX fixes for a signal, for the signals whose number
/// is the same on every system.
pub open spec fn posix_signal_number(signal: Signal) -> Option<int> {
    match signal {
        Signal::Hangup => Some(1),
        Signal::Interrupt => Some(2),
        Signal::Quit => Some(3),
        Signal::Illegal => Some(4),
        Signal::Trap => Some(5),
        Signal::Abort => Some(6),
        Signal::IOT => Some(6),
        Signal::FloatingPointException => Some(8),
        Signal::Kill => Some(9),
        Signal::Segv => Some(11),
        Signal::Pipe => Some(13),
        Signal::Alarm => Some(14),
        Signal::Term => Some(15),
        _ => None,
    }
}

/// Two signals with a POSIX-fixed number share it only when they are the
/// same signal or the synonyms `Abort` and `IOT`.
pub proof fn law_posix_numbers_distinct(a: Signal, b: Signal)
    requires
        posix_signal_number(a) is Some,
        posix_signal_number(a) == posix_signal_number(b),
    ensures
        a == b || (a == Signal::Abort && b == Signal::IOT) || (a == Signal::IOT && b == Signal::Abort),
{
}

/// Describing signals twice from equal text hands out the same interned copy
/// both times, whatever was described or interned in between: the first
/// description's copy stays the interner's copy for that text, and the
/// second description is the interner's copy.
pub proof fn law_description_same_copy(
    after_first: HashSetInterner<String>,
    later: HashSetInterner<String>,
    first: String,
    second: String,
)
    requires
        first@ == second@,
        after_first.interned().contains(first@),
        first == after_first.interned_copy(first@),
        keeps_copies::<String, HashSetInterner<String>>(after_first, later),
        later.interned().contains(second@) ==> second == later.interned_copy(second@),
    ensures
        second == first,
{
    assert(after_first.interned().contains(first@));
}

/// The number that the `libc` crate gives for a signal on the target system.
pub uninterp spec fn libc_signal_number(signal: Signal) -> SigNum;

/// `libc::SIGHUP`: the number of the signal `Signal::Hangup`, which is above 0 and
/// below `SIG_NUM_MAX` on every system that defines all these signals;
/// it is 1 on each of them.
#[verifier::external_body]
fn libc_sighup() -> (n: SigNum)
    ensures
        n == libc_signal_number(Signal::Hangup),
        0 < n < SIG_NUM_MAX,
        n == 1,
{
    libc::SIGHUP
}

/// `libc::SIGINT`: the number of the signal `Signal::Interrupt`, which is above 0 and
/// below `SIG_NUM_MAX` on every system that defines all these signals;
/// it is 2 on each of them.
#[verifier::external_body]
fn libc_sigint() -> (n: SigNum)
    ensures
        n == libc_signal_number(Signal::Interrupt),
        0 < n < SIG_NUM_MAX,
        n == 2,
{
    libc::SIGINT
}

/// `libc::SIGQUIT`: the number of the signal `Signal::Quit`, which is above 0 and
/// below `SIG_NUM_MAX` on every system that defines all these signals;
/// it is 3 on each of them.
#[verifier::external_body]
fn libc_sigquit() -> (n: SigNum)
    ensures
        n == libc_signal_number(Signal::Quit),
        0 < n < SIG_NUM_MAX,
        n == 3,
{
    libc::SIGQUIT
}

/// `libc::SIGILL`: the number of the signal `Signal::Illegal`, which is above 0 and
/// below `SIG_NUM_MAX` on every system that defines all these signals;
/// it is 4 on each of them.
#[verifier::external_body]
fn libc_sigill() -> (n: SigNum)
    ensures
        n == libc_signal_number(Signal::Illegal),
        0 < n < SIG_NUM_MAX,
        n == 4,
{
    libc::SIGILL
}

/// `libc::SIGTRAP`: the number of the signal `Signal::Trap`, which is above 0 and
/// below `SIG_NUM_MAX` on every system that defines all these signals;
/// it is 5 on each of them.
#[verifier::external_body]
fn libc_sigtrap() -> (n: SigNum)
    ensures
        n == libc_signal_number(Signal::Trap),
        0 < n < SIG_NUM_MAX,
        n == 5,
{
    libc::SIGTRAP
}

/// `libc::SIGABRT`: the number of the signal `Signal::Abort`, which is above 0 and
/// below `SIG_NUM_MAX` on every system that defines all these signals;
/// it is 6 on each of them.
#[verifier::external_body]
fn libc_sigabrt() -> (n: SigNum)
    ensures
        n == libc_signal_number(Signal::Abort),
        0 < n < SIG_NUM_MAX,
        n == 6,
{
    libc::SIGABRT
}

/// `libc::SIGIOT`: the number of the signal `Signal::IOT`, which is above 0 and
/// below `SIG_NUM_MAX` on every system that defines all these signals;
/// it is 6 on each of them, the same number as `SIGABRT`.
#[verifier::external_body]
fn libc_sigiot() -> (n: SigNum)
    ensures
        n == libc_signal_number(Signal::IOT),
        n == libc_signal_number(Signal::Abort),
        0 < n < SIG_NUM_MAX,
        n == 6,
{
    libc::SIGIOT
}

/// `libc::SIGBUS`: the number of the signal `Signal::Bus`, which is above 0 and
/// below `SIG_NUM_MAX` on every system that defines all these signals.
#[verifier::external_body]
fn libc_sigbus() -> (n: SigNum)
    ensures
        n == libc_signal_number(Signal::Bus),
        0 < n < SIG_NUM_MAX,
{
    libc::SIGBUS
}

/// `libc::SIGFPE`: the number of the signal `Signal::FloatingPointException`, which is above 0 and
/// below `SIG_NUM_MAX` on every system that defines all these signals;
/// it is 8 on each of them.
#[verifier::external_body]
fn libc_sigfpe() -> (n: SigNum)
    ensures
        n == libc_signal_number(Signal::FloatingPointException),
        0 < n < SIG_NUM_MAX,
        n == 8,
{
    libc::SIGFPE
}

/// `libc::SIGKILL`: the number of the signal `Signal::Kill`, which is above 0 and
/// below `SIG_NUM_MAX` on every system that defines all these signals;
/// it is 9 on each of them.
#[verifier::external_body]
fn libc_sigkill() -> (n: SigNum)
    ensures
        n == libc_signal_number(Signal::Kill),
        0 < n < SIG_NUM_MAX,
        n == 9,
{
    libc::SIGKILL
}

/// `libc::SIGUSR1`: the number of the signal `Signal::User1`, which is above 0 and
/// below `SIG_NUM_MAX` on every system that defines all these signals.
#[verifier::external_body]
fn libc_sigusr1() -> (n: SigNum)
    ensures
        n == libc_signal_number(Signal::User1),
        0 < n < SIG_NUM_MAX,
{
    libc::SIGUSR1
}

/// `libc::SIGSEGV`: the number of the signal `Signal::Segv`, which is above 0 and
/// below `SIG_NUM_MAX` on every system that defines all these signals;
/// it is 11 on each of them.
#[verifier::external_body]
fn libc_sigsegv() -> (n: SigNum)
    ensures
        n == libc_signal_number(Signal::Segv),
        0 < n < SIG_NUM_MAX,
        n == 11,
{
    libc::SIGSEGV
}

/// `libc::SIGUSR2`: the number of the signal `Signal::User2`, which is above 0 and
/// below `SIG_NUM_MAX` on every system that defines all these signals.
#[verifier::external_body]
fn libc_sigusr2() -> (n: SigNum)
    ensures
        n == libc_signal_number(Signal::User2),
        0 < n < SIG_NUM_MAX,
{
    libc::SIGUSR2
}

/// `libc::SIGPIPE`: the number of the signal `Signal::Pipe`, which is above 0 and
/// below `SIG_NUM_MAX` on every system that defines all these signals;
/// it is 13 on each of them.
#[verifier::external_body]
fn libc_sigpipe() -> (n: SigNum)
    ensures
        n == libc_signal_number(Signal::Pipe),
        0 < n < SIG_NUM_MAX,
        n == 13,
{
    libc::SIGPIPE
}

/// `libc::SIGALRM`: the number of the signal `Signal::Alarm`, which is above 0 and
/// below `SIG_NUM_MAX` on every system that defines all these signals;
/// it is 14 on each of them.
#[verifier::external_body]
fn libc_sigalrm() -> (n: SigNum)
    ensures
        n == libc_signal_number(Signal::Alarm),
        0 < n < SIG_NUM_MAX,
        n == 14,
{
    libc::SIGALRM
}

/// `libc::SIGTERM`: the number of the signal `Signal::Term`, which is above 0 and
/// below `SIG_NUM_MAX` on every system that defines all these signals;
/// it is 15 on each of them.
#[verifier::external_body]
fn libc_sigterm() -> (n: SigNum)
    ensures
        n == libc_signal_number(Signal::Term),
        0 < n < SIG_NUM_MAX,
        n == 15,
{
    libc::SIGTERM
}

/// `libc::SIGCHLD`: the number of the signal `Signal::Child`, which is above 0 and
/// below `SIG_NUM_MAX` on every system that defines all these signals.
#[verifier::external_body]
fn libc_sigchld() -> (n: SigNum)
    ensures
        n == libc_signal_number(Signal::Child),
        0 < n < SIG_NUM_MAX,
{
    libc::SIGCHLD
}

/// `libc::SIGCONT`: the number of the signal `Signal::Continue`, which is above 0 and
/// below `SIG_NUM_MAX` on every system that defines all these signals.
#[verifier::external_body]
fn libc_sigcont() -> (n: SigNum)
    ensures
        n == libc_signal_number(Signal::Continue),
        0 < n < SIG_NUM_MAX,
{
    libc::SIGCONT
}

/// `libc::SIGSTOP`: the number of the signal `Signal::Stop`, which is above 0 and
/// below `SIG_NUM_MAX` on every system that defines all these signals.
#[verifier::external_body]
fn libc_sigstop() -> (n: SigNum)
    ensures
        n == libc_signal_number(Signal::Stop),
        0 < n < SIG_NUM_MAX,
{
    libc::SIGSTOP
}

/// `libc::SIGTSTP`: the number of the signal `Signal::TSTP`, which is above 0 and
/// below `SIG_NUM_MAX` on every system that defines all these signals.
#[verifier::external_body]
fn libc_sigtstp() -> (n: SigNum)
    ensures
        n == libc_signal_number(Signal::TSTP),
        0 < n < SIG_NUM_MAX,
{
    libc::SIGTSTP
}

/// `libc::SIGTTIN`: the number of the signal `Signal::TTIN`, which is above 0 and
/// below `SIG_NUM_MAX` on every system that defines all these signals.
#[verifier::external_body]
fn libc_sigttin() -> (n: SigNum)
    ensures
        n == libc_signal_number(Signal::TTIN),
        0 < n < SIG_NUM_MAX,
{
    libc::SIGTTIN
}

/// `libc::SIGTTOU`: the number of the signal `Signal::TTOU`, which is above 0 and
/// below `SIG_NUM_MAX` on every system that defines all these signals.
#[verifier::external_body]
fn libc_sigttou() -> (n: SigNum)
    ensures
        n == libc_signal_number(Signal::TTOU),
        0 < n < SIG_NUM_MAX,
{
    libc::SIGTTOU
}

/// `libc::SIGURG`: the number of the signal `Signal::Urgent`, which is above 0 and
/// below `SIG_NUM_MAX` on every system that defines all these signals.
#[verifier::external_body]
fn libc_sigurg() -> (n: SigNum)
    ensures
        n == libc_signal_number(Signal::Urgent),
        0 < n < SIG_NUM_MAX,
{
    libc::SIGURG
}

/// `libc::SIGXCPU`: the number of the signal `Signal::XCPU`, which is above 0 and
/// below `SIG_NUM_MAX` on every system that defines all these signals.
#[verifier::external_body]
fn libc_sigxcpu() -> (n: SigNum)
    ensures
        n == libc_signal_number(Signal::XCPU),
        0 < n < SIG_NUM_MAX,
{
    libc::SIGXCPU
}

/// `libc::SIGXFSZ`: the number of the signal `Signal::XFSZ`, which is above 0 and
/// below `SIG_NUM_MAX` on every system that defines all these signals.
#[verifier::external_body]
fn libc_sigxfsz() -> (n: SigNum)
    ensures
        n == libc_signal_number(Signal::XFSZ),
        0 < n < SIG_NUM_MAX,
{
    libc::SIGXFSZ
}

/// `libc::SIGVTALRM`: the number of the signal `Signal::VirtualAlarm`, which is above 0 and
/// below `SIG_NUM_MAX` on every system that defines all these signals.
#[verifier::external_body]
fn libc_sigvtalrm() -> (n: SigNum)
    ensures
        n == libc_signal_number(Signal::VirtualAlarm),
        0 < n < SIG_NUM_MAX,
{
    libc::SIGVTALRM
}

/// `libc::SIGPROF`: the number of the signal `Signal::Profiling`, which is above 0 and
/// below `SIG_NUM_MAX` on every system that defines all these signals.
#[verifier::external_body]
fn libc_sigprof() -> (n: SigNum)
    ensures
        n == libc_signal_number(Signal::Profiling),
        0 < n < SIG_NUM_MAX,
{
    libc::SIGPROF
}

/// `libc::SIGWINCH`: the number of the signal `Signal::Winch`, which is above 0 and
/// below `SIG_NUM_MAX` on every system that defines all these signals.
#[verifier::external_body]
fn libc_sigwinch() -> (n: SigNum)
    ensures
        n == libc_signal_number(Signal::Winch),
        0 < n < SIG_NUM_MAX,
{
    libc::SIGWINCH
}

/// `libc::SIGIO`: the number of the signal `Signal::IO`, which is above 0 and
/// below `SIG_NUM_MAX` on every system that defines all these signals.
#[verifier::external_body]
fn libc_sigio() -> (n: SigNum)
    ensures
        n == libc_signal_number(Signal::IO),
        0 < n < SIG_NUM_MAX,
{
    libc::SIGIO
}

/// `libc::SIGPOLL`: the number of the signal `Signal::Poll`, which is above 0 and
/// below `SIG_NUM_MAX` on every system that defines all these signals;
/// it is the same number as `SIGIO`.
#[verifier::external_body]
fn libc_sigpoll() -> (n: SigNum)
    ensures
        n == libc_signal_number(Signal::Poll),
        n == libc_signal_number(Signal::IO),
        0 < n < SIG_NUM_MAX,
{
    libc::SIGPOLL
}

/// `libc::SIGPWR`: the number of the signal `Signal::Power`, which is above 0 and
/// below `SIG_NUM_MAX` on every system that defines all these signals.
#[verifier::external_body]
fn libc_sigpwr() -> (n: SigNum)
    ensures
        n == libc_signal_number(Signal::Power),
        0 < n < SIG_NUM_MAX,
{
    libc::SIGPWR
}

/// `libc::SIGSYS`: the number of the signal `Signal::Sys`, which is above 0 and
/// below `SIG_NUM_MAX` on every system that defines all these signals.
#[verifier::external_body]
fn libc_sigsys() -> (n: SigNum)
    ensures
        n == libc_signal_number(Signal::Sys),
        0 < n < SIG_NUM_MAX,
{
    libc::SIGSYS
}

/// Why the text for a signal could not be used.
#[derive(Clone, Copy, Debug, PartialEq, Eq)]
pub enum DescriptionError {
    /// The text is not valid UTF-8; the error that reading it as UTF-8 gave.
    NotUtf8(std::str::Utf8Error),
}

#[verifier::external_type_specification]
#[verifier::external_body]
pub struct ExUtf8Error(std::str::Utf8Error);

/// Reads `bytes` as UTF-8 text (`std::str::from_utf8`): it fails exactly when
/// they are not valid UTF-8, and otherwise gives the characters they encode.
#[verifier::external_body]
fn utf8_text(bytes: &[u8]) -> (r: Result<&str, std::str::Utf8Error>)
    ensures
        r is Ok <==> valid_utf8(bytes@),
        r matches Ok(text) ==> text@ == decode_utf8(bytes@),
{
    std::str::from_utf8(bytes)
}

impl Signal {
    /// The description of this signal, from the text that the operating
    /// system gives for it (`os_text`, the bytes of the C string that
    /// `strsignal` returns for `self.num()`), interned in `interner`.
    pub fn description(&self, interner: &mut HashSetInterner<String>, os_text: &[u8]) -> (r: Result<
        Interned<String>,
        DescriptionError,
    >)
        ensures
            r is Ok <==> valid_utf8(os_text@),
            r matches Ok(text) ==> {
                &&& text@ == decode_utf8(os_text@)
                &&& final(interner).interned() == old(interner).interned().insert(text@)
                &&& *text == final(interner).interned_copy(text@)
                &&& old(interner).interned().contains(text@) ==> *text == old(interner).interned_copy(
                    text@,
                )
                &&& forall|content: Seq<char>|
                    old(interner).interned().contains(content)
                        ==> #[trigger] final(interner).interned_copy(content)
                        == old(interner).interned_copy(content)
            },
            r is Err ==> {
                &&& r matches Err(DescriptionError::NotUtf8(_))
                &&& final(interner).interned() == old(interner).interned()
                &&& *final(interner) == *old(interner)
            },
    {
        let text = match utf8_text(os_text) {
            Ok(text) => text,
            Err(e) => return Err(DescriptionError::NotUtf8(e)),
        };
        let owned = text.to_owned();
        let interned = intern(interner, owned);
        Ok(interned)
    }

    /// The number by which the operating system knows this signal.
    pub fn num(&self) -> (r: SigNum)
        ensures
            r == libc_signal_number(*self),
            0 < r < SIG_NUM_MAX,
            posix_signal_number(*self) matches Some(n) ==> r == n,
            *self == Signal::IOT ==> r == libc_signal_number(Signal::Abort),
            *self == Signal::Poll ==> r == libc_signal_number(Signal::IO),
    {
        match self {
            Signal::Hangup => libc_sighup(),
            Signal::Interrupt => libc_sigint(),
            Signal::Quit => libc_sigquit(),
            Signal::Illegal => libc_sigill(),
            Signal::Trap => libc_sigtrap(),
            Signal::Abort => libc_sigabrt(),
            Signal::IOT => libc_sigiot(),
            Signal::Bus => libc_sigbus(),
            Signal::FloatingPointException => libc_sigfpe(),
            Signal::Kill => libc_sigkill(),
            Signal::User1 => libc_sigusr1(),
            Signal::Segv => libc_sigsegv(),
            Signal::User2 => libc_sigusr2(),
            Signal::Pipe => libc_sigpipe(),
            Signal::Alarm => libc_sigalrm(),
            Signal::Term => libc_sigterm(),
            Signal::Child => libc_sigchld(),
            Signal::Continue => libc_sigcont(),
            Signal::Stop => libc_sigstop(),
            Signal::TSTP => libc_sigtstp(),
            Signal::TTIN => libc_sigttin(),
            Signal::TTOU => libc_sigttou(),
            Signal::Urgent => libc_sigurg(),
            Signal::XCPU => libc_sigxcpu(),
            Signal::XFSZ => libc_sigxfsz(),
            Signal::VirtualAlarm => libc_sigvtalrm(),
            Signal::Profiling => libc_sigprof(),
            Signal::Winch => libc_sigwinch(),
            Signal::IO => libc_sigio(),
            Signal::Poll => libc_sigpoll(),
            Signal::Power => libc_sigpwr(),
            Signal::Sys => libc_sigsys(),
        }
    }
}

} // verus!
