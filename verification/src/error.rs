//! Errors, and how a completion's result becomes one.

use crate::text::{signed_decimal, with_signed_decimal};
use vstd::prelude::*;
use vstd::std_specs::convert::FromSpec;
use vstd::string::StringExecFns;

verus! {

/// A raw kernel error number.
///
/// Keeps the number itself, so a value with no name here still round-trips.
#[derive(Clone, Copy, Debug, PartialEq, Eq, Structural)]
pub struct Errno(pub i32);

impl Errno {
    /// Wrap a raw error number.
    #[verifier::allow_in_spec]
    pub fn new(raw: i32) -> Self
        returns
            Errno(raw),
    {
        Errno(raw)
    }

    /// `ENOENT`: no such file or directory.
    #[verifier::allow_in_spec]
    pub fn enoent() -> Self
        returns
            Errno(2),
    {
        Errno(2)
    }

    /// `EAGAIN`: try again.
    #[verifier::allow_in_spec]
    pub fn eagain() -> Self
        returns
            Errno(11),
    {
        Errno(11)
    }

    /// `EINVAL`: invalid argument.
    #[verifier::allow_in_spec]
    pub fn einval() -> Self
        returns
            Errno(22),
    {
        Errno(22)
    }

    /// The error number a negative completion result stands for.
    ///
    /// A completion reports failure as the negated number. Negation wraps,
    /// so the one value without a positive counterpart stays what it is.
    #[verifier::allow_in_spec]
    pub fn from_negated(result: i32) -> Self
        returns
            (if result == i32::MIN {
                Errno(i32::MIN)
            } else {
                Errno((-result) as i32)
            }),
    {
        if result == i32::MIN {
            Errno(i32::MIN)
        } else {
            Errno(-result)
        }
    }

    /// The raw error number.
    #[verifier::allow_in_spec]
    pub fn raw(self) -> i32
        returns
            self.0,
    {
        self.0
    }

    /// What [`message`](Self::message) says.
    pub open spec fn text(self) -> Seq<char> {
        "os error "@ + signed_decimal(self.0 as int)
    }

    /// Every case says what happened, in its own words and with its own numbers.
    pub proof fn texts_say_what_happened(self)
        ensures
            self.text() == "os error "@ + signed_decimal(self.0 as int),
    {
    }

    /// A description for people.
    pub fn message(&self) -> (s: String)
        ensures
            s@ == self.text(),
    {
        with_signed_decimal(String::from_str("os error "), self.0)
    }
}

/// A caller-supplied argument that a setup call refuses.
///
/// These are found before the kernel is involved, so they carry no errno.
#[derive(Clone, Copy, Debug, PartialEq, Eq, Structural)]
pub enum InvalidArgKind {
    /// A buffer count was zero.
    BufferCountZero,
    /// A buffer size was zero.
    BufferSizeZero,
    /// A buffer count was not a power of two.
    BufferCountNotPowerOfTwo,
    /// Rounding a size up to whole pages overflows.
    BufferRingSizeOverflow,
}

impl InvalidArgKind {
    /// What [`message`](Self::message) says.
    pub open spec fn text(self) -> Seq<char> {
        match self {
            InvalidArgKind::BufferCountZero => "buffer count must be non-zero"@,
            InvalidArgKind::BufferSizeZero => "buffer size must be non-zero"@,
            InvalidArgKind::BufferCountNotPowerOfTwo => "buffer count must be a power of two"@,
            InvalidArgKind::BufferRingSizeOverflow => "buffer size overflows"@,
        }
    }

    /// Every case says what happened, in its own words and with its own numbers.
    pub proof fn texts_say_what_happened(self)
        ensures
            self is BufferCountZero ==> self.text() == "buffer count must be non-zero"@,
            self is BufferSizeZero ==> self.text() == "buffer size must be non-zero"@,
            self is BufferCountNotPowerOfTwo ==> self.text()
                == "buffer count must be a power of two"@,
            self is BufferRingSizeOverflow ==> self.text() == "buffer size overflows"@,
    {
    }

    /// A description for people.
    pub fn message(&self) -> (s: String)
        ensures
            s@ == self.text(),
    {
        match *self {
            InvalidArgKind::BufferCountZero => String::from_str("buffer count must be non-zero"),
            InvalidArgKind::BufferSizeZero => String::from_str("buffer size must be non-zero"),
            InvalidArgKind::BufferCountNotPowerOfTwo => String::from_str(
                "buffer count must be a power of two",
            ),
            InvalidArgKind::BufferRingSizeOverflow => String::from_str("buffer size overflows"),
        }
    }
}

/// Why work could not be pushed or submitted.
#[derive(Clone, Copy, Debug, PartialEq, Eq, Structural)]
pub enum SubmitError {
    /// The submission queue is full; drain completions and retry.
    QueueFull,
    /// The kernel refused the submitting call.
    Syscall(Errno),
}

impl SubmitError {
    /// What [`message`](Self::message) says.
    pub open spec fn text(self) -> Seq<char> {
        match self {
            SubmitError::QueueFull => "submission queue is full"@,
            SubmitError::Syscall(e) => "submit syscall failed: "@ + e.text(),
        }
    }

    /// Every case says what happened, in its own words and with its own numbers.
    pub proof fn texts_say_what_happened(self)
        ensures
            self is QueueFull ==> self.text() == "submission queue is full"@,
            self matches SubmitError::Syscall(e) ==> self.text()
                == "submit syscall failed: "@ + e.text(),
    {
    }

    /// A description for people.
    pub fn message(&self) -> (s: String)
        ensures
            s@ == self.text(),
    {
        match *self {
            SubmitError::QueueFull => String::from_str("submission queue is full"),
            SubmitError::Syscall(e) => String::from_str("submit syscall failed: ").concat(
                e.message().as_str(),
            ),
        }
    }
}

/// Why a completion could not be had or reports failure.
#[derive(Clone, Copy, Debug, PartialEq, Eq, Structural)]
pub enum CompletionError {
    /// No completion was available when one was expected.
    NoCompletion,
    /// The completion itself carries a negative error number.
    Failed(Errno),
}

impl CompletionError {
    /// What [`message`](Self::message) says.
    pub open spec fn text(self) -> Seq<char> {
        match self {
            CompletionError::NoCompletion => "no completion available"@,
            CompletionError::Failed(e) => "operation failed: "@ + e.text(),
        }
    }

    /// Every case says what happened, in its own words and with its own numbers.
    pub proof fn texts_say_what_happened(self)
        ensures
            self is NoCompletion ==> self.text() == "no completion available"@,
            self matches CompletionError::Failed(e) ==> self.text()
                == "operation failed: "@ + e.text(),
    {
    }

    /// A description for people.
    pub fn message(&self) -> (s: String)
        ensures
            s@ == self.text(),
    {
        match *self {
            CompletionError::NoCompletion => String::from_str("no completion available"),
            CompletionError::Failed(e) => String::from_str("operation failed: ").concat(
                e.message().as_str(),
            ),
        }
    }
}

/// Why ring resources could not be set up or registered.
#[derive(Clone, Copy, Debug, PartialEq, Eq, Structural)]
pub enum SetupError {
    /// A caller-supplied argument was refused.
    InvalidArg(InvalidArgKind),
    /// The kernel refused a setup call.
    Syscall(Errno),
}

impl SetupError {
    /// What [`message`](Self::message) says.
    pub open spec fn text(self) -> Seq<char> {
        match self {
            SetupError::InvalidArg(k) => "invalid argument: "@ + k.text(),
            SetupError::Syscall(e) => "setup syscall failed: "@ + e.text(),
        }
    }

    /// Every case says what happened, in its own words and with its own numbers.
    pub proof fn texts_say_what_happened(self)
        ensures
            self matches SetupError::InvalidArg(k) ==> self.text()
                == "invalid argument: "@ + k.text(),
            self matches SetupError::Syscall(e) ==> self.text()
                == "setup syscall failed: "@ + e.text(),
    {
    }

    /// A description for people.
    pub fn message(&self) -> (s: String)
        ensures
            s@ == self.text(),
    {
        match *self {
            SetupError::InvalidArg(k) => String::from_str("invalid argument: ").concat(
                k.message().as_str(),
            ),
            SetupError::Syscall(e) => String::from_str("setup syscall failed: ").concat(
                e.message().as_str(),
            ),
        }
    }
}

/// The crate's error: any of the narrower ones, or a plain errno.
#[derive(Clone, Copy, Debug, PartialEq, Eq, Structural)]
pub enum Error {
    /// A submission-side failure.
    Submit(SubmitError),
    /// A completion-side failure.
    Completion(CompletionError),
    /// A setup or registration failure.
    Setup(SetupError),
    /// A helper's system call returned an errno.
    Syscall(Errno),
}

impl Error {
    /// What [`message`](Self::message) says.
    pub open spec fn text(self) -> Seq<char> {
        match self {
            Error::Submit(e) => e.text(),
            Error::Completion(e) => e.text(),
            Error::Setup(e) => e.text(),
            Error::Syscall(e) => "syscall failed: "@ + e.text(),
        }
    }

    /// Every case says what happened, in its own words and with its own numbers.
    pub proof fn texts_say_what_happened(self)
        ensures
            self matches Error::Submit(e) ==> self.text() == e.text(),
            self matches Error::Completion(e) ==> self.text() == e.text(),
            self matches Error::Setup(e) ==> self.text() == e.text(),
            self matches Error::Syscall(e) ==> self.text() == "syscall failed: "@ + e.text(),
    {
    }

    /// A description for people.
    pub fn message(&self) -> (s: String)
        ensures
            s@ == self.text(),
    {
        match *self {
            Error::Submit(e) => e.message(),
            Error::Completion(e) => e.message(),
            Error::Setup(e) => e.message(),
            Error::Syscall(e) => String::from_str("syscall failed: ").concat(
                e.message().as_str(),
            ),
        }
    }

    /// Whether a completion result reports success.
    #[verifier::allow_in_spec]
    pub fn cqe_is_ok(result: i32) -> bool
        returns
            result >= 0,
    {
        result >= 0
    }

    /// The error a completion result stands for, if it reports failure.
    #[verifier::allow_in_spec]
    pub fn from_failed_cqe(result: i32) -> Option<Error>
        returns
            (if result < 0 {
                Some(Error::Completion(CompletionError::Failed(Errno::from_negated(result))))
            } else {
                None
            }),
    {
        if result < 0 {
            Some(Error::Completion(CompletionError::Failed(Errno::from_negated(result))))
        } else {
            None
        }
    }

    /// A completion result as a success or the error it stands for.
    #[verifier::allow_in_spec]
    pub fn status_of(result: i32) -> Result<(), Error>
        returns
            (match Error::from_failed_cqe(result) {
                Some(e) => Err(e),
                None => Ok(()),
            }),
    {
        match Error::from_failed_cqe(result) {
            Some(e) => Err(e),
            None => Ok(()),
        }
    }

    /// A completion result as a count or the error it stands for.
    #[verifier::allow_in_spec]
    pub fn count_of(result: i32) -> Result<u32, Error>
        returns
            (match Error::from_failed_cqe(result) {
                Some(e) => Err(e),
                None => Ok(result as u32),
            }),
    {
        match Error::from_failed_cqe(result) {
            Some(e) => Err(e),
            None => Ok(result as u32),
        }
    }
}

impl From<SubmitError> for Error {
    fn from(e: SubmitError) -> (r: Self) {
        Error::Submit(e)
    }
}

impl vstd::std_specs::convert::FromSpecImpl<SubmitError> for Error {
    open spec fn obeys_from_spec() -> bool {
        true
    }

    open spec fn from_spec(e: SubmitError) -> Self {
        Error::Submit(e)
    }
}

impl From<CompletionError> for Error {
    fn from(e: CompletionError) -> (r: Self) {
        Error::Completion(e)
    }
}

impl vstd::std_specs::convert::FromSpecImpl<CompletionError> for Error {
    open spec fn obeys_from_spec() -> bool {
        true
    }

    open spec fn from_spec(e: CompletionError) -> Self {
        Error::Completion(e)
    }
}

impl From<SetupError> for Error {
    fn from(e: SetupError) -> (r: Self) {
        Error::Setup(e)
    }
}

impl vstd::std_specs::convert::FromSpecImpl<SetupError> for Error {
    open spec fn obeys_from_spec() -> bool {
        true
    }

    open spec fn from_spec(e: SetupError) -> Self {
        Error::Setup(e)
    }
}

impl From<Errno> for Error {
    fn from(e: Errno) -> (r: Self) {
        Error::Syscall(e)
    }
}

impl vstd::std_specs::convert::FromSpecImpl<Errno> for Error {
    open spec fn obeys_from_spec() -> bool {
        true
    }

    open spec fn from_spec(e: Errno) -> Self {
        Error::Syscall(e)
    }
}

/// Error numbers are the kernel's, wrapping keeps them, and negating a result
/// gives back the number it was made from; the one result without a positive
/// counterpart stays what it is.
pub proof fn numbers_are_kept(raw: i32, result: i32)
    ensures
        Errno::new(raw).0 == raw,
        Errno(raw).raw() == raw,
        Errno::enoent().0 == 2,
        Errno::eagain().0 == 11,
        Errno::einval().0 == 22,
        result > -0x8000_0000 ==> Errno::from_negated(result).0 + result == 0,
        result == -0x8000_0000 ==> Errno::from_negated(result).0 == result,
{
}

/// A completion fails exactly where its result is negative. The failure
/// carries the number, and a success keeps the count.
pub proof fn results_are_told_apart(result: i32)
    ensures
        Error::cqe_is_ok(result) <==> 0 <= result,
        Error::from_failed_cqe(result) is Some <==> result < 0,
        Error::status_of(result) is Err <==> result < 0,
        Error::count_of(result) is Err <==> result < 0,
        Error::from_failed_cqe(result) matches Some(e) ==> {
            &&& e matches Error::Completion(CompletionError::Failed(n))
            &&& n.0 == (if result == -0x8000_0000 { result as int } else { 0 - result })
            &&& Error::status_of(result) == Err::<(), Error>(e)
            &&& Error::count_of(result) == Err::<u32, Error>(e)
        },
        Error::count_of(result) matches Ok(n) ==> n == result,
{
}

/// A narrower error becomes the variant that is named after it.
pub proof fn errors_widen(a: SubmitError, b: CompletionError, c: SetupError, d: Errno)
    ensures
        <Error as FromSpec<SubmitError>>::from_spec(a) == Error::Submit(a),
        <Error as FromSpec<CompletionError>>::from_spec(b) == Error::Completion(b),
        <Error as FromSpec<SetupError>>::from_spec(c) == Error::Setup(c),
        <Error as FromSpec<Errno>>::from_spec(d) == Error::Syscall(d),
{
}

} // verus!
