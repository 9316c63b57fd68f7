use vstd::prelude::*;
use vstd::string::StringExecFns;

use crate::req::ascii_string;

verus! {

#[verifier::external_type_specification]
pub struct ExErrno(nix::errno::Errno);

#[verifier::external_type_specification]
#[verifier::external_body]
pub struct ExIoError(std::io::Error);

/// Everything that can go wrong while configuring or driving a device.
#[derive(Debug)]
pub enum Error {
    /// A system call failed with the given error number.
    Unix { source: nix::errno::Errno },
    /// The configuration call returned an unexpected positive status.
    UnixIoctl(i32),
    /// A filesystem path could not be opened.
    FS { path: String, source: std::io::Error },
    /// Any other input/output failure.
    IO { source: std::io::Error },
    /// The queue index is out of range for the device.
    InvalidQueue(usize),
    /// A device needs at least one queue.
    InvalidNumQueues,
    /// The interface name is empty or not ASCII.
    InvalidName { name: String, max_size: usize },
    /// The queue's descriptor was already closed.
    QueueClosed,
}

/// Result type of this library.
pub type Result<T> = core::result::Result<T, Error>;

impl Error {
    /// The error number the calling thread saw last, as an error.
    pub fn errno() -> (r: Self)
        ensures
            r matches Error::Unix { .. },
    {
        Error::Unix { source: last_errno() }
    }

    /// The operation could not go on without blocking: the only condition
    /// that readiness-driven I/O retries.
    pub fn is_would_block(&self) -> (r: bool)
        ensures
            r == (self matches Error::Unix { source } && source == nix::errno::Errno::EAGAIN),
    {
        match self {
            Error::Unix { source } => match source {
                nix::errno::Errno::EAGAIN => true,
                _ => false,
            },
            _ => false,
        }
    }
}

/// The decimal digits of `n`, most significant first.
pub open spec fn digits_of(n: nat) -> Seq<char>
    decreases n,
{
    if n < 10 {
        seq![((n + 48) as u8) as char]
    } else {
        digits_of(n / 10) + seq![(((n % 10) + 48) as u8) as char]
    }
}

/// The decimal text of `n`, with a leading `-` when it is negative.
pub open spec fn decimal_of(n: int) -> Seq<char> {
    if n < 0 {
        seq!['-'] + digits_of((-n) as nat)
    } else {
        digits_of(n as nat)
    }
}

impl Error {
    /// A sentence describing the error.
    pub fn message(&self) -> (r: String)
        ensures
            self matches Error::InvalidQueue(i) ==> r@ == "invalid queue descriptor specified '"@
                + digits_of(i as nat) + "' is out of range"@,
            self matches Error::UnixIoctl(c) ==> r@ == "ioctl failed with unexpected return code: got '"@
                + decimal_of(c as int) + "'"@,
            self is InvalidNumQueues ==> r@ == "invalid number of queues specified must be greater than 0"@,
            self matches Error::InvalidName { name, max_size } ==> r@ == "invalid device name '"@ + name@
                + "' is either longer than "@ + digits_of(max_size as nat)
                + "B or the encoding is invalid"@,
            self is QueueClosed ==> r@ == "queue descriptor is already closed"@,
            self is IO ==> r@ == "input/output operation failed"@,
    {
        match self {
            Error::Unix { source } => String::from_str("fatal unix error encountered: ").concat(
                errno_text(*source).as_str(),
            ),
            Error::UnixIoctl(code) => String::from_str(
                "ioctl failed with unexpected return code: got '",
            ).concat(signed_text(*code).as_str()).concat("'"),
            Error::FS { path, source } => String::from_str("filesystem operation failed on '").concat(
                path.as_str(),
            ).concat("': ").concat(io_error_text(source).as_str()),
            Error::IO { .. } => String::from_str("input/output operation failed"),
            Error::InvalidQueue(index) => String::from_str("invalid queue descriptor specified '").concat(
                unsigned_text(*index as u64).as_str(),
            ).concat("' is out of range"),
            Error::InvalidNumQueues => String::from_str(
                "invalid number of queues specified must be greater than 0",
            ),
            Error::InvalidName { name, max_size } => String::from_str("invalid device name '").concat(
                name.as_str(),
            ).concat("' is either longer than ").concat(
                unsigned_text(*max_size as u64).as_str(),
            ).concat("B or the encoding is invalid"),
            Error::QueueClosed => String::from_str("queue descriptor is already closed"),
        }
    }

    /// The equivalent `std::io::Error`: I/O errors are handed on as they
    /// are, an error number keeps its code, and every other error becomes an
    /// `Other` error carrying its message.
    pub fn into_io(self) -> (r: std::io::Error)
        ensures
            self matches Error::FS { source, .. } ==> r == source,
            self matches Error::IO { source } ==> r == source,
    {
        match self {
            Error::FS { source, .. } => source,
            Error::IO { source } => source,
            Error::Unix { source } => io_error_from_errno(source),
            other => io_error_other(other.message()),
        }
    }
}

/// Append the decimal digits of `n` to `out`, as ASCII bytes.
fn push_digits(n: u64, out: &mut Vec<u8>)
    ensures
        final(out)@.map_values(|b: u8| b as char) == old(out)@.map_values(|b: u8| b as char) + digits_of(
            n as nat,
        ),
        forall|j: int| 0 <= j < old(out)@.len() ==> final(out)@[j] == old(out)@[j],
        final(out)@.len() >= old(out)@.len(),
        forall|j: int| old(out)@.len() <= j < final(out)@.len() ==> #[trigger] final(out)@[j] < 128,
    decreases n,
{
    let ghost start = out@;
    if n >= 10 {
        push_digits(n / 10, out);
    }
    let ghost mid = out@;
    out.push((n % 10) as u8 + 48);
    proof {
        assert(out@.map_values(|b: u8| b as char) =~= mid.map_values(|b: u8| b as char) + seq![
            (((n % 10) + 48) as u8) as char,
        ]);
        if n >= 10 {
            assert(digits_of(n as nat) == digits_of((n / 10) as nat) + seq![
                ((((n as nat) % 10) + 48) as u8) as char,
            ]);
        } else {
            assert(mid =~= start);
        }
        assert(out@.map_values(|b: u8| b as char) =~= start.map_values(|b: u8| b as char) + digits_of(
            n as nat,
        ));
    }
}

/// The decimal text of `n`.
fn unsigned_text(n: u64) -> (r: String)
    ensures
        r@ == digits_of(n as nat),
{
    let mut out: Vec<u8> = Vec::new();
    push_digits(n, &mut out);
    assert(Seq::<u8>::empty().map_values(|b: u8| b as char) =~= Seq::<char>::empty());
    assert(out@.map_values(|b: u8| b as char) =~= digits_of(n as nat));
    ascii_string(out)
}

/// The decimal text of `n`, with a leading `-` when it is negative.
fn signed_text(n: i32) -> (r: String)
    ensures
        r@ == decimal_of(n as int),
{
    let mut out: Vec<u8> = Vec::new();
    if n < 0 {
        out.push(45u8);
        push_digits((0 - (n as i64)) as u64, &mut out);
        assert(seq![45u8].map_values(|b: u8| b as char) =~= seq!['-']);
    } else {
        push_digits(n as u64, &mut out);
        assert(Seq::<u8>::empty().map_values(|b: u8| b as char) =~= Seq::<char>::empty());
    }
    assert(out@.map_values(|b: u8| b as char) =~= decimal_of(n as int));
    ascii_string(out)
}

/// Relies on the `Display` impl of `nix::errno::Errno`: its name and description.
#[verifier::external_body]
fn errno_text(e: nix::errno::Errno) -> String {
    e.to_string()
}

/// Relies on the `Display` impl of `std::io::Error`.
#[verifier::external_body]
fn io_error_text(e: &std::io::Error) -> String {
    e.to_string()
}

/// Relies on `nix`'s `From<Errno> for std::io::Error`: the same OS error code.
#[verifier::external_body]
fn io_error_from_errno(e: nix::errno::Errno) -> std::io::Error {
    std::io::Error::from(e)
}

/// Relies on `std::io::Error::new` with `ErrorKind::Other`.
#[verifier::external_body]
fn io_error_other(message: String) -> std::io::Error {
    std::io::Error::new(std::io::ErrorKind::Other, message)
}

/// Relies on `nix::errno::Errno::last`: the thread's current error number.
#[verifier::external_body]
fn last_errno() -> nix::errno::Errno {
    nix::errno::Errno::last()
}

} // verus!
