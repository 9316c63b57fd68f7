use vstd::prelude::*;

use crate::error::{Error, Result};
use crate::flags::status_flags_update;

verus! {

/// Path of the control device that hands out TUN queues.
pub const CONTROL_PATH: &'static str = "/dev/net/tun";

/// One TUN queue: owns a single kernel descriptor until it is closed.
#[derive(Debug)]
pub struct Queue {
    fd: Option<i32>,
}

impl Queue {
    /// The descriptor this queue owns, or `None` once it is closed.
    pub closed spec fn descriptor(&self) -> Option<i32> {
        self.fd
    }

    /// The queue still owns its descriptor.
    pub open spec fn is_open(&self) -> bool {
        self.descriptor() is Some
    }

    /// Open the control device read-write; the first half of the kernel
    /// handshake that creates a queue.
    pub fn open_control() -> (r: Result<i32>)
        ensures
            r matches Ok(fd) ==> fd >= 0,
            r matches Err(e) ==> e matches Error::FS { path, .. } && path@ == CONTROL_PATH@,
    {
        match open_read_write(CONTROL_PATH) {
            Ok(fd) => Ok(fd),
            Err(source) => Err(Error::FS { path: CONTROL_PATH.to_owned(), source }),
        }
    }

    /// The second half of the handshake: given the control descriptor `fd`
    /// and what the configuration call reported on it, make the queue or
    /// release the descriptor and report why.
    pub fn configure(fd: i32, status: core::result::Result<i32, nix::errno::Errno>) -> (r: Result<
        Queue,
    >)
        requires
            fd >= 0,
        ensures
            match status {
                Ok(code) => if code >= 1 {
                    r == Err::<Queue, Error>(Error::UnixIoctl(code))
                } else {
                    r matches Ok(q) && q.descriptor() == Some(fd)
                },
                Err(e) => r == Err::<Queue, Error>(Error::Unix { source: e }),
            },
    {
        match status {
            Ok(code) => {
                if code >= 1 {
                    let _ = close_descriptor(fd);
                    Err(Error::UnixIoctl(code))
                } else {
                    Ok(Queue { fd: Some(fd) })
                }
            },
            Err(e) => {
                let _ = close_descriptor(fd);
                Err(Error::Unix { source: e })
            },
        }
    }

    /// The owned descriptor, for registering with a reactor.
    pub fn as_raw_fd(&self) -> (r: Option<i32>)
        ensures
            r == self.descriptor(),
    {
        self.fd
    }

    /// Close the descriptor. The queue is closed afterwards whatever the
    /// kernel reported, so the descriptor is released exactly once; a second
    /// call is reported as `QueueClosed` and touches nothing.
    pub fn close(&mut self) -> (r: Result<()>)
        ensures
            !final(self).is_open(),
            !old(self).is_open() ==> r == Err::<(), Error>(Error::QueueClosed),
            old(self).is_open() ==> r is Ok || r matches Err(Error::Unix { .. }),
    {
        match self.fd {
            None => Err(Error::QueueClosed),
            Some(fd) => {
                self.fd = None;
                match close_descriptor(fd) {
                    Ok(()) => Ok(()),
                    Err(e) => Err(Error::Unix { source: e }),
                }
            },
        }
    }

    /// Turn non-blocking mode on or off. The status flags are written back
    /// only when the mode actually changes.
    pub fn set_non_blocking(&self, on: bool) -> (r: Result<()>)
        ensures
            !self.is_open() ==> r == Err::<(), Error>(Error::QueueClosed),
            self.is_open() ==> r is Ok || r matches Err(Error::Unix { .. }),
    {
        let fd = match self.fd {
            None => return Err(Error::QueueClosed),
            Some(fd) => fd,
        };
        let current = match get_status_flags(fd) {
            Ok(flags) => flags,
            Err(e) => return Err(Error::Unix { source: e }),
        };
        match status_flags_update(current, non_blocking_flag(), on) {
            None => Ok(()),
            Some(flags) => match set_status_flags(fd, flags) {
                Ok(()) => Ok(()),
                Err(e) => Err(Error::Unix { source: e }),
            },
        }
    }

    /// Write one datagram in a single call; the count written is returned,
    /// and a would-block condition comes back as an error.
    pub fn send(&self, datagram: &[u8]) -> (r: Result<usize>)
        ensures
            !self.is_open() ==> r == Err::<usize, Error>(Error::QueueClosed),
            self.is_open() ==> r is Ok || r matches Err(Error::Unix { .. }),
            r matches Ok(n) ==> n <= datagram@.len(),
    {
        match self.fd {
            None => Err(Error::QueueClosed),
            Some(fd) => match write_descriptor(fd, datagram) {
                Ok(n) => Ok(n),
                Err(e) => Err(Error::Unix { source: e }),
            },
        }
    }

    /// Read one datagram into `datagram` in a single call; the count read is
    /// returned, and a would-block condition comes back as an error.
    pub fn recv(&self, datagram: &mut [u8]) -> (r: Result<usize>)
        ensures
            final(datagram)@.len() == old(datagram)@.len(),
            !self.is_open() ==> r == Err::<usize, Error>(Error::QueueClosed) && final(datagram)@
                == old(datagram)@,
            self.is_open() ==> r is Ok || r matches Err(Error::Unix { .. }),
            r matches Ok(n) ==> n <= old(datagram)@.len(),
    {
        match self.fd {
            None => Err(Error::QueueClosed),
            Some(fd) => match read_descriptor(fd, datagram) {
                Ok(n) => Ok(n),
                Err(e) => Err(Error::Unix { source: e }),
            },
        }
    }
}

impl Drop for Queue {
    /// A queue that goes out of scope still open releases its descriptor.
    fn drop(&mut self)
        opens_invariants none
        no_unwind
    {
        match self.fd {
            Some(fd) => {
                self.fd = None;
                let _ = close_descriptor(fd);
            },
            None => {},
        }
    }
}

/// Relies on `nix::fcntl::open`: a descriptor it returns is non-negative
/// (open(2)); a failure is converted to `std::io::Error`.
#[verifier::external_body]
fn open_read_write(path: &str) -> (r: core::result::Result<i32, std::io::Error>)
    ensures
        r matches Ok(fd) ==> fd >= 0,
{
    nix::fcntl::open(path, nix::fcntl::OFlag::O_RDWR, nix::sys::stat::Mode::empty()).map_err(
        std::io::Error::from,
    )
}

/// Relies on `nix::unistd::close`, which neither panics nor touches any
/// invariant.
#[verifier::external_body]
fn close_descriptor(fd: i32) -> core::result::Result<(), nix::errno::Errno>
    opens_invariants none
    no_unwind
{
    nix::unistd::close(fd)
}

/// Relies on `nix::fcntl::fcntl` with `F_GETFL`: the descriptor's status flags.
#[verifier::external_body]
fn get_status_flags(fd: i32) -> core::result::Result<i32, nix::errno::Errno> {
    nix::fcntl::fcntl(fd, nix::fcntl::FcntlArg::F_GETFL)
}

/// Relies on `nix::fcntl::fcntl` with `F_SETFL`; the flags travel as nix's
/// `OFlag`, which keeps the bits nix names.
#[verifier::external_body]
fn set_status_flags(fd: i32, flags: i32) -> core::result::Result<(), nix::errno::Errno> {
    nix::fcntl::fcntl(
        fd,
        nix::fcntl::FcntlArg::F_SETFL(nix::fcntl::OFlag::from_bits_truncate(flags)),
    ).map(|_| ())
}

/// Relies on `nix::fcntl::OFlag::O_NONBLOCK`: the non-blocking status bit,
/// which is non-zero.
#[verifier::external_body]
fn non_blocking_flag() -> (r: i32)
    ensures
        r != 0,
{
    nix::fcntl::OFlag::O_NONBLOCK.bits()
}

/// Relies on `nix::unistd::write`: the count it returns is at most the
/// buffer's length (write(2)).
#[verifier::external_body]
fn write_descriptor(fd: i32, buf: &[u8]) -> (r: core::result::Result<usize, nix::errno::Errno>)
    ensures
        r matches Ok(n) ==> n <= buf@.len(),
{
    nix::unistd::write(fd, buf)
}

/// Relies on `nix::unistd::read`: the count it returns is at most the
/// buffer's length (read(2)), and the buffer keeps its length.
#[verifier::external_body]
fn read_descriptor(fd: i32, buf: &mut [u8]) -> (r: core::result::Result<usize, nix::errno::Errno>)
    ensures
        final(buf)@.len() == old(buf)@.len(),
        r matches Ok(n) ==> n <= old(buf)@.len(),
{
    nix::unistd::read(fd, buf)
}

} // verus!
