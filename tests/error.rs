use std::io::ErrorKind;

use nix::errno::Errno;
use riptun::Error;

#[test]
fn messages_name_the_values() {
    assert_eq!(Error::InvalidQueue(3).message(), "invalid queue descriptor specified '3' is out of range");
    assert_eq!(Error::UnixIoctl(17).message(), "ioctl failed with unexpected return code: got '17'");
    assert_eq!(
        Error::InvalidNumQueues.message(),
        "invalid number of queues specified must be greater than 0"
    );
    let e = Error::InvalidName { name: String::from("tün"), max_size: 16 };
    assert_eq!(e.message(), "invalid device name 'tün' is either longer than 16B or the encoding is invalid");
}

#[test]
fn into_io_keeps_error_numbers() {
    let io = Error::Unix { source: Errno::EAGAIN }.into_io();
    assert_eq!(io.kind(), ErrorKind::WouldBlock);
    assert_eq!(io.raw_os_error(), Some(Errno::EAGAIN as i32));
}

#[test]
fn into_io_wraps_library_errors() {
    let io = Error::InvalidQueue(9).into_io();
    assert_eq!(io.kind(), ErrorKind::Other);
    assert_eq!(io.to_string(), "invalid queue descriptor specified '9' is out of range");
}

#[test]
fn would_block_is_only_eagain() {
    assert!(Error::Unix { source: Errno::EAGAIN }.is_would_block());
    assert!(!Error::Unix { source: Errno::EBADF }.is_would_block());
    assert!(!Error::InvalidQueue(0).is_would_block());
    assert!(matches!(Error::errno(), Error::Unix { .. }));
}

#[test]
fn into_io_hands_io_errors_back() {
    let source = std::io::Error::new(ErrorKind::TimedOut, "late");
    let io = Error::IO { source }.into_io();
    assert_eq!(io.kind(), ErrorKind::TimedOut);
    let fs = Error::FS { path: String::from("/dev/net/tun"), source: std::io::Error::from(ErrorKind::NotFound) };
    assert_eq!(fs.into_io().kind(), ErrorKind::NotFound);
}

#[test]
fn negative_and_large_numbers_render_in_decimal() {
    assert_eq!(Error::UnixIoctl(-3).message(), "ioctl failed with unexpected return code: got '-3'");
    assert_eq!(
        Error::UnixIoctl(i32::MIN).message(),
        "ioctl failed with unexpected return code: got '-2147483648'"
    );
    assert_eq!(
        Error::InvalidQueue(usize::MAX).message(),
        format!("invalid queue descriptor specified '{}' is out of range", usize::MAX)
    );
    assert_eq!(Error::InvalidQueue(0).message(), "invalid queue descriptor specified '0' is out of range");
}
