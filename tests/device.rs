use std::cell::Cell;

use nix::sys::socket::{socketpair, AddressFamily, SockFlag, SockType};
use riptun::{classify, Attempt, Device, Error, IfReq, Queue, Tun, IF_NAME_SIZE};

/// Two connected datagram endpoints, as stand-ins for kernel queues.
fn endpoints() -> (i32, i32) {
    socketpair(AddressFamily::Unix, SockType::Datagram, None, SockFlag::empty()).unwrap()
}

/// A queue over a descriptor number that is not open in this process.
fn detached_queue() -> Queue {
    Queue::configure(1_000_000, Ok(0)).unwrap()
}

fn paired_tun() -> Tun {
    let (a, b) = endpoints();
    let fds = [a, b];
    let next = Cell::new(0usize);
    Device::new("pair%d", 2, |req: IfReq| {
        let fd = fds[next.get()];
        next.set(next.get() + 1);
        Queue::configure(fd, Ok(0)).map(|q| (q, req.name_bytes()))
    })
    .unwrap()
}

#[test]
fn zero_queues_is_rejected() {
    let calls = Cell::new(0);
    let r = Device::<Queue>::new("rip%d", 0, |req: IfReq| {
        calls.set(calls.get() + 1);
        Ok((detached_queue(), req.name_bytes()))
    });
    assert!(matches!(r, Err(Error::InvalidNumQueues)));
    assert_eq!(calls.get(), 0);
}

#[test]
fn invalid_name_is_rejected_before_opening() {
    let calls = Cell::new(0);
    let r = Device::<Queue>::new("", 2, |req: IfReq| {
        calls.set(calls.get() + 1);
        Ok((detached_queue(), req.name_bytes()))
    });
    assert!(matches!(r, Err(Error::InvalidName { .. })));
    assert_eq!(calls.get(), 0);
}

#[test]
fn new_yields_exactly_k_addressable_queues() {
    let mut dev = Device::<Queue>::new("rip%d", 3, |req: IfReq| {
        Ok((detached_queue(), req.name_bytes()))
    })
    .unwrap();
    assert_eq!(dev.len(), 3);
    assert_eq!(dev.iter().count(), 3);
    for i in 0..3 {
        assert!(dev.get(i).is_ok());
    }
    assert!(matches!(dev.get(3), Err(Error::InvalidQueue(3))));
    assert_eq!(dev.name(), "rip%d");
    assert!(dev.close().is_err());
    assert_eq!(dev.len(), 0);
}

#[test]
fn kernel_echo_names_the_device() {
    let dev = Device::<Queue>::new("rip%d", 2, |_req: IfReq| {
        let mut echo = [0u8; IF_NAME_SIZE];
        echo[..4].copy_from_slice(b"rip7");
        Ok((detached_queue(), echo))
    })
    .unwrap();
    assert_eq!(dev.name(), "rip7");
}

#[test]
fn failed_open_is_returned() {
    let calls = Cell::new(0);
    let r = Device::<Queue>::new("rip%d", 4, |req: IfReq| {
        calls.set(calls.get() + 1);
        if calls.get() == 3 {
            Err(Error::UnixIoctl(5))
        } else {
            Ok((detached_queue(), req.name_bytes()))
        }
    });
    assert!(matches!(r, Err(Error::UnixIoctl(5))));
    assert_eq!(calls.get(), 3);
}

#[test]
fn out_of_range_index_is_reported() {
    let dev = paired_tun();
    let mut buf = [7u8; 8];
    assert!(matches!(dev.send_via(2, b"x"), Err(Error::InvalidQueue(2))));
    assert!(matches!(dev.recv_via(5, &mut buf), Err(Error::InvalidQueue(5))));
    assert_eq!(buf, [7u8; 8]);
}

#[test]
fn datagram_round_trip_between_queues() {
    let dev = paired_tun();
    let sent = dev.send_via(0, b"\x45\x00\x00\x14datagram").unwrap();
    assert_eq!(sent, 12);
    let mut buf = [0u8; 64];
    let read = dev.recv_via(1, &mut buf).unwrap();
    assert_eq!(&buf[..read], b"\x45\x00\x00\x14datagram");
}

#[test]
fn non_blocking_empty_queue_would_block() {
    let dev = paired_tun();
    let q = dev.get(1).unwrap();
    q.set_non_blocking(true).unwrap();
    q.set_non_blocking(true).unwrap();
    let fd = q.as_raw_fd().unwrap();
    let flags = nix::fcntl::fcntl(fd, nix::fcntl::FcntlArg::F_GETFL).unwrap();
    assert_ne!(flags & nix::libc::O_NONBLOCK, 0);
    let mut buf = [0u8; 16];
    let r = dev.recv_via(1, &mut buf);
    assert!(r.as_ref().unwrap_err().is_would_block());
    assert!(matches!(classify(r), Attempt::WouldBlock));
    q.set_non_blocking(false).unwrap();
    let flags = nix::fcntl::fcntl(fd, nix::fcntl::FcntlArg::F_GETFL).unwrap();
    assert_eq!(flags & nix::libc::O_NONBLOCK, 0);
}

#[test]
fn drained_queues_leave_the_device() {
    let mut dev = paired_tun();
    let mut drained = dev.drain(0..1);
    assert_eq!(drained.len(), 1);
    assert_eq!(dev.len(), 1);
    assert!(matches!(dev.get(1), Err(Error::InvalidQueue(1))));
    assert!(drained[0].close().is_ok());
    assert!(dev.close().is_ok());
    assert!(matches!(drained[0].close(), Err(Error::QueueClosed)));
}

#[test]
fn closing_twice_is_detected() {
    let (a, b) = endpoints();
    let mut q = Queue::configure(a, Ok(0)).unwrap();
    assert!(q.close().is_ok());
    assert_eq!(q.as_raw_fd(), None);
    assert!(matches!(q.close(), Err(Error::QueueClosed)));
    assert!(matches!(q.send(b"x"), Err(Error::QueueClosed)));
    assert!(matches!(q.set_non_blocking(true), Err(Error::QueueClosed)));
    let mut c = Queue::configure(b, Ok(0)).unwrap();
    assert!(c.close().is_ok());
}

#[test]
fn device_close_reports_already_closed_queue() {
    let (a, b) = endpoints();
    let fds = [a, b];
    let next = Cell::new(0usize);
    let mut dev = Device::<Queue>::new("x", 2, |req: IfReq| {
        let mut q = Queue::configure(fds[next.get()], Ok(0)).unwrap();
        if next.get() == 0 {
            let _ = q.close();
        }
        next.set(next.get() + 1);
        Ok((q, req.name_bytes()))
    })
    .unwrap();
    assert!(matches!(dev.close(), Err(Error::QueueClosed)));
    assert_eq!(dev.len(), 0);
    assert!(nix::fcntl::fcntl(b, nix::fcntl::FcntlArg::F_GETFL).is_err());
}

#[test]
fn configuration_status_decides_the_queue() {
    assert!(matches!(Queue::configure(1_000_001, Ok(1)), Err(Error::UnixIoctl(1))));
    assert!(matches!(
        Queue::configure(1_000_002, Err(nix::errno::Errno::EPERM)),
        Err(Error::Unix { source: nix::errno::Errno::EPERM })
    ));
    let q = Queue::configure(1_000_003, Ok(0)).unwrap();
    assert_eq!(q.as_raw_fd(), Some(1_000_003));
}

#[test]
fn control_path_failure_names_the_path() {
    match Queue::open_control() {
        Ok(fd) => {
            assert!(fd >= 0);
            let _ = Queue::configure(fd, Ok(1));
        }
        Err(Error::FS { path, .. }) => assert_eq!(path, "/dev/net/tun"),
        Err(_) => panic!("opening the control path fails only as a path error"),
    }
}

#[test]
fn close_each_closes_every_queue_in_order() {
    let (a, b) = endpoints();
    let mut middle = Queue::configure(b, Ok(0)).unwrap();
    assert!(middle.close().is_ok());
    let (c, d) = endpoints();
    let mut queues = vec![Queue::configure(a, Ok(0)).unwrap(), middle, Queue::configure(c, Ok(0)).unwrap()];
    let outs = riptun::close_each(&mut queues);
    assert_eq!(outs.len(), 3);
    assert!(outs[0].is_ok());
    assert!(matches!(outs[1], Err(Error::QueueClosed)));
    assert!(outs[2].is_ok());
    assert!(queues.iter().all(|q| q.as_raw_fd().is_none()));
    let _ = nix::unistd::close(d);
}

#[test]
fn first_error_is_the_earliest() {
    assert!(riptun::first_error(vec![Ok(()), Ok(())]).is_ok());
    assert!(riptun::first_error(Vec::new()).is_ok());
    let outs = vec![Ok(()), Err(Error::UnixIoctl(2)), Err(Error::QueueClosed)];
    assert!(matches!(riptun::first_error(outs), Err(Error::UnixIoctl(2))));
}

#[test]
fn get_mut_reaches_the_addressed_queue() {
    let mut dev = paired_tun();
    assert!(dev.get_mut(1).unwrap().close().is_ok());
    assert_eq!(dev.get(1).unwrap().as_raw_fd(), None);
    assert!(dev.get(0).unwrap().as_raw_fd().is_some());
    assert!(matches!(dev.get_mut(2), Err(Error::InvalidQueue(2))));
    assert!(matches!(dev.close(), Err(Error::QueueClosed)));
}
