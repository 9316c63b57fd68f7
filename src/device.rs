use vstd::prelude::*;
use vstd::std_specs::iter::IteratorSpec;

use crate::error::{Error, Result};
use crate::queue::Queue;
use crate::req::{echo_acceptable, name_of, stored_name, valid_name, IfReq, IF_NAME_SIZE};

verus! {

/// A queue a device can release.
pub trait Closer: Sized {
    /// The queue still holds its kernel resource.
    spec fn is_open(&self) -> bool;

    /// Release the kernel resource. Afterwards the queue is closed;
    /// closing one that was already closed is reported as `QueueClosed`,
    /// and only that is.
    fn close(&mut self) -> (r: Result<()>)
        ensures
            !final(self).is_open(),
            !old(self).is_open() ==> r == Err::<(), Error>(Error::QueueClosed),
            old(self).is_open() ==> !(r matches Err(Error::QueueClosed)),
    ;
}

impl Closer for Queue {
    open spec fn is_open(&self) -> bool {
        self.descriptor() is Some
    }

    fn close(&mut self) -> (r: Result<()>) {
        Queue::close(self)
    }
}

/// `records`, `echoes` and `queues` are a run of `open` calls for a device
/// named after `name`: the first call gets the record built from `name`,
/// call `i` hands out `queues[i]` and the buffer `echoes[i]`, and each later
/// call gets the record of the one before with that echo taken in.
pub open spec fn opening_run<T, F: Fn(IfReq) -> Result<(T, [u8; IF_NAME_SIZE])>>(
    open: F,
    name: Seq<char>,
    records: Seq<IfReq>,
    echoes: Seq<[u8; IF_NAME_SIZE]>,
    queues: Seq<T>,
) -> bool {
    &&& records.len() == queues.len() + 1
    &&& echoes.len() == queues.len()
    &&& records[0].wf()
    &&& records[0].name_bytes_spec() == stored_name(name)
    &&& forall|i: int|
        0 <= i < queues.len() ==> #[trigger] open.ensures((records[i],), Ok((queues[i], echoes[i])))
    &&& forall|i: int|
        0 <= i < queues.len() ==> #[trigger] records[i + 1] == records[i].echo_applied(echoes[i])
}

/// `queues` came, in order, from a complete run of `open` calls for a device
/// named after `name`, and `device_name` is read from the record after the
/// last call.
pub open spec fn opened_device<T, F: Fn(IfReq) -> Result<(T, [u8; IF_NAME_SIZE])>>(
    open: F,
    name: Seq<char>,
    queues: Seq<T>,
    device_name: Seq<char>,
) -> bool {
    exists|records: Seq<IfReq>, echoes: Seq<[u8; IF_NAME_SIZE]>|
        #[trigger] opening_run(open, name, records, echoes, queues) && device_name == name_of(
            records.last().name_bytes_spec(),
        )
}

/// A named virtual device made of one or more queues. Their order is fixed
/// and gives the indices that index-addressed operations use.
#[derive(Debug)]
pub struct Device<T> {
    queues: Vec<T>,
    name: String,
}

impl<T: Closer> Device<T> {
    /// The queues the device holds, in index order.
    pub closed spec fn queues_spec(&self) -> Seq<T> {
        self.queues@
    }

    /// The name the kernel confirmed for the device.
    pub closed spec fn name_spec(&self) -> Seq<char> {
        self.name@
    }

    /// Create a device of `num_queues` queues named after `name`. The
    /// record built from `name` is handed to `open` for the first queue;
    /// `open` performs the kernel handshake and returns the queue and the
    /// name buffer the kernel handed back, which the record takes in before
    /// the next call. Queue `i` is the one the `i`-th call returned, and the
    /// device's name is read from the record after the last call. When a call
    /// fails, no further call is made, the queues already opened are closed,
    /// and its error is returned.
    pub fn new<F>(name: &str, num_queues: usize, open: F) -> (r: Result<Self>) where
        F: Fn(IfReq) -> Result<(T, [u8; IF_NAME_SIZE])>,

        requires
            forall|req: IfReq| req.wf() ==> #[trigger] open.requires((req,)),
        ensures
            num_queues == 0 ==> r == Err::<Self, Error>(Error::InvalidNumQueues),
            num_queues > 0 && !valid_name(name@) ==> (r matches Err(Error::InvalidName { name: n, max_size })
                && n@ == name@ && max_size == IF_NAME_SIZE),
            num_queues > 0 && valid_name(name@) ==> (r matches Err(e) ==> exists|
                records: Seq<IfReq>,
                echoes: Seq<[u8; IF_NAME_SIZE]>,
                queues: Seq<T>,
            |
                #[trigger] opening_run(open, name@, records, echoes, queues) && queues.len() < num_queues
                    && open.ensures((records.last(),), Err::<(T, [u8; IF_NAME_SIZE]), Error>(e))),
            r matches Ok(d) ==> d.queues_spec().len() == num_queues,
            r matches Ok(d) ==> opened_device(open, name@, d.queues_spec(), d.name_spec()),
    {
        if num_queues < 1 {
            return Err(Error::InvalidNumQueues);
        }
        let mut req = match IfReq::new(name) {
            Ok(req) => req,
            Err(e) => return Err(e),
        };
        let mut queues: Vec<T> = Vec::with_capacity(num_queues);
        let ghost mut records: Seq<IfReq> = seq![req];
        let ghost mut echoes: Seq<[u8; IF_NAME_SIZE]> = Seq::empty();
        while queues.len() < num_queues
            invariant
                forall|q: IfReq| q.wf() ==> #[trigger] open.requires((q,)),
                valid_name(name@),
                req.wf(),
                queues@.len() <= num_queues,
                opening_run(open, name@, records, echoes, queues@),
                req == records.last(),
            decreases num_queues - queues@.len(),
        {
            let res = open(req);
            match res {
                Ok((queue, echo)) => {
                    let ghost before = queues@;
                    queues.push(queue);
                    let next = req.with_echo(echo);
                    proof {
                        let n = before.len() as int;
                        let old_records = records;
                        let old_echoes = echoes;
                        records = records.push(next);
                        echoes = echoes.push(echo);
                        assert forall|i: int| 0 <= i < queues@.len() implies #[trigger] open.ensures(
                            (records[i],),
                            Ok((queues@[i], echoes[i])),
                        ) by {
                            if i < n {
                                assert(records[i] == old_records[i]);
                                assert(queues@[i] == before[i]);
                                assert(echoes[i] == old_echoes[i]);
                            }
                        }
                        assert forall|i: int| 0 <= i < queues@.len() implies #[trigger] records[i + 1]
                            == records[i].echo_applied(echoes[i]) by {
                            if i < n {
                                assert(records[i + 1] == old_records[i + 1]);
                                assert(records[i] == old_records[i]);
                                assert(echoes[i] == old_echoes[i]);
                            }
                        }
                    }
                    req = next;
                },
                Err(e) => {
                    proof {
                        assert(opening_run(open, name@, records, echoes, queues@));
                    }
                    let mut opened = queues;
                    let _ = close_each(&mut opened);
                    return Err(e);
                },
            }
        }
        let device_name = req.name();
        let device = Device { queues, name: device_name };
        proof {
            assert(opening_run(open, name@, records, echoes, device.queues_spec()));
            assert(device.name_spec() == name_of(records.last().name_bytes_spec()));
            assert(opened_device(open, name@, device.queues_spec(), device.name_spec()));
        }
        Ok(device)
    }

    /// The name the kernel confirmed for the device.
    pub fn name(&self) -> (r: &str)
        ensures
            r@ == self.name_spec(),
    {
        self.name.as_str()
    }

    /// How many queues the device holds.
    pub fn len(&self) -> (r: usize)
        ensures
            r == self.queues_spec().len(),
    {
        self.queues.len()
    }

    /// Iterate over the queues in index order without taking them.
    pub fn iter(&self) -> (r: core::slice::Iter<'_, T>)
        ensures
            r.remaining() == self.queues_spec().as_ref(),
    {
        self.queues.as_slice().iter()
    }

    /// The queue at `index`, or `InvalidQueue(index)` when there is none.
    pub fn get(&self, index: usize) -> (r: Result<&T>)
        ensures
            index < self.queues_spec().len() ==> (r matches Ok(q) && *q == self.queues_spec()[index as int]),
            index >= self.queues_spec().len() ==> (r matches Err(e) && e == Error::InvalidQueue(index)),
    {
        if index >= self.queues.len() {
            Err(Error::InvalidQueue(index))
        } else {
            Ok(&self.queues[index])
        }
    }

    /// The queue at `index` for changing in place, or `InvalidQueue(index)`
    /// when there is none.
    pub fn get_mut(&mut self, index: usize) -> (r: Result<&mut T>)
        ensures
            index < old(self).queues_spec().len() ==> (r matches Ok(q) && *q == old(self).queues_spec()[index as int]
                && final(self).queues_spec() == old(self).queues_spec().update(index as int, *final(q))
                && final(self).name_spec() == old(self).name_spec()),
            index >= old(self).queues_spec().len() ==> (r matches Err(e) && e == Error::InvalidQueue(index)
                && *final(self) == *old(self)),
    {
        if index >= self.queues.len() {
            Err(Error::InvalidQueue(index))
        } else {
            Ok(&mut self.queues[index])
        }
    }

    /// Move the queues at positions `start..end` out to the caller, who then
    /// owns them and must close them; the device keeps the others, in order.
    pub fn drain(&mut self, range: core::ops::Range<usize>) -> (r: Vec<T>)
        requires
            range.start <= range.end <= old(self).queues_spec().len(),
        ensures
            r@ == old(self).queues_spec().subrange(range.start as int, range.end as int),
            final(self).queues_spec() == kept_after_drain(
                old(self).queues_spec(),
                range.start as int,
                range.end as int,
            ),
            final(self).name_spec() == old(self).name_spec(),
    {
        let mut tail = self.queues.split_off(range.end);
        let taken = self.queues.split_off(range.start);
        self.queues.append(&mut tail);
        taken
    }

    /// Close every queue the device still holds, in index order. A failure
    /// does not stop the others from being closed; the first one is returned.
    /// The device holds no queue afterwards.
    pub fn close(&mut self) -> (r: Result<()>)
        ensures
            final(self).queues_spec().len() == 0,
            final(self).name_spec() == old(self).name_spec(),
            exists|outs: Seq<Result<()>>|
                #[trigger] closed_in_order(old(self).queues_spec(), outs) && r == first_error_spec(outs),
    {
        let end = self.queues.len();
        let mut all = self.drain(0..end);
        let outs = close_each(&mut all);
        assert(closed_in_order(old(self).queues_spec(), outs@));
        first_error(outs)
    }
}

/// `outs` holds, index by index, the outcome of closing each of `queues`:
/// one outcome per queue, `QueueClosed` exactly for those already closed.
pub open spec fn closed_in_order<T: Closer>(queues: Seq<T>, outs: Seq<Result<()>>) -> bool {
    &&& outs.len() == queues.len()
    &&& forall|i: int|
        0 <= i < outs.len() ==> ((#[trigger] outs[i] == Err::<(), Error>(Error::QueueClosed))
            <==> !queues[i].is_open())
}

/// The queues a drain of `start..end` leaves in a device that held `queues`.
pub open spec fn kept_after_drain<T>(queues: Seq<T>, start: int, end: int) -> Seq<T> {
    queues.subrange(0, start) + queues.subrange(end, queues.len() as int)
}

/// Close after drain: the queues a drain of `start..end` leaves in the
/// device are the ones outside that range, so when those are open the
/// device's `close` meets none that was already closed, whatever the caller
/// did with the drained ones.
pub proof fn lemma_close_after_drain<T: Closer>(queues: Seq<T>, start: int, end: int)
    requires
        0 <= start <= end <= queues.len(),
        forall|i: int|
            0 <= i < queues.len() && !(start <= i < end) ==> (#[trigger] queues[i]).is_open(),
    ensures
        kept_after_drain(queues, start, end).len() == queues.len() - (end - start),
        forall|i: int|
            0 <= i < kept_after_drain(queues, start, end).len() ==> (#[trigger] kept_after_drain(
                queues,
                start,
                end,
            )[i]).is_open(),
{
    let kept = kept_after_drain(queues, start, end);
    assert forall|i: int| 0 <= i < kept.len() implies (#[trigger] kept[i]).is_open() by {
        if i < start {
            assert(kept[i] == queues[i]);
        } else {
            assert(kept[i] == queues[i + (end - start)]);
        }
    }
}

/// A synchronous TUN device.
pub type Tun = Device<Queue>;

impl Device<Queue> {
    /// Send one datagram through the queue at `queue`; see `Queue::send`.
    /// An index out of range is reported as `InvalidQueue` and sends nothing.
    pub fn send_via(&self, queue: usize, datagram: &[u8]) -> (r: Result<usize>)
        ensures
            queue >= self.queues_spec().len() ==> r == Err::<usize, Error>(Error::InvalidQueue(queue)),
            queue < self.queues_spec().len() && !self.queues_spec()[queue as int].is_open() ==> r
                == Err::<usize, Error>(Error::QueueClosed),
            queue < self.queues_spec().len() && self.queues_spec()[queue as int].is_open() ==> (r is Ok
                || r matches Err(Error::Unix { .. })),
            r matches Ok(n) ==> n <= datagram@.len(),
    {
        match self.get(queue) {
            Ok(q) => q.send(datagram),
            Err(e) => Err(e),
        }
    }

    /// Receive one datagram from the queue at `queue`; see `Queue::recv`.
    /// An index out of range is reported as `InvalidQueue` and leaves the
    /// buffer untouched.
    pub fn recv_via(&self, queue: usize, datagram: &mut [u8]) -> (r: Result<usize>)
        ensures
            final(datagram)@.len() == old(datagram)@.len(),
            queue >= self.queues_spec().len() ==> r == Err::<usize, Error>(Error::InvalidQueue(queue))
                && final(datagram)@ == old(datagram)@,
            queue < self.queues_spec().len() && !self.queues_spec()[queue as int].is_open() ==> r
                == Err::<usize, Error>(Error::QueueClosed),
            queue < self.queues_spec().len() && self.queues_spec()[queue as int].is_open() ==> (r is Ok
                || r matches Err(Error::Unix { .. })),
            r matches Ok(n) ==> n <= old(datagram)@.len(),
    {
        match self.get(queue) {
            Ok(q) => q.recv(datagram),
            Err(e) => Err(e),
        }
    }
}

/// The first error among `outs`, or `Ok` when there is none.
pub open spec fn first_error_spec(outs: Seq<Result<()>>) -> Result<()>
    decreases outs.len(),
{
    if outs.len() == 0 {
        Ok(())
    } else if outs[0] is Err {
        outs[0]
    } else {
        first_error_spec(outs.drop_first())
    }
}

/// Close every queue of `queues`, in index order, whatever the earlier ones
/// reported; the queues stay in place, all closed, and the outcome of each
/// close is returned at its index.
pub fn close_each<T: Closer>(queues: &mut Vec<T>) -> (outs: Vec<Result<()>>)
    ensures
        final(queues)@.len() == old(queues)@.len(),
        outs@.len() == old(queues)@.len(),
        forall|i: int| 0 <= i < final(queues)@.len() ==> !(#[trigger] final(queues)@[i]).is_open(),
        forall|i: int|
            0 <= i < outs@.len() ==> ((#[trigger] outs@[i] == Err::<(), Error>(Error::QueueClosed))
                <==> !old(queues)@[i].is_open()),
{
    let ghost all = queues@;
    let mut done: Vec<T> = Vec::new();
    let mut outs: Vec<Result<()>> = Vec::new();
    while queues.len() > 0
        invariant
            done@.len() == outs@.len(),
            done@.len() + queues@.len() == all.len(),
            queues@ == all.subrange(done@.len() as int, all.len() as int),
            forall|i: int| 0 <= i < done@.len() ==> !(#[trigger] done@[i]).is_open(),
            forall|i: int|
                0 <= i < outs@.len() ==> ((#[trigger] outs@[i] == Err::<(), Error>(Error::QueueClosed))
                    <==> !all[i].is_open()),
        decreases queues@.len(),
    {
        let ghost k = done@.len() as int;
        let mut queue = queues.remove(0);
        assert(queue == all[k]);
        let outcome = queue.close();
        done.push(queue);
        outs.push(outcome);
        assert(queues@ =~= all.subrange(k + 1, all.len() as int));
    }
    queues.append(&mut done);
    outs
}

/// The first error among `outs`, or `Ok` when every outcome is `Ok`.
pub fn first_error(outs: Vec<Result<()>>) -> (r: Result<()>)
    ensures
        r == first_error_spec(outs@),
{
    let mut rest = outs;
    while rest.len() > 0
        invariant
            first_error_spec(outs@) == first_error_spec(rest@),
        decreases rest@.len(),
    {
        let ghost before = rest@;
        let out = rest.remove(0);
        assert(out == before[0]);
        match out {
            Err(e) => {
                assert(first_error_spec(before) == before[0]);
                return Err(e);
            },
            Ok(()) => {
                assert(rest@ =~= before.drop_first());
            },
        }
    }
    Ok(())
}

} // verus!
