//! Lock-free diagnostic event channel.
//!
//! Driver code paths, including ones running in interrupt context, record
//! named events through a bounded multi-producer/multi-consumer queue.
//! Recording never blocks and never fails observably: when the queue is full
//! the newest event is dropped and the entries already queued stay untouched.
//! An out-of-band consumer drains the events; by operating discipline it must
//! never share a code path with anything touching USB hardware registers.

use vstd::prelude::*;

use crate::Direction;
use crate::EndpointType;
use crate::UsbError;
use crate::bus::PollStatus;

verus! {

/// How many events the channel can hold at once.
pub const EVENT_CAPACITY: usize = 64;

/// One diagnostic record of an internal driver transition.
#[derive(Clone, Copy, PartialEq, Eq, Structural, Debug)]
pub enum DebugEvent {
    /// Data was written to an IN endpoint.
    EpIn { len: usize },
    /// Data arrived on the OUT endpoint with this QH index.
    EpOut { index: usize },
    /// A setup packet was captured on endpoint 0 OUT.
    Ep0OutSetup,
    /// An endpoint reported a halted or errored transfer.
    EpError { index: usize, direction: Direction, status: UsbError },
    /// A bus reset was observed.
    Reset,
    /// The device entered its configured state.
    Configure,
    /// An endpoint slot was handed out.
    AllocEp(usize, Direction, EndpointType),
    /// The protocol stack assigned a device address.
    SetAddress(u8),
    /// A poll read this raw interrupt status word.
    Poll(u32),
    /// A poll observed the suspend bit.
    PollSLI,
    /// A poll observed the reset bit.
    PollURI,
    /// A poll observed the port-change bit.
    PollPCI,
    /// A poll observed a token-processed interrupt with these bitmaps.
    PollUI { ep_out: u16, ep_in_complete: u16, ep_setup: u16 },
    /// A poll found no relevant status bit set.
    PollNone,
}

/// The record one poll source breakdown corresponds to, in the order the
/// poll considers the status bits.
pub open spec fn spec_poll_event(status: PollStatus) -> DebugEvent {
    if status.reset {
        DebugEvent::PollURI
    } else if status.usb_interrupt {
        DebugEvent::PollUI {
            ep_out: status.ep_out,
            ep_in_complete: status.ep_in_complete,
            ep_setup: status.ep_setup,
        }
    } else if status.port_change {
        DebugEvent::PollPCI
    } else if status.suspend {
        DebugEvent::PollSLI
    } else {
        DebugEvent::PollNone
    }
}

/// Build the diagnostic record for one controller status snapshot, for a
/// caller that records its poll outcomes.
pub fn poll_event(status: PollStatus) -> (r: DebugEvent)
    ensures
        r == spec_poll_event(status),
{
    if status.reset {
        DebugEvent::PollURI
    } else if status.usb_interrupt {
        DebugEvent::PollUI {
            ep_out: status.ep_out,
            ep_in_complete: status.ep_in_complete,
            ep_setup: status.ep_setup,
        }
    } else if status.port_change {
        DebugEvent::PollPCI
    } else if status.suspend {
        DebugEvent::PollSLI
    } else {
        DebugEvent::PollNone
    }
}

#[verifier::external_type_specification]
#[verifier::external_body]
#[verifier::reject_recursive_types(T)]
pub struct ExMpMcQueue<T, const N: usize>(heapless::mpmc::MpMcQueue<T, N>);

/// The events stored in the queue, front (oldest) first.
pub uninterp spec fn queue_events(q: heapless::mpmc::MpMcQueue<DebugEvent, 64>) -> Seq<DebugEvent>;

/// Relies on heapless::mpmc::MpMcQueue::new: it creates an empty queue.
#[verifier::external_body]
fn queue_new() -> (r: heapless::mpmc::MpMcQueue<DebugEvent, 64>)
    ensures
        queue_events(r) == Seq::<DebugEvent>::empty(),
{
    heapless::mpmc::MpMcQueue::new()
}

/// Relies on heapless::mpmc::MpMcQueue::enqueue: it is lock-free and
/// non-blocking, and under exclusive access it appends the item to the back
/// when fewer than the capacity of 64 items are stored, and otherwise hands
/// the item back as the error without changing the queue.
#[verifier::external_body]
fn queue_enqueue(
    q: &mut heapless::mpmc::MpMcQueue<DebugEvent, 64>,
    event: DebugEvent,
) -> (r: Result<(), DebugEvent>)
    ensures
        r == (if queue_events(*old(q)).len() < 64 {
            Result::<(), DebugEvent>::Ok(())
        } else {
            Result::<(), DebugEvent>::Err(event)
        }),
        queue_events(*final(q)) == (if queue_events(*old(q)).len() < 64 {
            queue_events(*old(q)).push(event)
        } else {
            queue_events(*old(q))
        }),
{
    q.enqueue(event)
}

/// Relies on heapless::mpmc::MpMcQueue::dequeue: it is lock-free and
/// non-blocking, and under exclusive access it removes and returns the front
/// (oldest) item, or returns `None` when the queue is empty.
#[verifier::external_body]
fn queue_dequeue(q: &mut heapless::mpmc::MpMcQueue<DebugEvent, 64>) -> (r: Option<DebugEvent>)
    ensures
        r == (if queue_events(*old(q)).len() == 0 {
            Option::<DebugEvent>::None
        } else {
            Option::<DebugEvent>::Some(queue_events(*old(q))[0])
        }),
        queue_events(*final(q)) == (if queue_events(*old(q)).len() == 0 {
            queue_events(*old(q))
        } else {
            queue_events(*old(q)).subrange(1, queue_events(*old(q)).len() as int)
        }),
{
    q.dequeue()
}

/// The bounded, lossy-on-overflow diagnostic channel.
pub struct EventChannel {
    queue: heapless::mpmc::MpMcQueue<DebugEvent, 64>,
}

impl EventChannel {
    /// The recorded events that have not been consumed, oldest first.
    pub closed spec fn events(&self) -> Seq<DebugEvent> {
        queue_events(self.queue)
    }

    /// Create an empty channel.
    pub fn new() -> (r: EventChannel)
        ensures
            r.events() == Seq::<DebugEvent>::empty(),
            r.events().len() == 0,
    {
        EventChannel { queue: queue_new() }
    }

    /// Record one event. Never blocks and never fails observably: on a full
    /// channel the newest event is dropped, and the entries recorded before
    /// the overflow are never touched.
    pub fn record(&mut self, event: DebugEvent)
        ensures
            old(self).events().len() < EVENT_CAPACITY ==> final(self).events() == old(self).events().push(event),
            old(self).events().len() >= EVENT_CAPACITY ==> final(self).events() == old(self).events(),
            final(self).events().len() <= old(self).events().len() + 1,
    {
        let _ = queue_enqueue(&mut self.queue, event);
    }

    /// Remove and return the oldest recorded event, if any.
    pub fn next(&mut self) -> (r: Option<DebugEvent>)
        ensures
            old(self).events().len() == 0 ==> r is None && final(self).events() == old(self).events(),
            old(self).events().len() > 0 ==> r == Some(old(self).events()[0]) && final(self).events() == old(self).events().subrange(1, old(self).events().len() as int),
    {
        queue_dequeue(&mut self.queue)
    }

    /// Drain every pending event, oldest first. The result is a queue
    /// snapshot, not a replayable log: a second call returns only what was
    /// recorded in between.
    pub fn drain(&mut self) -> (r: Vec<DebugEvent>)
        ensures
            final(self).events().len() == 0,
            r@ == old(self).events(),
    {
        let mut out: Vec<DebugEvent> = Vec::new();
        loop
            invariant_except_break
                out@ + self.events() == old(self).events(),
            ensures
                out@ + self.events() == old(self).events(),
                self.events().len() == 0,
            decreases self.events().len(),
        {
            let ghost events_before = self.events();
            let ghost taken = out@;
            match queue_dequeue(&mut self.queue) {
                Some(event) => {
                    out.push(event);
                    proof {
                        assert(out@ + self.events() =~= taken + events_before);
                    }
                },
                None => {
                    break ;
                },
            }
        }
        proof {
            assert(out@ + self.events() =~= out@);
        }
        out
    }
}

} // verus!
