use vstd::prelude::*;

verus! {

/// The number of physical I2C ports a chip may have.
pub const MAX_PORTS: u8 = 2;

/// A single-slot completion signal for one physical port.
///
/// The interrupt handler signals it; the task that holds the port's bus lock
/// observes and clears it. A signal is taken only while the notifier is armed
/// (a completion callback is registered) and the slot is empty: any other
/// signal is dropped. The ghost counters record how many signals were taken,
/// how many waits returned, and how many taken signals a disarm threw away.
pub struct Notifier {
    pub port: u8,
    pub armed: bool,
    pub signaled: bool,
    pub accepted: Ghost<nat>,
    pub returned: Ghost<nat>,
    pub discarded: Ghost<nat>,
}

impl Notifier {
    /// A full slot is only ever one that an armed notifier took, and every
    /// signal taken is either still in the slot, returned by one wait, or discarded.
    pub open spec fn wf(&self) -> bool {
        &&& self.signaled ==> self.armed
        &&& self.accepted@ == self.returned@ + self.discarded@ + if self.signaled { 1nat } else { 0nat }
    }

    /// The counters and the port stay; only the flags may change.
    pub open spec fn same_history(&self, other: &Notifier) -> bool {
        &&& self.port == other.port
        &&& self.accepted == other.accepted
        &&& self.returned == other.returned
        &&& self.discarded == other.discarded
    }

    /// `next` is this notifier after an `arm`.
    pub open spec fn armed_as(&self, next: Notifier) -> bool {
        next == Notifier { armed: true, ..*self }
    }

    /// `next` is this notifier after a `disarm` of a notifier with an empty slot.
    pub open spec fn disarmed_as(&self, next: Notifier) -> bool {
        next == Notifier { armed: false, signaled: false, ..*self }
    }

    /// `next` is this notifier after a `poll` that found a signal.
    pub open spec fn consumed_as(&self, next: Notifier) -> bool {
        &&& next.signaled == false
        &&& next.returned@ == self.returned@ + 1
        &&& next.port == self.port
        &&& next.armed == self.armed
        &&& next.accepted == self.accepted
        &&& next.discarded == self.discarded
    }

    /// A disarmed, empty notifier for `port`.
    pub fn new(port: u8) -> (r: Notifier)
        ensures
            r.wf(),
            r.port == port,
            !r.armed,
            !r.signaled,
            r.accepted@ == 0,
            r.returned@ == 0,
            r.discarded@ == 0,
    {
        Notifier {
            port,
            armed: false,
            signaled: false,
            accepted: Ghost(0),
            returned: Ghost(0),
            discarded: Ghost(0),
        }
    }

    /// The completion callback is registered with this notifier as its context.
    pub fn arm(&mut self)
        requires
            old(self).wf(),
        ensures
            final(self).wf(),
            final(self).armed,
            final(self).signaled == old(self).signaled,
            final(self).same_history(old(self)),
    {
        self.armed = true;
    }

    /// The completion callback is unregistered; a signal still in the slot is thrown away.
    pub fn disarm(&mut self)
        requires
            old(self).wf(),
        ensures
            final(self).wf(),
            !final(self).armed,
            !final(self).signaled,
            final(self).port == old(self).port,
            final(self).accepted == old(self).accepted,
            final(self).returned == old(self).returned,
            final(self).discarded@ == old(self).discarded@ + if old(self).signaled { 1nat } else { 0nat },
    {
        if self.signaled {
            self.discarded = Ghost(self.discarded@ + 1);
        }
        self.armed = false;
        self.signaled = false;
    }

    /// Empties the slot without a wait returning; the notifier stays armed or disarmed.
    pub fn discard(&mut self)
        requires
            old(self).wf(),
        ensures
            final(self).wf(),
            !final(self).signaled,
            final(self).armed == old(self).armed,
            final(self).port == old(self).port,
            final(self).accepted == old(self).accepted,
            final(self).returned == old(self).returned,
            final(self).discarded@ == old(self).discarded@ + if old(self).signaled { 1nat } else { 0nat },
    {
        if self.signaled {
            self.discarded = Ghost(self.discarded@ + 1);
            self.signaled = false;
        }
    }

    /// Signals completion, from interrupt context. Returns whether the signal was
    /// taken: only an armed notifier with an empty slot takes one.
    pub fn notify(&mut self) -> (r: bool)
        requires
            old(self).wf(),
        ensures
            final(self).wf(),
            r == (old(self).armed && !old(self).signaled),
            final(self).armed == old(self).armed,
            final(self).signaled == (old(self).signaled || r),
            final(self).port == old(self).port,
            final(self).accepted@ == old(self).accepted@ + if r { 1nat } else { 0nat },
            final(self).returned == old(self).returned,
            final(self).discarded == old(self).discarded,
    {
        if self.armed && !self.signaled {
            self.signaled = true;
            self.accepted = Ghost(self.accepted@ + 1);
            true
        } else {
            false
        }
    }

    /// One poll of a wait: returns whether a signal was in the slot, and empties it.
    pub fn poll(&mut self) -> (r: bool)
        requires
            old(self).wf(),
        ensures
            final(self).wf(),
            r == old(self).signaled,
            !final(self).signaled,
            final(self).armed == old(self).armed,
            final(self).port == old(self).port,
            final(self).accepted == old(self).accepted,
            final(self).returned@ == old(self).returned@ + if r { 1nat } else { 0nat },
            final(self).discarded == old(self).discarded,
    {
        if self.signaled {
            self.signaled = false;
            self.returned = Ghost(self.returned@ + 1);
            true
        } else {
            false
        }
    }

    pub fn port(&self) -> (r: u8)
        ensures
            r == self.port,
    {
        self.port
    }

    pub fn is_armed(&self) -> (r: bool)
        ensures
            r == self.armed,
    {
        self.armed
    }
}

/// A wait returns at most once per signal taken: the waits that returned never
/// outnumber the signals the notifier took.
pub proof fn lemma_wait_at_most_once_per_signal(n: Notifier)
    requires
        n.wf(),
    ensures
        n.returned@ <= n.accepted@,
        n.signaled ==> n.returned@ < n.accepted@,
{
}

/// The process-wide table of notifiers, one per physical port. Each is handed out
/// at most once at a time, so at most one party can wait on a port.
pub struct NotifierTable {
    pub slots: Vec<Option<Notifier>>,
}

impl NotifierTable {
    pub open spec fn wf(&self) -> bool {
        &&& 1 <= self.slots@.len() <= MAX_PORTS
        &&& forall|i: int|
            0 <= i < self.slots@.len() ==> (#[trigger] self.slots@[i] matches Some(n) ==> n.wf()
                && n.port == i && !n.armed)
    }

    /// A table for a chip with `ports` physical ports, every notifier in it.
    pub fn new(ports: u8) -> (r: NotifierTable)
        requires
            1 <= ports <= MAX_PORTS,
        ensures
            r.wf(),
            r.slots@.len() == ports,
            forall|i: int| 0 <= i < ports ==> (#[trigger] r.slots@[i]).is_some(),
    {
        let mut slots: Vec<Option<Notifier>> = Vec::new();
        let mut i: u8 = 0;
        while i < ports
            invariant
                i <= ports <= MAX_PORTS,
                slots@.len() == i,
                forall|j: int|
                    0 <= j < i ==> (#[trigger] slots@[j] matches Some(n) && n.wf() && n.port == j
                        && !n.armed),
            decreases ports - i,
        {
            slots.push(Some(Notifier::new(i)));
            i = i + 1;
        }
        NotifierTable { slots }
    }

    /// Takes the notifier of `port` out of the table; `None` if the port does not
    /// exist or its notifier is already in use.
    pub fn take(&mut self, port: u8) -> (r: Option<Notifier>)
        requires
            old(self).wf(),
        ensures
            final(self).wf(),
            final(self).slots@.len() == old(self).slots@.len(),
            port < old(self).slots@.len() ==> r == old(self).slots@[port as int],
            port < old(self).slots@.len() ==> final(self).slots@ == old(self).slots@.update(port as int, None),
            port >= old(self).slots@.len() ==> r.is_none() && final(self).slots@ == old(self).slots@,
            r matches Some(n) ==> n.wf() && n.port == port && !n.armed,
    {
        if (port as usize) < self.slots.len() {
            let mut out: Option<Notifier> = None;
            self.slots.set_and_swap(port as usize, &mut out);
            proof {
                assert forall|i: int| 0 <= i < self.slots@.len() implies (#[trigger] self.slots@[i] matches Some(n) ==> n.wf()
                    && n.port == i && !n.armed) by {
                    if i != port as int {
                        assert(self.slots@[i] == old(self).slots@[i]);
                    }
                }
            }
            out
        } else {
            None
        }
    }

    /// Puts a notifier back into its port's slot, disarmed.
    pub fn give_back(&mut self, notifier: Notifier)
        requires
            old(self).wf(),
            notifier.wf(),
            notifier.port < old(self).slots@.len(),
            old(self).slots@[notifier.port as int].is_none(),
        ensures
            final(self).wf(),
            final(self).slots@.len() == old(self).slots@.len(),
            final(self).slots@[notifier.port as int] matches Some(n) && !n.armed && n.port == notifier.port,
            forall|i: int| 0 <= i < old(self).slots@.len() && i != notifier.port ==> #[trigger] final(self).slots@[i] == old(self).slots@[i],
    {
        let mut n = notifier;
        n.disarm();
        let port = n.port;
        let mut slot: Option<Notifier> = Some(n);
        self.slots.set_and_swap(port as usize, &mut slot);
        proof {
            assert forall|i: int| 0 <= i < self.slots@.len() implies (#[trigger] self.slots@[i] matches Some(m) ==> m.wf()
                && m.port == i && !m.armed) by {
                if i != port as int {
                    assert(self.slots@[i] == old(self).slots@[i]);
                }
            }
        }
    }
}

} // verus!
