//! Sharing one serial bus between several devices, each behind its own
//! chip-select line.
//!
//! A device's transaction selects the device, writes its bytes and deselects
//! it, all while it holds the bus. The arbiter records, in order, what it puts
//! on the bus; whoever drives the lines performs those events as they come.
use vstd::prelude::*;

verus! {

/// One event on the shared bus.
#[derive(Clone, Copy, Debug, PartialEq, Eq, Structural)]
pub enum BusEvent {
    /// The device's chip-select line is asserted.
    Select(usize),
    /// The device writes one byte.
    Byte(usize, u8),
    /// The device's chip-select line is released.
    Deselect(usize),
}

/// Who holds the bus after event `e`, when `o` held it before.
pub open spec fn next_owner(o: Option<usize>, e: BusEvent) -> Option<usize> {
    match e {
        BusEvent::Select(d) => Some(d),
        BusEvent::Byte(_, _) => o,
        BusEvent::Deselect(_) => None,
    }
}

/// Who holds the bus after the events `t`.
pub open spec fn owner_after(t: Seq<BusEvent>) -> Option<usize>
    decreases t.len(),
{
    if t.len() == 0 {
        None
    } else {
        next_owner(owner_after(t.drop_last()), t.last())
    }
}

/// Whether event `e` may happen while `o` holds the bus: a device is selected
/// only on a free bus, and only the holder writes or lets go.
pub open spec fn allowed(o: Option<usize>, e: BusEvent) -> bool {
    match e {
        BusEvent::Select(_) => o is None,
        BusEvent::Byte(d, _) => o == Some(d),
        BusEvent::Deselect(d) => o == Some(d),
    }
}

/// Whether every event of `t` was allowed when it happened.
pub open spec fn exclusive(t: Seq<BusEvent>) -> bool {
    forall|i: int| 0 <= i < t.len() ==> allowed(owner_after(t.take(i)), #[trigger] t[i])
}

/// The events of one whole transaction of device `d` writing `bytes`.
pub open spec fn transaction_events(d: usize, bytes: Seq<u8>) -> Seq<BusEvent> {
    seq![BusEvent::Select(d)] + bytes.map_values(|b: u8| BusEvent::Byte(d, b)) + seq![
        BusEvent::Deselect(d),
    ]
}

proof fn lemma_push_allowed(t: Seq<BusEvent>, e: BusEvent)
    requires
        exclusive(t),
        allowed(owner_after(t), e),
    ensures
        exclusive(t.push(e)),
        owner_after(t.push(e)) == next_owner(owner_after(t), e),
{
    let u = t.push(e);
    assert(u.drop_last() =~= t);
    assert forall|i: int| 0 <= i < u.len() implies allowed(owner_after(u.take(i)), #[trigger] u[i]) by {
        if i < t.len() {
            assert(u.take(i) =~= t.take(i));
        } else {
            assert(u.take(i) =~= t);
        }
    }
}

/// Once `d` holds the bus, it keeps it until it is deselected.
proof fn lemma_owner_stays(t: Seq<BusEvent>, d: usize, a: int, k: int)
    requires
        exclusive(t),
        0 <= a <= k <= t.len(),
        owner_after(t.take(a)) == Some(d),
        forall|m: int| a <= m < k ==> t[m] != BusEvent::Deselect(d),
    ensures
        owner_after(t.take(k)) == Some(d),
    decreases k - a,
{
    if k > a {
        lemma_owner_stays(t, d, a, k - 1);
        assert(t.take(k).drop_last() =~= t.take(k - 1));
        assert(allowed(owner_after(t.take(k - 1)), t[k - 1]));
    }
}

/// Bytes of two devices never interleave: after a byte of one device, a byte
/// of another comes only once the first has been deselected.
pub proof fn lemma_no_interleaving(t: Seq<BusEvent>, i: int, j: int)
    requires
        exclusive(t),
        0 <= i < j < t.len(),
        t[i] is Byte,
        t[j] is Byte,
        t[i]->Byte_0 != t[j]->Byte_0,
    ensures
        exists|k: int| i < k < j && t[k] == BusEvent::Deselect(t[i]->Byte_0),
{
    let d = t[i]->Byte_0;
    if forall|k: int| i < k < j ==> t[k] != BusEvent::Deselect(d) {
        assert(t.take(i + 1).drop_last() =~= t.take(i));
        assert(allowed(owner_after(t.take(i)), t[i]));
        lemma_owner_stays(t, d, i + 1, j);
        assert(allowed(owner_after(t.take(j)), t[j]));
    }
}

/// The arbiter of one bus shared by `devices` devices, numbered from zero.
pub struct BusArbiter {
    devices: usize,
    owner: Option<usize>,
    events: Vec<BusEvent>,
}

impl BusArbiter {
    /// The events put on the bus so far, oldest first.
    pub closed spec fn history(&self) -> Seq<BusEvent> {
        self.events@
    }

    /// The device that holds the bus, if one does.
    pub closed spec fn holder(&self) -> Option<usize> {
        self.owner
    }

    /// Number of devices on the bus.
    pub closed spec fn device_count(&self) -> usize {
        self.devices
    }

    /// The arbiter's record is consistent: every event was allowed, and the
    /// holder is who the events leave holding the bus.
    pub closed spec fn wf(&self) -> bool {
        &&& exclusive(self.events@)
        &&& self.owner == owner_after(self.events@)
    }

    /// A free bus shared by `devices` devices, with nothing on it yet.
    pub fn new(devices: usize) -> (r: BusArbiter)
        ensures
            r.wf(),
            r.history() == Seq::<BusEvent>::empty(),
            r.holder() is None,
            r.device_count() == devices,
    {
        BusArbiter { devices, owner: None, events: Vec::new() }
    }

    /// Whether device `d`'s chip-select is asserted: only the holder's is, so
    /// at most one device is selected at any time.
    pub fn is_selected(&self, d: usize) -> (r: bool)
        ensures
            r == (self.holder() == Some(d)),
    {
        self.owner == Some(d)
    }

    /// The device that holds the bus, if one does.
    pub fn owner(&self) -> (r: Option<usize>)
        ensures
            r == self.holder(),
    {
        self.owner
    }

    /// The events put on the bus so far, oldest first.
    pub fn events(&self) -> (r: &[BusEvent])
        ensures
            r@ == self.history(),
    {
        self.events.as_slice()
    }

    /// Device `d` takes the bus and is selected, if the bus is free and `d` is
    /// one of its devices; otherwise nothing happens and `d` must wait.
    pub fn acquire(&mut self, d: usize) -> (r: bool)
        requires
            old(self).wf(),
        ensures
            final(self).wf(),
            final(self).device_count() == old(self).device_count(),
            r == (d < old(self).device_count() && old(self).holder() is None),
            r ==> final(self).history() == old(self).history().push(BusEvent::Select(d))
                && final(self).holder() == Some(d),
            !r ==> final(self).history() == old(self).history() && final(self).holder() == old(
                self,
            ).holder(),
    {
        if d < self.devices && self.owner.is_none() {
            proof {
                lemma_push_allowed(self.events@, BusEvent::Select(d));
            }
            self.events.push(BusEvent::Select(d));
            self.owner = Some(d);
            true
        } else {
            false
        }
    }

    /// Device `d` writes `bytes`, if it holds the bus; otherwise nothing
    /// happens.
    pub fn write(&mut self, d: usize, bytes: &[u8]) -> (r: bool)
        requires
            old(self).wf(),
        ensures
            final(self).wf(),
            final(self).device_count() == old(self).device_count(),
            final(self).holder() == old(self).holder(),
            r == (old(self).holder() == Some(d)),
            r ==> final(self).history() == old(self).history() + bytes@.map_values(
                |b: u8| BusEvent::Byte(d, b),
            ),
            !r ==> final(self).history() == old(self).history(),
    {
        if self.owner != Some(d) {
            return false;
        }
        let mut i: usize = 0;
        while i < bytes.len()
            invariant
                i <= bytes@.len(),
                self.wf(),
                self.owner == Some(d),
                self.devices == old(self).devices,
                self.events@ == old(self).events@ + bytes@.take(i as int).map_values(
                    |b: u8| BusEvent::Byte(d, b),
                ),
            decreases bytes@.len() - i,
        {
            proof {
                lemma_push_allowed(self.events@, BusEvent::Byte(d, bytes@[i as int]));
            }
            self.events.push(BusEvent::Byte(d, bytes[i]));
            assert(bytes@.take(i + 1).map_values(|b: u8| BusEvent::Byte(d, b)) =~= bytes@.take(
                i as int,
            ).map_values(|b: u8| BusEvent::Byte(d, b)).push(BusEvent::Byte(d, bytes@[i as int])));
            i = i + 1;
        }
        assert(bytes@.take(bytes@.len() as int) =~= bytes@);
        true
    }

    /// Device `d` is deselected and lets the bus go, if it holds it; otherwise
    /// nothing happens.
    pub fn release(&mut self, d: usize) -> (r: bool)
        requires
            old(self).wf(),
        ensures
            final(self).wf(),
            final(self).device_count() == old(self).device_count(),
            r == (old(self).holder() == Some(d)),
            r ==> final(self).history() == old(self).history().push(BusEvent::Deselect(d))
                && final(self).holder() is None,
            !r ==> final(self).history() == old(self).history() && final(self).holder() == old(
                self,
            ).holder(),
    {
        if self.owner == Some(d) {
            proof {
                lemma_push_allowed(self.events@, BusEvent::Deselect(d));
            }
            self.events.push(BusEvent::Deselect(d));
            self.owner = None;
            true
        } else {
            false
        }
    }

    /// A whole transaction of device `d`: select, write `bytes`, deselect, as
    /// one piece. When the bus is taken, or `d` is not one of its devices,
    /// nothing happens and `d` must try again later.
    pub fn transaction(&mut self, d: usize, bytes: &[u8]) -> (r: bool)
        requires
            old(self).wf(),
        ensures
            final(self).wf(),
            final(self).device_count() == old(self).device_count(),
            r == (d < old(self).device_count() && old(self).holder() is None),
            r ==> final(self).history() == old(self).history() + transaction_events(d, bytes@)
                && final(self).holder() is None,
            !r ==> final(self).history() == old(self).history() && final(self).holder() == old(
                self,
            ).holder(),
    {
        if !self.acquire(d) {
            return false;
        }
        self.write(d, bytes);
        self.release(d);
        assert(self.history() =~= old(self).history() + transaction_events(d, bytes@));
        true
    }
}

} // verus!
