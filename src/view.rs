use vstd::prelude::*;
use std::marker::PhantomData;

use crate::receiver::{InputReceiver, InputSource};
use crate::value::{AxisValue, PressState};

verus! {

/// The capability that an application's set of logical bindings offers. The state
/// store is generic over it and never looks inside.
pub trait BindingTypeView {}

/// The stored state of one receiver: its press state and its last written reading.
#[derive(Clone, Copy, Debug, PartialEq, Eq, Structural)]
pub struct ReceiverDescriptor {
    pub press: PressState,
    pub value: AxisValue,
}

/// The state of a receiver that has never been written: released, reading zero.
pub open spec fn default_descriptor() -> ReceiverDescriptor {
    ReceiverDescriptor { press: PressState::Released, value: AxisValue { bits: 0 } }
}

/// The state that `m` holds for `r`, or the default state where it holds none.
pub open spec fn stored_or_default(
    m: Map<InputReceiver, ReceiverDescriptor>,
    r: InputReceiver,
) -> ReceiverDescriptor {
    if m.contains_key(r) {
        m[r]
    } else {
        default_descriptor()
    }
}

/// The map after a get-or-insert of `r`: unchanged where `r` is present, else with
/// the default state added for it.
pub open spec fn with_entry(
    m: Map<InputReceiver, ReceiverDescriptor>,
    r: InputReceiver,
) -> Map<InputReceiver, ReceiverDescriptor> {
    m.insert(r, stored_or_default(m, r))
}

impl ReceiverDescriptor {
    pub fn new_default() -> (r: ReceiverDescriptor)
        ensures
            r == default_descriptor(),
    {
        ReceiverDescriptor { press: PressState::Released, value: AxisValue::zero() }
    }
}

/// No receiver occurs twice.
pub open spec fn distinct(recv: Seq<InputReceiver>) -> bool {
    forall|i: int, j: int| 0 <= i < j < recv.len() ==> recv[i] != recv[j]
}

/// Where `r` stands in `recv`.
pub open spec fn slot_of(recv: Seq<InputReceiver>, r: InputReceiver) -> int {
    choose|i: int| 0 <= i < recv.len() && recv[i] == r
}

/// The map that two parallel sequences of receivers and states stand for.
pub open spec fn map_of(
    recv: Seq<InputReceiver>,
    descs: Seq<ReceiverDescriptor>,
) -> Map<InputReceiver, ReceiverDescriptor> {
    Map::new(|r: InputReceiver| recv.contains(r), |r: InputReceiver| descs[slot_of(recv, r)])
}

proof fn lemma_slot_unique(recv: Seq<InputReceiver>, i: int)
    requires
        distinct(recv),
        0 <= i < recv.len(),
    ensures
        slot_of(recv, recv[i]) == i,
{
    let r = recv[i];
    assert(0 <= i < recv.len() && recv[i] == r);
    let j = slot_of(recv, r);
    assert(0 <= j < recv.len() && recv[j] == r);
    if j < i {
        assert(recv[j] != recv[i]);
    } else if i < j {
        assert(recv[i] != recv[j]);
    }
}

proof fn lemma_map_update(
    recv: Seq<InputReceiver>,
    descs: Seq<ReceiverDescriptor>,
    i: int,
)
    requires
        distinct(recv),
        recv.len() == descs.len(),
        0 <= i < recv.len(),
    ensures
        forall|d: ReceiverDescriptor|
            #[trigger] map_of(recv, descs.update(i, d)) == map_of(recv, descs).insert(recv[i], d),
{
    assert forall|d: ReceiverDescriptor|
        #[trigger] map_of(recv, descs.update(i, d)) == map_of(recv, descs).insert(recv[i], d) by {
        let m1 = map_of(recv, descs.update(i, d));
        let m2 = map_of(recv, descs).insert(recv[i], d);
        assert(recv.contains(recv[i]));
        assert forall|r: InputReceiver| #[trigger] m1.contains_key(r) implies m1[r] == m2[r] by {
            let j = slot_of(recv, r);
            assert(0 <= j < recv.len() && recv[j] == r);
            lemma_slot_unique(recv, j);
            lemma_slot_unique(recv, i);
        }
        assert(m1 =~= m2);
    }
}

proof fn lemma_map_push(
    recv: Seq<InputReceiver>,
    descs: Seq<ReceiverDescriptor>,
    r: InputReceiver,
    d: ReceiverDescriptor,
)
    requires
        distinct(recv),
        recv.len() == descs.len(),
        !recv.contains(r),
    ensures
        distinct(recv.push(r)),
        map_of(recv.push(r), descs.push(d)) == map_of(recv, descs).insert(r, d),
{
    let recv2 = recv.push(r);
    let descs2 = descs.push(d);
    assert forall|i: int, j: int| 0 <= i < j < recv2.len() implies recv2[i] != recv2[j] by {
        if j == recv.len() {
            assert(recv2[i] == recv[i]);
        }
    }
    let m1 = map_of(recv2, descs2);
    let m2 = map_of(recv, descs).insert(r, d);
    assert forall|k: InputReceiver| m1.contains_key(k) <==> m2.contains_key(k) by {
        if recv2.contains(k) && k != r {
            let j = choose|j: int| 0 <= j < recv2.len() && recv2[j] == k;
            assert(recv[j] == k);
        }
        if recv.contains(k) {
            let j = choose|j: int| 0 <= j < recv.len() && recv[j] == k;
            assert(recv2[j] == k);
        }
        assert(recv2[recv.len() as int] == r);
    }
    assert forall|k: InputReceiver| #[trigger] m1.contains_key(k) implies m1[k] == m2[k] by {
        let j = slot_of(recv2, k);
        assert(0 <= j < recv2.len() && recv2[j] == k);
        lemma_slot_unique(recv2, j);
        if k != r {
            assert(recv[j] == k);
            lemma_slot_unique(recv, j);
        }
    }
    assert(m1 =~= m2);
}

/// The per-context state store: every receiver ever written, with its state, and the
/// device class that wrote last. Entries are created on first write and never removed.
pub struct InputView<Keys> {
    receivers: Vec<InputReceiver>,
    descriptors: Vec<ReceiverDescriptor>,
    pub last_input_source: Option<InputSource>,
    bindings: PhantomData<Keys>,
}

impl<Keys> InputView<Keys> {
    /// The receivers and their states.
    pub closed spec fn view(&self) -> Map<InputReceiver, ReceiverDescriptor> {
        map_of(self.receivers@, self.descriptors@)
    }

    /// The store holds one entry per receiver.
    pub closed spec fn wf(&self) -> bool {
        &&& self.receivers@.len() == self.descriptors@.len()
        &&& distinct(self.receivers@)
    }

    /// The device class that wrote last, if any did.
    pub closed spec fn spec_last_input_source(&self) -> Option<InputSource> {
        self.last_input_source
    }

    /// How many entries the store holds.
    pub closed spec fn spec_entry_count(&self) -> nat {
        self.receivers@.len()
    }

    /// An empty store with no input source recorded.
    pub fn new() -> (r: Self)
        ensures
            r.wf(),
            r@ == Map::<InputReceiver, ReceiverDescriptor>::empty(),
            r.spec_entry_count() == 0,
            r.spec_last_input_source() is None,
    {
        let r = InputView {
            receivers: Vec::new(),
            descriptors: Vec::new(),
            last_input_source: None,
            bindings: PhantomData,
        };
        assert(r@ =~= Map::<InputReceiver, ReceiverDescriptor>::empty());
        r
    }

    /// How many entries the store holds.
    pub fn entry_count(&self) -> (r: usize)
        ensures
            r == self.spec_entry_count(),
    {
        self.receivers.len()
    }

    /// The device class that wrote last, if any did.
    pub fn last_input_source(&self) -> (r: Option<InputSource>)
        ensures
            r == self.spec_last_input_source(),
    {
        self.last_input_source
    }

    /// Records `source` as the device class that wrote last; the receivers keep their state.
    pub fn set_last_input_source(&mut self, source: InputSource)
        requires
            old(self).wf(),
        ensures
            final(self).wf(),
            final(self)@ == old(self)@,
            final(self).spec_entry_count() == old(self).spec_entry_count(),
            final(self).spec_last_input_source() == Some(source),
    {
        self.last_input_source = Some(source);
    }

    fn find(&self, receiver: &InputReceiver) -> (r: Option<usize>)
        requires
            self.wf(),
        ensures
            match r {
                Some(i) => i < self.receivers@.len() && self.receivers@[i as int] == *receiver,
                None => !self.receivers@.contains(*receiver),
            },
    {
        let mut i: usize = 0;
        while i < self.receivers.len()
            invariant
                i <= self.receivers@.len(),
                forall|j: int| 0 <= j < i ==> self.receivers@[j] != *receiver,
            decreases self.receivers@.len() - i,
        {
            if self.receivers[i] == *receiver {
                return Some(i);
            }
            i = i + 1;
        }
        None
    }

    /// The state stored for `receiver`, if it was ever written.
    pub fn descriptor(&self, receiver: InputReceiver) -> (r: Option<ReceiverDescriptor>)
        requires
            self.wf(),
        ensures
            r == (if self@.contains_key(receiver) {
                Some(self@[receiver])
            } else {
                None
            }),
    {
        match self.find(&receiver) {
            Some(i) => {
                proof {
                    lemma_slot_unique(self.receivers@, i as int);
                }
                Some(self.descriptors[i])
            },
            None => None,
        }
    }

    /// The stored state of `receiver`, created in the default state where absent.
    /// Looking up a present receiver adds no entry.
    pub fn descriptor_or_insert(&mut self, receiver: InputReceiver) -> (d: &mut ReceiverDescriptor)
        requires
            old(self).wf(),
        ensures
            *d == stored_or_default(old(self)@, receiver),
            final(self).wf(),
            final(self)@ == old(self)@.insert(receiver, *final(d)),
            final(self).spec_entry_count() == old(self).spec_entry_count() + (if old(
                self,
            )@.contains_key(receiver) {
                0int
            } else {
                1int
            }),
            final(self).spec_last_input_source() == old(self).spec_last_input_source(),
    {
        let i: usize = match self.find(&receiver) {
            Some(i) => {
                proof {
                    lemma_slot_unique(self.receivers@, i as int);
                }
                i
            },
            None => {
                let d = ReceiverDescriptor::new_default();
                proof {
                    lemma_map_push(self.receivers@, self.descriptors@, receiver, d);
                }
                self.receivers.push(receiver);
                self.descriptors.push(d);
                proof {
                    lemma_slot_unique(self.receivers@, self.receivers@.len() - 1);
                }
                self.receivers.len() - 1
            },
        };
        proof {
            lemma_map_update(self.receivers@, self.descriptors@, i as int);
        }
        &mut self.descriptors[i]
    }

    /// Writes both the reading and the press state of `receiver`.
    pub fn set_axis_value(&mut self, receiver: InputReceiver, value: AxisValue, press: PressState)
        requires
            old(self).wf(),
        ensures
            final(self).wf(),
            final(self)@ == old(self)@.insert(receiver, ReceiverDescriptor { press, value }),
            final(self).spec_last_input_source() == old(self).spec_last_input_source(),
    {
        let d = self.descriptor_or_insert(receiver);
        d.press = press;
        d.value = value;
    }

    /// Writes the press state of `receiver` and keeps its reading.
    pub fn set_key_receiver_state(&mut self, receiver: InputReceiver, press: PressState)
        requires
            old(self).wf(),
        ensures
            final(self).wf(),
            final(self)@ == old(self)@.insert(
                receiver,
                ReceiverDescriptor { press, value: stored_or_default(old(self)@, receiver).value },
            ),
            final(self).spec_last_input_source() == old(self).spec_last_input_source(),
    {
        let d = self.descriptor_or_insert(receiver);
        d.press = press;
    }
}

} // verus!
