//! Catalog data model and the rules that decide what is shown: which
//! slots are dispensable and which machines of a snapshot are surfaced.

use vstd::prelude::*;

verus! {

/// One purchasable item, as the backend reports it.
#[derive(Debug, Clone, PartialEq)]
pub struct Item {
    pub id: i64,
    pub name: String,
    pub price: i64,
}

/// One physical slot of a machine.
#[derive(Debug, Clone, PartialEq)]
pub struct Slot {
    pub active: bool,
    pub count: Option<i64>,
    pub empty: bool,
    pub item: Item,
    pub machine: i64,
    pub number: i64,
}

/// One vending machine and its slots.
#[derive(Debug, Clone, PartialEq)]
pub struct Machine {
    pub display_name: String,
    pub id: i64,
    pub is_online: bool,
    pub name: String,
    pub slots: Vec<Slot>,
}

/// The envelope of one catalog fetch: a full snapshot that supersedes the
/// previous one entirely.
#[derive(Debug, Clone, PartialEq)]
pub struct DrinksResponse {
    pub machines: Vec<Machine>,
    pub message: String,
}

/// A slot may be offered iff it is active, not empty, and its remaining
/// count (when reported) is positive.
pub open spec fn spec_dispensable(s: Slot) -> bool {
    s.active && !s.empty && match s.count {
        Option::None => true,
        Option::Some(c) => c > 0,
    }
}

impl Slot {
    /// Decide whether this slot may be offered to the user.
    pub fn is_dispensable(&self) -> (r: bool)
        ensures
            r == spec_dispensable(*self),
    {
        self.active && !self.empty && match self.count {
            Option::None => true,
            Option::Some(c) => c > 0,
        }
    }
}

/// The data the presentation layer keeps per offered slot: enough to
/// build an order intent when the user picks it.
#[derive(Debug, Clone, PartialEq)]
pub struct SlotObjectData {
    pub slot: i64,
    pub machine: String,
    pub name: String,
    pub cost: i64,
}

/// Ghost image of `SlotObjectData`.
pub struct SlotObjectView {
    pub slot: int,
    pub machine: Seq<char>,
    pub name: Seq<char>,
    pub cost: int,
}

impl View for SlotObjectData {
    type V = SlotObjectView;

    open spec fn view(&self) -> SlotObjectView {
        SlotObjectView {
            slot: self.slot as int,
            machine: self.machine@,
            name: self.name@,
            cost: self.cost as int,
        }
    }
}

/// What the offered-slot entry for `s` on the machine called `name` holds.
pub open spec fn spec_slot_object(name: Seq<char>, s: Slot) -> SlotObjectView {
    SlotObjectView {
        slot: s.number as int,
        machine: name,
        name: s.item.name@,
        cost: s.item.price as int,
    }
}

impl SlotObjectData {
    /// Capture the per-slot display data from a slot of the named machine.
    pub fn from_slot(machine_name: &str, slot: &Slot) -> (r: Self)
        ensures
            r@ == spec_slot_object(machine_name@, *slot),
    {
        let r = SlotObjectData {
            slot: slot.number,
            machine: machine_name.to_owned(),
            name: slot.item.name.clone(),
            cost: slot.item.price,
        };
        proof {
            assert(r@ =~= spec_slot_object(machine_name@, *slot));
        }
        r
    }
}

/// The display entries a row of slots contributes: its dispensable slots,
/// in order, each rendered for the machine called `name`.
pub open spec fn spec_offered(name: Seq<char>, slots: Seq<Slot>) -> Seq<SlotObjectView>
    decreases slots.len(),
{
    if slots.len() == 0 {
        Seq::empty()
    } else if spec_dispensable(slots.last()) {
        spec_offered(name, slots.drop_last()).push(spec_slot_object(name, slots.last()))
    } else {
        spec_offered(name, slots.drop_last())
    }
}

/// Collect the display entries for every dispensable slot of a machine.
pub fn offered_slots(m: &Machine) -> (r: Vec<SlotObjectData>)
    ensures
        r@.map_values(|o: SlotObjectData| o@) == spec_offered(m.name@, m.slots@),
{
    let mut r: Vec<SlotObjectData> = Vec::new();
    let mut i: usize = 0;
    proof {
        assert(spec_offered(m.name@, m.slots@.take(0)) =~= Seq::<SlotObjectView>::empty());
    }
    while i < m.slots.len()
        invariant
            i <= m.slots@.len(),
            r@.len() == spec_offered(m.name@, m.slots@.take(i as int)).len(),
            forall|k: int|
                0 <= k < r@.len() ==> (#[trigger] r@[k])@ == spec_offered(
                    m.name@,
                    m.slots@.take(i as int),
                )[k],
        decreases m.slots@.len() - i,
    {
        let s = &m.slots[i];
        let ghost prefix = m.slots@.take(i as int);
        if s.is_dispensable() {
            let entry = SlotObjectData::from_slot(self_name(m), s);
            r.push(entry);
        }
        proof {
            let next = m.slots@.take(i + 1);
            assert(next.drop_last() =~= prefix);
            assert(next.last() == m.slots@[i as int]);
        }
        i = i + 1;
    }
    proof {
        assert(m.slots@.take(m.slots@.len() as int) =~= m.slots@);
        assert(r@.map_values(|o: SlotObjectData| o@) =~= spec_offered(m.name@, m.slots@));
    }
    r
}

fn self_name(m: &Machine) -> (r: &str)
    ensures
        r@ == m.name@,
{
    m.name.as_str()
}

/// A display entry stands among the offered entries iff some dispensable
/// slot of the row renders as it: the offered set holds exactly the
/// active, non-empty slots whose remaining count is absent or positive.
pub proof fn lemma_offered_iff_dispensable(name: Seq<char>, slots: Seq<Slot>, v: SlotObjectView)
    ensures
        spec_offered(name, slots).contains(v) <==> exists|i: int|
            0 <= i < slots.len() && spec_dispensable(#[trigger] slots[i]) && v
                == spec_slot_object(name, slots[i]),
    decreases slots.len(),
{
    if slots.len() == 0 {
    } else {
        let sub = slots.drop_last();
        let rest = spec_offered(name, sub);
        lemma_offered_iff_dispensable(name, sub, v);
        if spec_offered(name, slots).contains(v) {
            let j = choose|j: int|
                0 <= j < spec_offered(name, slots).len() && spec_offered(name, slots)[j] == v;
            if spec_dispensable(slots.last()) && j == rest.len() {
                assert(spec_dispensable(slots[slots.len() - 1]));
                assert(v == spec_slot_object(name, slots[slots.len() - 1]));
            } else {
                assert(rest[j] == v);
                assert(rest.contains(v));
                let i = choose|i: int|
                    0 <= i < sub.len() && spec_dispensable(#[trigger] sub[i]) && v
                        == spec_slot_object(name, sub[i]);
                assert(slots[i] == sub[i]);
            }
        }
        if exists|i: int|
            0 <= i < slots.len() && spec_dispensable(#[trigger] slots[i]) && v
                == spec_slot_object(name, slots[i]) {
            let i = choose|i: int|
                0 <= i < slots.len() && spec_dispensable(#[trigger] slots[i]) && v
                    == spec_slot_object(name, slots[i]);
            if i == slots.len() - 1 {
                assert(spec_offered(name, slots)[rest.len() as int] == v);
            } else {
                assert(sub[i] == slots[i]);
                assert(rest.contains(v));
                let j = choose|j: int| 0 <= j < rest.len() && rest[j] == v;
                assert(spec_offered(name, slots)[j] == v);
            }
        }
    }
}

/// First position of a machine identifier in the configured allow-list,
/// if it stands there at all.
pub fn machine_position(allow: &Vec<i64>, id: i64) -> (r: Option<usize>)
    ensures
        match r {
            Option::Some(i) => i < allow@.len() && allow@[i as int] == id && forall|j: int|
                0 <= j < i ==> allow@[j] != id,
            Option::None => forall|j: int| 0 <= j < allow@.len() ==> allow@[j] != id,
        },
{
    let mut i: usize = 0;
    while i < allow.len()
        invariant
            i <= allow@.len(),
            forall|j: int| 0 <= j < i ==> allow@[j] != id,
        decreases allow@.len() - i,
    {
        if allow[i] == id {
            return Option::Some(i);
        }
        i = i + 1;
    }
    Option::None
}

} // verus!


verus! {

/// What the consumer applies to one machine's panel after a snapshot: the
/// panel to update, its new title, its offered entries, and whether the
/// panel is shown at all.
#[derive(Debug, Clone, PartialEq)]
pub struct MachineUpdate {
    pub index: usize,
    pub display_name: String,
    pub slots: Vec<SlotObjectData>,
    pub reveal: bool,
}

/// Work out what one machine of a snapshot does to the display: machines
/// outside the allow-list are ignored; an allowed machine's panel gets
/// its display name and its dispensable slots, and is revealed iff any
/// slot is offered.
pub fn machine_update(allow: &Vec<i64>, m: &Machine) -> (r: Option<MachineUpdate>)
    ensures
        match r {
            Option::Some(u) => u.index < allow@.len() && allow@[u.index as int] == m.id && (forall|
                j: int,
            |
                0 <= j < u.index ==> allow@[j] != m.id) && u.display_name@ == m.display_name@
                && u.slots@.map_values(|o: SlotObjectData| o@) == spec_offered(m.name@, m.slots@)
                && u.reveal == (spec_offered(m.name@, m.slots@).len() > 0),
            Option::None => forall|j: int| 0 <= j < allow@.len() ==> allow@[j] != m.id,
        },
{
    match machine_position(allow, m.id) {
        Option::Some(index) => {
            let slots = offered_slots(m);
            let reveal_panel = slots.len() > 0;
            proof {
                assert(slots@.map_values(|o: SlotObjectData| o@).len() == slots@.len());
            }
            Option::Some(
                MachineUpdate {
                    index,
                    display_name: m.display_name.clone(),
                    slots,
                    reveal: reveal_panel,
                },
            )
        },
        Option::None => Option::None,
    }
}

} // verus!

verus! {

/// First position of `id` in the allow-list, if any.
pub open spec fn spec_position(allow: Seq<i64>, id: i64) -> Option<int>
    decreases allow.len(),
{
    if allow.len() == 0 {
        Option::None
    } else if allow[0] == id {
        Option::Some(0)
    } else {
        match spec_position(allow.skip(1), id) {
            Option::Some(i) => Option::Some(i + 1),
            Option::None => Option::None,
        }
    }
}

/// A witness of the first occurrence pins `spec_position` down.
pub proof fn lemma_position_some(allow: Seq<i64>, id: i64, i: int)
    requires
        0 <= i < allow.len(),
        allow[i] == id,
        forall|j: int| 0 <= j < i ==> allow[j] != id,
    ensures
        spec_position(allow, id) == Option::Some(i),
    decreases allow.len(),
{
    if allow[0] == id {
        assert(i == 0);
    } else {
        assert(allow.skip(1)[i - 1] == allow[i]);
        assert(forall|j: int| 0 <= j < i - 1 ==> allow.skip(1)[j] == allow[j + 1]);
        lemma_position_some(allow.skip(1), id, i - 1);
    }
}

/// An identifier that occurs nowhere has no position.
pub proof fn lemma_position_none(allow: Seq<i64>, id: i64)
    requires
        forall|j: int| 0 <= j < allow.len() ==> allow[j] != id,
    ensures
        spec_position(allow, id) is None,
    decreases allow.len(),
{
    if allow.len() > 0 {
        assert(forall|j: int|
            0 <= j < allow.skip(1).len() ==> allow.skip(1)[j] == allow[j + 1]);
        lemma_position_none(allow.skip(1), id);
    }
}

/// Ghost image of one panel update.
pub struct MachineUpdateView {
    pub index: int,
    pub display_name: Seq<char>,
    pub slots: Seq<SlotObjectView>,
    pub reveal: bool,
}

impl View for MachineUpdate {
    type V = MachineUpdateView;

    open spec fn view(&self) -> MachineUpdateView {
        MachineUpdateView {
            index: self.index as int,
            display_name: self.display_name@,
            slots: self.slots@.map_values(|o: SlotObjectData| o@),
            reveal: self.reveal,
        }
    }
}

/// What one machine of a snapshot does to the display, if anything.
pub open spec fn spec_update(allow: Seq<i64>, m: Machine) -> Option<MachineUpdateView> {
    match spec_position(allow, m.id) {
        Option::Some(i) => Option::Some(
            MachineUpdateView {
                index: i,
                display_name: m.display_name@,
                slots: spec_offered(m.name@, m.slots@),
                reveal: spec_offered(m.name@, m.slots@).len() > 0,
            },
        ),
        Option::None => Option::None,
    }
}

/// The panel updates a whole snapshot causes: one per allowed machine,
/// in snapshot order; machines outside the allow-list cause none.
pub open spec fn spec_snapshot_updates(allow: Seq<i64>, ms: Seq<Machine>) -> Seq<MachineUpdateView>
    decreases ms.len(),
{
    if ms.len() == 0 {
        Seq::empty()
    } else {
        spec_snapshot_updates(allow, ms.drop_last()) + match spec_update(allow, ms.last()) {
            Option::Some(u) => seq![u],
            Option::None => Seq::empty(),
        }
    }
}

/// Work out every panel update one snapshot causes, in order.
pub fn snapshot_updates(allow: &Vec<i64>, resp: &DrinksResponse) -> (r: Vec<MachineUpdate>)
    ensures
        r@.len() == spec_snapshot_updates(allow@, resp.machines@).len(),
        forall|k: int|
            0 <= k < r@.len() ==> (#[trigger] r@[k])@ == spec_snapshot_updates(
                allow@,
                resp.machines@,
            )[k],
{
    let mut r: Vec<MachineUpdate> = Vec::new();
    let mut i: usize = 0;
    proof {
        assert(spec_snapshot_updates(allow@, resp.machines@.take(0)) =~= Seq::<
            MachineUpdateView,
        >::empty());
    }
    while i < resp.machines.len()
        invariant
            i <= resp.machines@.len(),
            r@.len() == spec_snapshot_updates(allow@, resp.machines@.take(i as int)).len(),
            forall|k: int|
                0 <= k < r@.len() ==> (#[trigger] r@[k])@ == spec_snapshot_updates(
                    allow@,
                    resp.machines@.take(i as int),
                )[k],
        decreases resp.machines@.len() - i,
    {
        let m = &resp.machines[i];
        let ghost prefix = resp.machines@.take(i as int);
        let update = machine_update(allow, m);
        proof {
            let next = resp.machines@.take(i + 1);
            assert(next.drop_last() =~= prefix);
            assert(next.last() == resp.machines@[i as int]);
            match &update {
                Option::Some(u) => {
                    lemma_position_some(allow@, m.id, u.index as int);
                    assert(u@.slots =~= spec_offered(m.name@, m.slots@));
                    assert(u@ =~= spec_update(allow@, *m)->Some_0);
                },
                Option::None => {
                    lemma_position_none(allow@, m.id);
                },
            }
        }
        if let Option::Some(u) = update {
            r.push(u);
        }
        i = i + 1;
    }
    proof {
        assert(resp.machines@.take(resp.machines@.len() as int) =~= resp.machines@);
    }
    r
}

} // verus!
