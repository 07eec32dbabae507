use mineral::catalog::{Item, Machine, Slot, SlotObjectData};

fn slot(number: i64, active: bool, empty: bool, count: Option<i64>, name: &str, price: i64) -> Slot {
    Slot {
        active,
        count,
        empty,
        item: Item { id: number, name: name.to_string(), price },
        machine: 7,
        number,
    }
}

#[test]
fn dispensable_iff_active_not_empty_and_counted() {
    // Every combination of the three parts of the rule.
    assert!(slot(1, true, false, None, "a", 1).is_dispensable());
    assert!(slot(1, true, false, Some(5), "a", 1).is_dispensable());
    assert!(!slot(1, true, false, Some(0), "a", 1).is_dispensable());
    assert!(!slot(1, true, false, Some(-1), "a", 1).is_dispensable());
    assert!(!slot(1, false, false, None, "a", 1).is_dispensable());
    assert!(!slot(1, true, true, None, "a", 1).is_dispensable());
    assert!(!slot(1, false, true, Some(3), "a", 1).is_dispensable());
}

#[test]
fn offered_slots_keep_order_and_drop_the_rest() {
    let m = Machine {
        display_name: "Big Drink".to_string(),
        id: 7,
        is_online: true,
        name: "bigdrink".to_string(),
        slots: vec![
            slot(1, true, false, Some(3), "Coke", 150),
            slot(2, false, false, None, "Hidden", 100),
            slot(3, true, true, None, "Empty", 100),
            slot(4, true, false, None, "Water", 50),
        ],
    };
    let offered = mineral::catalog::offered_slots(&m);
    assert_eq!(offered.len(), 2);
    assert_eq!(offered[0].slot, 1);
    assert_eq!(offered[0].machine, "bigdrink");
    assert_eq!(offered[0].name, "Coke");
    assert_eq!(offered[0].cost, 150);
    assert_eq!(offered[1].slot, 4);
    assert_eq!(offered[1].name, "Water");
}

#[test]
fn from_slot_captures_the_display_fields() {
    let s = slot(9, true, false, None, "Sprite", 125);
    let data = SlotObjectData::from_slot("littledrink", &s);
    assert_eq!(data.slot, 9);
    assert_eq!(data.machine, "littledrink");
    assert_eq!(data.name, "Sprite");
    assert_eq!(data.cost, 125);
}

#[test]
fn machine_position_finds_the_first_occurrence() {
    let allow = vec![10, 20, 30];
    assert_eq!(mineral::catalog::machine_position(&allow, 20), Some(1));
    assert_eq!(mineral::catalog::machine_position(&allow, 40), None);
}

#[test]
fn machine_update_ignores_disallowed_machines() {
    let m = Machine {
        display_name: "Snack".to_string(),
        id: 99,
        is_online: true,
        name: "snack".to_string(),
        slots: vec![slot(1, true, false, None, "Chips", 100)],
    };
    let allow = vec![10, 20];
    assert!(mineral::catalog::machine_update(&allow, &m).is_none());
}

#[test]
fn machine_update_reveals_only_nonempty_panels() {
    let stocked = Machine {
        display_name: "Big Drink".to_string(),
        id: 20,
        is_online: true,
        name: "bigdrink".to_string(),
        slots: vec![slot(1, true, false, None, "Coke", 150)],
    };
    let bare = Machine {
        display_name: "Little Drink".to_string(),
        id: 10,
        is_online: true,
        name: "littledrink".to_string(),
        slots: vec![slot(1, true, true, None, "Gone", 150)],
    };
    let allow = vec![10, 20];

    let update = mineral::catalog::machine_update(&allow, &stocked).unwrap();
    assert_eq!(update.index, 1);
    assert_eq!(update.display_name, "Big Drink");
    assert_eq!(update.slots.len(), 1);
    assert!(update.reveal);

    let update = mineral::catalog::machine_update(&allow, &bare).unwrap();
    assert_eq!(update.index, 0);
    assert_eq!(update.display_name, "Little Drink");
    assert!(update.slots.is_empty());
    assert!(!update.reveal);
}

#[test]
fn snapshot_updates_follow_snapshot_order_and_skip_disallowed() {
    let snapshot = mineral::catalog::DrinksResponse {
        machines: vec![
            Machine {
                display_name: "Snack".to_string(),
                id: 99,
                is_online: true,
                name: "snack".to_string(),
                slots: vec![slot(1, true, false, None, "Chips", 100)],
            },
            Machine {
                display_name: "Big Drink".to_string(),
                id: 20,
                is_online: true,
                name: "bigdrink".to_string(),
                slots: vec![slot(1, true, false, None, "Coke", 150)],
            },
            Machine {
                display_name: "Little Drink".to_string(),
                id: 10,
                is_online: true,
                name: "littledrink".to_string(),
                slots: vec![],
            },
        ],
        message: "ok".to_string(),
    };
    let allow = vec![10, 20];
    let updates = mineral::catalog::snapshot_updates(&allow, &snapshot);
    assert_eq!(updates.len(), 2);
    assert_eq!(updates[0].display_name, "Big Drink");
    assert_eq!(updates[0].index, 1);
    assert!(updates[0].reveal);
    assert_eq!(updates[1].display_name, "Little Drink");
    assert_eq!(updates[1].index, 0);
    assert!(!updates[1].reveal);
}
