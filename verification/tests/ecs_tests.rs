use frontend::boids::{remove_listed, BoidId, ObsticleId};
use frontend::ecs::{find_lowest_available_id, Entity, Increment, Index, Mobile, Positioned, System, SYSTEM_CAPACITY};

#[derive(Debug, PartialEq)]
struct Dot {
    id: BoidId,
    weight: u32,
}

impl Entity for Dot {
    type Id = BoidId;

    fn spec_id(&self) -> BoidId {
        self.id
    }

    fn get_id(&self) -> BoidId {
        self.id
    }

    fn create(id: BoidId) -> Dot {
        Dot { id, weight: 0 }
    }
}

#[test]
fn new_system_is_empty() {
    let system: System<Dot> = System::new();
    let values = system.values(|d: &Dot| d.get_id());
    assert!(values.is_empty());
    assert!(system.get(&BoidId(0)).is_none());
    assert!(system.get(&BoidId((SYSTEM_CAPACITY - 1) as u16)).is_none());
}

#[test]
fn add_fills_lowest_free_slots_in_order() {
    let mut system: System<Dot> = System::new();
    system.add();
    system.add();
    system.add();
    let ids = system.values(|d: &Dot| d.get_id());
    assert_eq!(ids, vec![BoidId(0), BoidId(1), BoidId(2)]);
    assert_eq!(system.get(&BoidId(1)).map(|d| d.get_id()), Some(BoidId(1)));
}

#[test]
fn added_entity_found_by_its_id() {
    let mut system: System<Dot> = System::new();
    system.add();
    let id = system.values(|d: &Dot| d.get_id())[0];
    let found = system.get(&id).expect("the added entity");
    assert_eq!(found.get_id(), id);
    assert_eq!(id.as_index(), 0);
}

#[test]
fn remove_then_get_finds_nothing_and_add_reuses_slot() {
    let mut system: System<Dot> = System::new();
    system.add();
    system.add();
    system.add();
    system.remove(&BoidId(1));
    assert!(system.get(&BoidId(1)).is_none());
    assert!(system.get(&BoidId(0)).is_some());
    assert!(system.get(&BoidId(2)).is_some());
    system.add();
    assert_eq!(system.get(&BoidId(1)).map(|d| d.get_id()), Some(BoidId(1)));
    assert_eq!(system.values(|d: &Dot| d.get_id()).len(), 3);
}

#[test]
fn clear_empties_every_slot() {
    let mut system: System<Dot> = System::new();
    system.add();
    system.add();
    system.clear();
    assert!(system.values(|d: &Dot| d.get_id()).is_empty());
    assert!(system.get(&BoidId(0)).is_none());
    system.add();
    assert_eq!(system.values(|d: &Dot| d.get_id()), vec![BoidId(0)]);
}

#[test]
fn full_system_never_uses_last_slot() {
    let mut system: System<Dot> = System::new();
    for _ in 0..SYSTEM_CAPACITY + 5 {
        system.add();
    }
    assert_eq!(system.values(|d: &Dot| d.get_id()).len(), SYSTEM_CAPACITY - 1);
    assert!(system.get(&BoidId((SYSTEM_CAPACITY - 1) as u16)).is_none());
}

#[test]
fn find_lowest_available_id_skips_occupied_and_last_slot() {
    let group: Vec<Option<Dot>> = vec![Some(Dot::create(BoidId(0))), None, None];
    assert_eq!(find_lowest_available_id(&group), Some(BoidId(1)));
    let last_only: Vec<Option<Dot>> = vec![Some(Dot::create(BoidId(0))), None];
    assert_eq!(find_lowest_available_id(&last_only), None);
    let empty: Vec<Option<Dot>> = vec![];
    assert_eq!(find_lowest_available_id(&empty), None);
}

#[test]
fn get_with_ids_keeps_slot_order() {
    let mut system: System<Dot> = System::new();
    for _ in 0..4 {
        system.add();
    }
    let picked = system.get_with_ids(&vec![BoidId(3), BoidId(1), BoidId(7)]);
    let ids: Vec<BoidId> = picked.iter().map(|d| d.get_id()).collect();
    assert_eq!(ids, vec![BoidId(1), BoidId(3)]);
}

#[test]
fn apply_and_apply_to_ids_change_entities() {
    let mut system: System<Dot> = System::new();
    for _ in 0..3 {
        system.add();
    }
    system.apply(|d: &mut Dot| d.weight += 1);
    system.apply_to_ids(&vec![BoidId(2)], |d: &mut Dot| d.weight += 10);
    let weights = system.values(|d: &Dot| d.weight);
    assert_eq!(weights, vec![1, 1, 11]);
    let mut total = 0;
    system.for_each(|d: &Dot| total += d.weight);
    assert_eq!(total, 13);
}

#[test]
fn remove_listed_empties_listed_slots() {
    let mut system: System<Dot> = System::new();
    for _ in 0..4 {
        system.add();
    }
    remove_listed(&mut system, &vec![BoidId(0), BoidId(2)]);
    assert_eq!(system.values(|d: &Dot| d.get_id()), vec![BoidId(1), BoidId(3)]);
}

#[test]
fn ids_increment_and_wrap() {
    assert_eq!(BoidId(4).increment(), BoidId(5));
    assert_eq!(BoidId(u16::MAX).increment(), BoidId(0));
    assert_eq!(ObsticleId(u16::MAX).increment(), ObsticleId(0));
    assert_eq!(ObsticleId(9).as_index(), 9);
    assert_eq!(ObsticleId::from_index(12), ObsticleId(12));
    assert_eq!(BoidId::from_index(70000), BoidId((70000 % 65536) as u16));
}

#[test]
fn remove_of_the_slot_just_filled_restores_the_system() {
    let mut system: System<Dot> = System::new();
    system.add();
    system.add();
    system.remove(&BoidId(0));
    let before = system.values(|d: &Dot| d.get_id());
    system.add();
    assert_eq!(system.values(|d: &Dot| d.get_id()), vec![BoidId(0), BoidId(1)]);
    system.remove(&BoidId::from_index(0));
    assert_eq!(system.values(|d: &Dot| d.get_id()), before);
    assert!(system.get(&BoidId(0)).is_none());
}

#[test]
fn every_entity_sits_in_the_slot_its_id_names() {
    let mut system: System<Dot> = System::new();
    for _ in 0..5 {
        system.add();
    }
    system.remove(&BoidId(3));
    system.add();
    system.remove(&BoidId(1));
    for k in 0..(SYSTEM_CAPACITY as u16) {
        if let Some(d) = system.get(&BoidId(k)) {
            assert_eq!(d.get_id(), BoidId(k));
        }
    }
}

#[test]
fn listed_ids_select_each_entity_once() {
    let mut system: System<Dot> = System::new();
    for _ in 0..4 {
        system.add();
    }
    let ids = vec![BoidId(2), BoidId(0), BoidId(2), BoidId(500)];
    let chosen: Vec<BoidId> = system.get_with_ids(&ids).iter().map(|d| d.get_id()).collect();
    assert_eq!(chosen, vec![BoidId(0), BoidId(2)]);
    let mut calls = 0;
    system.apply_to_ids(&ids, |d: &mut Dot| d.weight += 1);
    for k in 0..4u16 {
        let w = system.get(&BoidId(k)).unwrap().weight;
        if k == 0 || k == 2 {
            assert_eq!(w, 1);
            calls += 1;
        } else {
            assert_eq!(w, 0);
        }
    }
    assert_eq!(calls, 2);
}

#[derive(Debug, PartialEq)]
struct Marker {
    id: ObsticleId,
    at: (i32, i32),
    heading: i32,
}

impl Entity for Marker {
    type Id = ObsticleId;

    fn spec_id(&self) -> ObsticleId {
        self.id
    }

    fn get_id(&self) -> ObsticleId {
        self.id
    }

    fn create(id: ObsticleId) -> Marker {
        Marker { id, at: (0, 0), heading: 0 }
    }
}

impl Positioned for Marker {
    type Position = (i32, i32);

    fn create_positioned(id: ObsticleId, position: (i32, i32)) -> Marker {
        Marker { id, at: position, heading: 0 }
    }
}

impl Mobile for Marker {
    type Heading = i32;

    fn create_mobile(id: ObsticleId, position: (i32, i32), heading: i32) -> Marker {
        Marker { id, at: position, heading }
    }
}

#[test]
fn placed_entities_keep_position_and_heading() {
    let mut system: System<Marker> = System::new();
    system.add_positioned((3, -4));
    system.add_mobile((7, 8), 90);
    assert_eq!(system.get(&ObsticleId(0)), Some(&Marker { id: ObsticleId(0), at: (3, -4), heading: 0 }));
    assert_eq!(system.get(&ObsticleId(1)), Some(&Marker { id: ObsticleId(1), at: (7, 8), heading: 90 }));
}
