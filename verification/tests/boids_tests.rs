use frontend::boids::{BoidId, BoidsControls, BoidsEvent, ClickAction, EditingMode, Flock, ResizeService};

fn matrix(n: usize, pairs: &[(usize, usize)]) -> Vec<Vec<bool>> {
    let mut m = vec![vec![false; n]; n];
    for &(a, b) in pairs {
        m[a][b] = true;
    }
    m
}

fn symmetric(n: usize, pairs: &[(usize, usize)]) -> Vec<Vec<bool>> {
    let mut all: Vec<(usize, usize)> = pairs.to_vec();
    for &(a, b) in pairs {
        all.push((b, a));
    }
    matrix(n, &all)
}

fn members(flocks: &[Flock]) -> Vec<Vec<u16>> {
    flocks.iter().map(|f| f.boids.iter().map(|b| b.0).collect()).collect()
}

#[test]
fn all_near_boids_form_one_flock_in_reverse_order() {
    let ids = vec![BoidId(10), BoidId(11), BoidId(12)];
    let near = symmetric(3, &[(0, 1), (1, 2), (0, 2)]);
    let flocks = Flock::create_flocks(&ids, &near);
    assert_eq!(members(&flocks), vec![vec![12, 11, 10]]);
}

#[test]
fn two_separate_pairs_form_two_flocks() {
    let ids = vec![BoidId(0), BoidId(1), BoidId(2), BoidId(3)];
    let near = symmetric(4, &[(0, 1), (2, 3)]);
    let flocks = Flock::create_flocks(&ids, &near);
    assert_eq!(members(&flocks), vec![vec![3, 2], vec![1, 0]]);
}

#[test]
fn lone_boids_are_dropped() {
    let ids = vec![BoidId(5), BoidId(6), BoidId(7)];
    let near = symmetric(3, &[(1, 2)]);
    let flocks = Flock::create_flocks(&ids, &near);
    assert_eq!(members(&flocks), vec![vec![7, 6]]);
    let none = Flock::create_flocks(&ids, &matrix(3, &[]));
    assert!(none.is_empty());
    let empty = Flock::create_flocks(&vec![], &vec![]);
    assert!(empty.is_empty());
}

#[test]
fn joining_boid_takes_the_first_flock_it_is_near() {
    // Boid 3 and boid 2 start separate flocks; boid 1 is near both and joins
    // the first one started, the one of boid 3.
    let ids = vec![BoidId(0), BoidId(1), BoidId(2), BoidId(3)];
    let near = symmetric(4, &[(1, 3), (1, 2)]);
    let flocks = Flock::create_flocks(&ids, &near);
    assert_eq!(members(&flocks), vec![vec![3, 1]]);
}

#[test]
fn nearness_is_read_from_the_joining_boid() {
    let ids = vec![BoidId(0), BoidId(1), BoidId(2)];
    // Boid 1 counts boid 2 as near, not the other way round.
    let near = matrix(3, &[(1, 2)]);
    assert_eq!(members(&Flock::create_flocks(&ids, &near)), vec![vec![2, 1]]);
    let reversed = matrix(3, &[(2, 1)]);
    assert!(Flock::create_flocks(&ids, &reversed).is_empty());
}

#[test]
fn every_flock_has_two_or_more_distinct_boids() {
    let n = 7;
    let ids: Vec<BoidId> = (0..n as u16).map(BoidId).collect();
    let near = symmetric(n, &[(0, 1), (2, 3), (3, 4), (6, 0)]);
    let flocks = Flock::create_flocks(&ids, &near);
    let mut seen = std::collections::HashSet::new();
    for f in &flocks {
        assert!(f.boids.len() > 1);
        for b in &f.boids {
            assert!(seen.insert(b.0));
        }
    }
    // Boid 1 is only near boid 0, which is placed after it, so it stays alone.
    assert_eq!(members(&flocks), vec![vec![6, 0], vec![4, 3, 2]]);
}

#[test]
fn click_actions_follow_editing_mode() {
    assert_eq!(EditingMode::AddBoid.click_action(), ClickAction::AddBoidAt);
    assert_eq!(EditingMode::AddObsticle.click_action(), ClickAction::AddObsticleAt);
    assert_eq!(EditingMode::Remove.click_action(), ClickAction::RemoveNear);
    assert_eq!(EditingMode::Idle.click_action(), ClickAction::Nothing);
}

#[test]
fn controls_switch_mode_and_redraw() {
    let mut controls = BoidsControls::create();
    assert_eq!(controls.editing_mode, EditingMode::Idle);
    assert_eq!(controls.update(BoidsEvent::Clicked), (false, Some(ClickAction::Nothing)));
    assert_eq!(controls.update(BoidsEvent::SetEditingMode(EditingMode::Remove)), (true, None));
    assert_eq!(controls.update(BoidsEvent::Clicked), (false, Some(ClickAction::RemoveNear)));
    assert_eq!(controls.update(BoidsEvent::Tick), (false, None));
    assert_eq!(controls.update(BoidsEvent::AddRandomBoid), (false, None));
    assert_eq!(controls.update(BoidsEvent::Clear), (false, None));
    assert_eq!(controls.update(BoidsEvent::Resize), (true, None));
    assert_eq!(controls.update(BoidsEvent::SetUp), (true, None));
    assert_eq!(controls.update(BoidsEvent::UpdateSetting), (true, None));
    assert_eq!(controls.editing_mode, EditingMode::Remove);
    let _service = ResizeService::new();
}

#[test]
fn flocks_hold_distinct_input_ids_in_groups_of_two_or_more() {
    let ids = vec![BoidId(20), BoidId(21), BoidId(22), BoidId(23), BoidId(24)];
    let near = symmetric(5, &[(0, 2), (2, 4), (1, 3)]);
    let flocks = Flock::create_flocks(&ids, &near);
    let groups = members(&flocks);
    let mut seen: Vec<u16> = vec![];
    for g in &groups {
        assert!(g.len() >= 2);
        for id in g {
            assert!(ids.iter().any(|b| b.0 == *id));
            assert!(!seen.contains(id));
            seen.push(*id);
        }
    }
    assert_eq!(groups, vec![vec![24, 22, 20], vec![23, 21]]);
}
