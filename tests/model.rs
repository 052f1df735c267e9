use paddle_sim::registry::free_key;
use std::collections::HashMap;
use paddle_sim::game::is_won;
use paddle_sim::game::report::decimal_text;
use paddle_sim::{
    Data, LookupError, NameGenerator, Player, PlayerId, Side, Space, Team, TeamId, Weather,
    SKILL_SCALE,
};
use rand::SeedableRng;
use rand_chacha::ChaCha20Rng;

fn words(list: &[&str]) -> Vec<String> {
    list.iter().map(|w| w.to_string()).collect()
}

fn registry() -> Data {
    let names = NameGenerator::new(words(&["Ada", "Bo", "Cy"]), words(&["Stone", "Vale"])).unwrap();
    Data::new(names)
}

#[test]
fn opposite_swaps_sides() {
    assert_eq!(Side::Home.opposite(), Side::Away);
    assert_eq!(Side::Away.opposite(), Side::Home);
}

#[test]
fn farthest_of_the_ends_is_the_other_end() {
    let mut rng = ChaCha20Rng::seed_from_u64(1);
    assert_eq!(Space::First.farthest(&mut rng), Space::Third);
    assert_eq!(Space::Third.farthest(&mut rng), Space::First);
}

#[test]
fn farthest_of_the_middle_is_an_end() {
    let mut rng = ChaCha20Rng::seed_from_u64(2);
    let mut seen_first = false;
    let mut seen_third = false;
    for _ in 0..200 {
        let s = Space::Middle.farthest(&mut rng);
        assert_ne!(s, Space::Middle);
        seen_first |= s == Space::First;
        seen_third |= s == Space::Third;
    }
    assert!(seen_first && seen_third);
}

#[test]
fn farthest_by_picks_the_named_end() {
    assert_eq!(Space::Middle.farthest_by(true), Space::First);
    assert_eq!(Space::Middle.farthest_by(false), Space::Third);
    assert_eq!(Space::First.farthest_by(false), Space::Third);
}

#[test]
fn random_space_covers_all_zones() {
    let mut rng = ChaCha20Rng::seed_from_u64(3);
    let mut seen = [false; 3];
    for _ in 0..300 {
        match Space::random(&mut rng) {
            Space::First => seen[0] = true,
            Space::Middle => seen[1] = true,
            Space::Third => seen[2] = true,
        }
    }
    assert_eq!(seen, [true, true, true]);
}

#[test]
fn zone_and_weather_indices() {
    assert_eq!(Space::from_index(0), Space::First);
    assert_eq!(Space::from_index(1), Space::Middle);
    assert_eq!(Space::from_index(2), Space::Third);
    assert_eq!(Weather::from_index(0), Weather::Clear);
    assert_eq!(Weather::from_index(3), Weather::Observation);
    assert_eq!(Weather::from_index(4), Weather::Unpredictable);
}

#[test]
fn random_weather_is_never_omni() {
    let mut rng = ChaCha20Rng::seed_from_u64(4);
    for _ in 0..500 {
        assert_ne!(Weather::random(&mut rng), Weather::Omni);
    }
}

#[test]
fn weather_labels() {
    assert_eq!(Weather::Clear.as_str(), "Clear");
    assert_eq!(Weather::Feedback.as_str(), "Feedback");
    assert_eq!(Weather::Reverb.as_str(), "Reverb");
    assert_eq!(Weather::Observation.as_str(), "Observation");
    assert_eq!(Weather::Unpredictable.as_str(), "???");
    assert_eq!(Weather::Omni.as_str(), "All");
    assert_eq!(Weather::Clear.announcement_text(), "It's a sunny day!");
}

#[test]
fn win_condition_examples() {
    assert!(is_won(5, 3));
    assert!(!is_won(5, 4));
    assert!(is_won(6, 4));
    assert!(is_won(5, 0));
    assert!(!is_won(4, 0));
    assert!(!is_won(6, 5));
    assert!(is_won(7, 5));
    assert!(!is_won(usize::MAX, usize::MAX));
}

#[test]
fn decimal_rendering() {
    assert_eq!(decimal_text(0), "0");
    assert_eq!(decimal_text(7), "7");
    assert_eq!(decimal_text(10), "10");
    assert_eq!(decimal_text(1234), "1234");
    assert_eq!(decimal_text(usize::MAX), usize::MAX.to_string());
}

#[test]
fn skill_checks_by_draw() {
    let p = Player::with_skills("Ada Stone".to_string(), 300, 600, 100);
    assert!(p.distracted_by(99));
    assert!(!p.distracted_by(100));
    assert!(p.in_time_by(301));
    assert!(!p.in_time_by(300));
    assert!(p.controlled_by(601));
    assert!(!p.controlled_by(600));
    assert_eq!(p.get_name(), "Ada Stone");
}

#[test]
fn skill_checks_follow_the_skill() {
    let mut rng = ChaCha20Rng::seed_from_u64(5);
    let never = Player::with_skills("N".to_string(), SKILL_SCALE - 1, SKILL_SCALE - 1, 0);
    let always = Player::with_skills("A".to_string(), 0, 0, SKILL_SCALE);
    for _ in 0..100 {
        assert!(!never.distraction_check(&mut rng));
        assert!(!never.speed_check(&mut rng));
        assert!(!never.control_check(&mut rng));
        assert!(always.distraction_check(&mut rng));
    }
}

#[test]
fn name_generator_needs_both_lists() {
    assert!(NameGenerator::new(vec![], words(&["Vale"])).is_none());
    assert!(NameGenerator::new(words(&["Ada"]), vec![]).is_none());
    assert!(NameGenerator::new(words(&["Ada"]), words(&["Vale"])).is_some());
}

#[test]
fn generated_names_join_a_first_and_a_last_name() {
    let g = NameGenerator::new(words(&["Ada", "Bo"]), words(&["Stone", "Vale"])).unwrap();
    let mut rng = ChaCha20Rng::seed_from_u64(6);
    for _ in 0..50 {
        let n = g.generate(&mut rng);
        let parts: Vec<&str> = n.split(' ').collect();
        assert_eq!(parts.len(), 2);
        assert!(["Ada", "Bo"].contains(&parts[0]));
        assert!(["Stone", "Vale"].contains(&parts[1]));
    }
}

#[test]
fn new_players_have_skills_in_range() {
    let mut data = registry();
    let mut rng = ChaCha20Rng::seed_from_u64(7);
    for _ in 0..20 {
        let id = data.new_player(&mut rng);
        let p = data.get_player(&id).unwrap();
        assert!(!p.get_name().is_empty());
        assert!(data.player_name(&id).is_ok());
    }
}

#[test]
fn random_teams_have_seven_to_twelve_registered_players() {
    let mut data = registry();
    let mut rng = ChaCha20Rng::seed_from_u64(8);
    for k in 0..20 {
        let id = data.add_team(format!("Team {k}"), &mut rng);
        let team = data.get_team(&id).unwrap();
        let n = team.get_players().len();
        assert!((7..=12).contains(&n));
        assert_eq!(team.get_name(), format!("Team {k}"));
        for p in team.get_players() {
            assert!(data.get_player(p).is_some());
        }
        assert_eq!(team.get_current_player(), Some(team.get_players()[0]));
        assert_eq!(id.get_current_player(&data), Some(team.get_players()[0]));
        assert_eq!(data.check_team(&id), Ok(()));
    }
}

#[test]
fn lookups_of_unknown_ids_fail() {
    let data = registry();
    let team = TeamId { uuid: 42 };
    let player = PlayerId { uuid: 43 };
    assert!(data.get_team(&team).is_none());
    assert!(data.get_player(&player).is_none());
    assert_eq!(data.player_name(&player), Err(LookupError::NotFound));
    assert_eq!(team.get_current_player(&data), None);
    assert_eq!(data.lookup_error(&team), LookupError::NotFound);
    assert_eq!(data.check_team(&team), Err(LookupError::NotFound));
}

#[test]
fn empty_roster_has_no_active_player() {
    let mut data = registry();
    let id = data.insert_team(Team::new("Nobody".to_string(), vec![]), &mut ChaCha20Rng::seed_from_u64(0));
    assert_eq!(id.get_current_player(&data), None);
    assert_eq!(data.lookup_error(&id), LookupError::EmptyRoster);
    assert_eq!(data.check_team(&id), Err(LookupError::EmptyRoster));
}

#[test]
fn unregistered_roster_entry_is_not_found() {
    let mut data = registry();
    let id = data.insert_team(Team::new("Ghosts".to_string(), vec![PlayerId { uuid: 9 }]), &mut ChaCha20Rng::seed_from_u64(0));
    assert_eq!(data.check_team(&id), Err(LookupError::NotFound));
}

#[test]
fn setting_the_active_player() {
    let mut data = registry();
    let mut rng = ChaCha20Rng::seed_from_u64(9);
    let a = data.new_player(&mut rng);
    let b = data.new_player(&mut rng);
    let t = data.insert_team(Team::new("Pair".to_string(), vec![a, b]), &mut ChaCha20Rng::seed_from_u64(0));
    assert!(data.set_active_player(&t, b));
    assert_eq!(data.get_team(&t).unwrap().get_players(), &vec![b, b]);
    let empty = data.insert_team(Team::new("None".to_string(), vec![]), &mut ChaCha20Rng::seed_from_u64(0));
    assert!(!data.set_active_player(&empty, a));
    assert!(!data.set_active_player(&TeamId { uuid: 1 }, a));
}

#[test]
fn shuffling_keeps_the_roster_members() {
    let mut data = registry();
    let mut rng = ChaCha20Rng::seed_from_u64(10);
    let t = data.add_team("Mixed".to_string(), &mut rng);
    let before = data.get_team(&t).unwrap().get_players().clone();
    let mut changed = false;
    for _ in 0..10 {
        assert!(data.shuffle_team(&t, &mut rng));
        let mut after = data.get_team(&t).unwrap().get_players().clone();
        changed |= after != before;
        let mut sorted_before = before.clone();
        sorted_before.sort_by_key(|p| p.uuid);
        after.sort_by_key(|p| p.uuid);
        assert_eq!(after, sorted_before);
    }
    assert!(changed);
    assert!(!data.shuffle_team(&TeamId { uuid: 5 }, &mut rng));
}

#[test]
fn active_slot_can_be_changed_in_place() {
    let mut data = registry();
    let mut rng = ChaCha20Rng::seed_from_u64(23);
    let a = data.new_player(&mut rng);
    let b = data.new_player(&mut rng);
    let t = data.insert_team(Team::new("Pair".to_string(), vec![a, b]), &mut ChaCha20Rng::seed_from_u64(0));
    *t.get_current_player_mut(&mut data).unwrap() = b;
    assert_eq!(t.get_current_player(&data), Some(b));
    assert_eq!(data.get_team(&t).unwrap().get_players(), &vec![b, b]);
    assert!(TeamId { uuid: 2 }.get_current_player_mut(&mut data).is_none());
    let team = data.get_team_mut(&t).unwrap();
    *team.get_current_player_mut().unwrap() = a;
    assert_eq!(t.get_current_player(&data), Some(a));
    assert!(data.get_player_mut(&a).is_some());
    assert!(data.get_player_mut(&PlayerId { uuid: 3 }).is_none());
    assert!(data.get_team_mut(&TeamId { uuid: 4 }).is_none());
}

#[test]
fn fresh_ids_differ() {
    let mut data = registry();
    let mut rng = ChaCha20Rng::seed_from_u64(24);
    let a = data.new_player(&mut rng);
    let b = data.new_player(&mut rng);
    assert_ne!(a, b);
    assert_ne!(TeamId::new(&mut rng), TeamId::new(&mut rng));
}

#[test]
fn players_from_draws() {
    let p = Player::from_draws("Ada Stone".to_string(), 10, 20, 500_000);
    assert!(p.in_time_by(11) && !p.in_time_by(10));
    assert!(p.controlled_by(21) && !p.controlled_by(20));
    assert!(p.distracted_by(249_999) && !p.distracted_by(250_000));
    assert_eq!(p.get_name(), "Ada Stone");
}

#[test]
fn positions_after_the_check() {
    let p = Player::with_skills("P".to_string(), 300, 600, 100);
    // On the ball and not distracted: stays.
    assert_eq!(p.position_after(Space::First, Space::First, 100, 2), Space::First);
    // On the ball and distracted: the drawn zone.
    assert_eq!(p.position_after(Space::First, Space::First, 99, 2), Space::Third);
    // Off the ball and in time: reaches it.
    assert_eq!(p.position_after(Space::Middle, Space::Third, 301, 0), Space::Third);
    // Off the ball and late: the drawn zone.
    assert_eq!(p.position_after(Space::Middle, Space::Third, 300, 0), Space::First);
    assert!(p.moves_at_random(Space::First, Space::First, 99));
    assert!(!p.moves_at_random(Space::First, Space::Third, 301));
}

#[test]
fn shots_after_the_check() {
    let p = Player::with_skills("P".to_string(), 300, 600, 100);
    assert_eq!(p.shot_after(Space::First, 601, 0), Space::Third);
    assert_eq!(p.shot_after(Space::Third, 601, 0), Space::First);
    assert_eq!(p.shot_after(Space::Middle, 601, 0), Space::First);
    assert_eq!(p.shot_after(Space::Middle, 601, 1), Space::Third);
    assert_eq!(p.shot_after(Space::First, 600, 1), Space::Middle);
}

#[test]
fn free_keys_skip_taken_ones() {
    let mut m: HashMap<u128, ()> = HashMap::new();
    assert_eq!(free_key(&m, 5), 5);
    m.insert(5, ());
    m.insert(6, ());
    assert_eq!(free_key(&m, 5), 7);
    m.insert(u128::MAX, ());
    assert_eq!(free_key(&m, u128::MAX), 0);
}

#[test]
fn tokens_come_from_the_generator() {
    let mut a = ChaCha20Rng::seed_from_u64(30);
    let mut b = ChaCha20Rng::seed_from_u64(30);
    let x = paddle_sim::random::random_token(&mut a);
    assert_eq!(x, paddle_sim::random::random_token(&mut b));
    assert_ne!(x, paddle_sim::random::random_token(&mut a));
    let u = uuid::Uuid::from_u128(x);
    assert_eq!(u.get_version_num(), 4);
}

#[test]
fn same_seed_same_ids() {
    let mut a = ChaCha20Rng::seed_from_u64(31);
    let mut b = ChaCha20Rng::seed_from_u64(31);
    let mut da = registry();
    let mut db = registry();
    let ta = da.add_team("T".to_string(), &mut a);
    let tb = db.add_team("T".to_string(), &mut b);
    assert_eq!(ta, tb);
    assert_eq!(da.get_team(&ta).unwrap().get_players(), db.get_team(&tb).unwrap().get_players());
}

#[test]
fn clashing_team_ids_are_moved() {
    let mut data = registry();
    let a = data.insert_team(Team::new("A".to_string(), vec![]), &mut ChaCha20Rng::seed_from_u64(3));
    let b = data.insert_team(Team::new("B".to_string(), vec![]), &mut ChaCha20Rng::seed_from_u64(3));
    assert_ne!(a, b);
    assert_eq!(data.get_team(&a).unwrap().get_name(), "A");
    assert_eq!(data.get_team(&b).unwrap().get_name(), "B");
}
