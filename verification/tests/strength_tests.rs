use chess_bot::strength::{calculate_depth_from_elo, calculate_skill_from_elo, map_rating_to_strength};

#[test]
fn canonical_table_band_values() {
    assert_eq!(calculate_skill_from_elo(1000), 1);
    assert_eq!(calculate_skill_from_elo(1249), 1);
    assert_eq!(calculate_skill_from_elo(1250), 2);
    assert_eq!(calculate_skill_from_elo(1349), 2);
    assert_eq!(calculate_skill_from_elo(1350), 3);
    assert_eq!(calculate_skill_from_elo(1500), 4);
    assert_eq!(calculate_skill_from_elo(2049), 9);
    assert_eq!(calculate_skill_from_elo(2050), 10);
    assert_eq!(calculate_skill_from_elo(3049), 19);
    assert_eq!(calculate_skill_from_elo(3050), 20);
}

#[test]
fn depth_follows_the_same_bands() {
    assert_eq!(calculate_depth_from_elo(1000), 1);
    assert_eq!(calculate_depth_from_elo(1500), 4);
    assert_eq!(calculate_depth_from_elo(2500), 14);
    assert_eq!(calculate_depth_from_elo(9000), 20);
}

#[test]
fn defined_for_extreme_ratings() {
    assert_eq!(calculate_skill_from_elo(i32::MIN), 1);
    assert_eq!(calculate_skill_from_elo(-5), 1);
    assert_eq!(calculate_skill_from_elo(i32::MAX), 20);
    assert_eq!(calculate_depth_from_elo(i32::MIN), 1);
    assert_eq!(calculate_depth_from_elo(i32::MAX), 20);
}

#[test]
fn skill_and_depth_are_non_decreasing() {
    let samples: Vec<i32> = vec![
        i32::MIN,
        -100,
        0,
        1249,
        1250,
        1300,
        1349,
        1350,
        1777,
        2049,
        2050,
        2949,
        2950,
        3049,
        3050,
        100000,
        i32::MAX,
    ];
    for w in samples.windows(2) {
        assert!(calculate_skill_from_elo(w[0]) <= calculate_skill_from_elo(w[1]));
        assert!(calculate_depth_from_elo(w[0]) <= calculate_depth_from_elo(w[1]));
    }
}

#[test]
fn profile_bundles_both_fields() {
    let p = map_rating_to_strength(1500);
    assert_eq!(p.skill_level, 4);
    assert_eq!(p.search_depth, 4);
    let p = map_rating_to_strength(400);
    assert_eq!(p.skill_level, 1);
    assert_eq!(p.search_depth, 1);
}
