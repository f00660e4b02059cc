use npc_generator_core::newtypes::checked_total;
use npc_generator_core::newtypes::distribution_of;
use npc_generator_core::newtypes::WeightMap;
use npc_generator_core::random::WeightedError;
use npc_generator_core::Background;
use npc_generator_core::Skill;
use rand::SeedableRng;

fn table(rows: &[(&str, u32)]) -> WeightMap<String> {
    let mut table = WeightMap::new();
    for (key, weight) in rows {
        table.insert(key.to_string(), *weight);
    }
    table
}

#[test]
fn empty_table_cannot_be_split() {
    let table: WeightMap<String> = WeightMap::new();
    assert!(table.is_empty());
    assert_eq!(table.len(), 0);
    assert!(matches!(table.split_weights(), Err(WeightedError::NoItem)));
    let mut rng = rand::rngs::StdRng::seed_from_u64(1);
    assert_eq!(table.draw(&mut rng), Err(WeightedError::NoItem));
}

#[test]
fn table_of_zero_weights_cannot_be_split() {
    let table = table(&[("a", 0), ("b", 0)]);
    assert!(matches!(table.split_weights(), Err(WeightedError::AllWeightsZero)));
}

#[test]
fn table_whose_weights_pass_the_largest_weight_cannot_be_split() {
    let table = table(&[("a", u32::MAX), ("b", 1)]);
    assert!(matches!(table.split_weights(), Err(WeightedError::InvalidWeight)));
    assert_eq!(checked_total(&vec![u32::MAX, 1]), None);
    assert_eq!(checked_total(&vec![u32::MAX - 1, 1]), Some(u32::MAX));
    assert_eq!(checked_total(&vec![]), Some(0));
    assert!(distribution_of(&vec![u32::MAX - 1, 1]).is_ok());
}

#[test]
fn table_with_a_positive_weight_is_split_row_by_row() {
    let table = table(&[("a", 0), ("b", 3), ("c", 0)]);
    let (values, _distribution) = table.split_weights().unwrap();
    assert_eq!(values, vec!["a", "b", "c"]);
    assert_eq!(table.values(), vec![0, 3, 0]);
    assert_eq!(table.keys(), vec!["a", "b", "c"]);
}

#[test]
fn draw_only_returns_positive_rows() {
    let table = table(&[("never", 0), ("often", 5), ("rarely", 1)]);
    let mut seen_often = false;
    let mut seen_rarely = false;
    for seed in 0..200 {
        let mut rng = rand::rngs::StdRng::seed_from_u64(seed);
        let drawn = table.draw(&mut rng).unwrap();
        assert!(drawn == "often" || drawn == "rarely");
        seen_often |= drawn == "often";
        seen_rarely |= drawn == "rarely";
    }
    assert!(seen_often && seen_rarely);
}

#[test]
fn draw_except_never_returns_the_excluded_key() {
    let table = table(&[("blue", 5), ("green", 1), ("grey", 0)]);
    for seed in 0..100 {
        let mut rng = rand::rngs::StdRng::seed_from_u64(seed);
        assert_eq!(table.draw_except(&mut rng, "blue").unwrap(), "green");
    }
    let lone = self::table(&[("blue", 5), ("grey", 0)]);
    let mut rng = rand::rngs::StdRng::seed_from_u64(3);
    assert_eq!(lone.draw_except(&mut rng, "blue"), Err(WeightedError::AllWeightsZero));
}

#[test]
fn overrides_replace_stored_weights_in_the_draw_only() {
    let table = table(&[("a", 1), ("b", 1)]);
    let only_b = |key: &String| if key == "a" { Some(0) } else { None };
    for seed in 0..50 {
        let mut rng = rand::rngs::StdRng::seed_from_u64(seed);
        let (values, distribution) = table.split_weights_with_modifications(only_b).unwrap();
        let index = distribution.sample(&mut rng);
        assert_eq!(values[index], "b");
    }
    assert_eq!(table.get(&"a".to_string()), Some(&1));
    let none = |_: &String| Some(0);
    assert!(matches!(
        table.split_weights_with_modifications(none),
        Err(WeightedError::AllWeightsZero)
    ));
}

#[test]
fn insert_replaces_and_reports_the_old_weight() {
    let mut table = table(&[("a", 1)]);
    assert_eq!(table.insert("b".to_string(), 2), None);
    assert_eq!(table.insert("a".to_string(), 7), Some(1));
    assert_eq!(table.len(), 2);
    assert_eq!(table.get(&"a".to_string()), Some(&7));
    assert_eq!(table.get(&"b".to_string()), Some(&2));
    assert_eq!(table.get(&"c".to_string()), None);
    assert_eq!(table.keys(), vec!["a", "b"]);
    assert_eq!(table.iter(), vec![(&"a".to_string(), 7), (&"b".to_string(), 2)]);
}

#[test]
fn extend_adds_the_weights_of_shared_keys() {
    let mut left = table(&[("a", 1), ("b", 2)]);
    let right = table(&[("b", 5), ("c", 3)]);
    left.extend(right);
    assert_eq!(left.iter(), vec![
        (&"a".to_string(), 1),
        (&"b".to_string(), 7),
        (&"c".to_string(), 3)
    ]);
    let mut full = table(&[("a", u32::MAX - 1)]);
    full.extend(table(&[("a", 5)]));
    assert_eq!(full.get(&"a".to_string()), Some(&u32::MAX));
}

#[test]
fn extend_does_not_depend_on_the_order_of_the_tables() {
    let a = [("x", 1u32), ("y", 2)];
    let b = [("y", 10u32), ("z", 20)];
    let c = [("x", 100u32), ("z", 200)];
    let mut ab = table(&a);
    ab.extend(table(&b));
    let mut ba = table(&b);
    ba.extend(table(&a));
    for key in ["x", "y", "z"] {
        assert_eq!(ab.get(&key.to_string()), ba.get(&key.to_string()));
    }
    let mut ab_c = table(&a);
    ab_c.extend(table(&b));
    ab_c.extend(table(&c));
    let mut bc = table(&b);
    bc.extend(table(&c));
    let mut a_bc = table(&a);
    a_bc.extend(bc);
    for key in ["x", "y", "z"] {
        assert_eq!(ab_c.get(&key.to_string()), a_bc.get(&key.to_string()));
    }
    assert_eq!(ab_c.get(&"x".to_string()), Some(&101));
    assert_eq!(ab_c.get(&"y".to_string()), Some(&12));
    assert_eq!(ab_c.get(&"z".to_string()), Some(&220));
}

#[test]
fn from_pairs_keeps_the_last_weight_of_a_key() {
    let table = WeightMap::from_pairs(vec![
        ("a".to_string(), 1),
        ("b".to_string(), 2),
        ("a".to_string(), 3),
    ]);
    assert_eq!(table.len(), 2);
    assert_eq!(table.get(&"a".to_string()), Some(&3));
    assert_eq!(table.clone().into_keys(), vec!["a".to_string(), "b".to_string()]);
    assert_eq!(table.into_values(), vec![3, 2]);
}

#[test]
fn from_pairs_keeps_the_row_and_the_key_that_came_first() {
    let table = WeightMap::from_pairs(vec![
        (Background::new("Farmer", vec![], vec![Skill::Nature]), 1),
        (Background::new("Sailor", vec![], vec![]), 2),
        (Background::new("Farmer", vec![], vec![Skill::Athletics]), 5),
    ]);
    assert_eq!(table.values(), vec![5, 2]);
    let keys = table.keys();
    assert_eq!(keys.len(), 2);
    assert_eq!(keys[0].name, "Farmer");
    assert_eq!(keys[0].trainings, vec![Skill::Nature]);
    assert_eq!(keys[1].name, "Sailor");
}
