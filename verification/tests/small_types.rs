use npc_generator_core::language::Language;
use npc_generator_core::mutation::Mutation;
use npc_generator_core::mutation::MutationChance;
use npc_generator_core::random::WeightedError;
use npc_generator_core::sheet::is_text_le;
use npc_generator_core::sheet::sort_pieces;
use npc_generator_core::text::push_decimal;
use npc_generator_core::text::push_plain;
use npc_generator_core::text::push_signed;
use npc_generator_core::text::same_text;
use npc_generator_core::traits::has_trait;
use npc_generator_core::weighted_container::signed_distribution_of;
use npc_generator_core::weighted_container::WeightedContainer;
use npc_generator_core::weighted_container::WeightedElement;
use npc_generator_core::weighted_container::WeightedHeapArray;
use npc_generator_core::weighted_container::WeightedVector;
use npc_generator_core::DiceFormula;
use npc_generator_core::Die;
use npc_generator_core::MutationProbabilities;
use npc_generator_core::NamedElement;
use npc_generator_core::Probability;
use npc_generator_core::Sense;
use npc_generator_core::Trait;
use rand::SeedableRng;
use std::sync::Arc;

#[test]
fn numbers_are_written_in_decimal() {
    let mut text = String::from("n=");
    push_decimal(&mut text, 0);
    text.push(' ');
    push_decimal(&mut text, 9);
    text.push(' ');
    push_decimal(&mut text, 10);
    text.push(' ');
    push_decimal(&mut text, 1234567890);
    text.push(' ');
    push_decimal(&mut text, u64::MAX);
    assert_eq!(text, "n=0 9 10 1234567890 18446744073709551615");
    let mut signed = String::new();
    push_signed(&mut signed, 0);
    push_signed(&mut signed, 17);
    push_signed(&mut signed, -305);
    push_signed(&mut signed, i64::MIN);
    push_signed(&mut signed, i64::MAX);
    assert_eq!(signed, "+0+17-305-9223372036854775808+9223372036854775807");
    let mut plain = String::new();
    push_plain(&mut plain, 0);
    push_plain(&mut plain, -1);
    push_plain(&mut plain, 42);
    push_plain(&mut plain, i64::MIN);
    assert_eq!(plain, "0-142-9223372036854775808");
    assert!(same_text("abc", "abc"));
    assert!(!same_text("abc", "abd"));
}

#[test]
fn texts_are_ordered_like_a_dictionary() {
    assert!(is_text_le("", ""));
    assert!(is_text_le("", "a"));
    assert!(!is_text_le("a", ""));
    assert!(is_text_le("abc", "abc"));
    assert!(is_text_le("abc", "abd"));
    assert!(!is_text_le("abd", "abc"));
    assert!(is_text_le("ab", "abc"));
    assert!(!is_text_le("abc", "ab"));
    assert!(is_text_le("Zebra", "apple"));
    assert!(is_text_le("e", "é"));
    assert!(is_text_le("é", "日本"));
    for (a, b) in [("Elf", "Human"), ("é", "z"), ("a b", "a-b"), ("", " ")] {
        assert_eq!(is_text_le(a, b), a <= b);
        assert_eq!(is_text_le(b, a), b <= a);
    }
}

#[test]
fn pieces_are_sorted_by_key_and_stay_in_order_among_equals() {
    let keyed = |rows: &[(&str, &str)]| -> Vec<(String, String)> {
        rows.iter().map(|(k, t)| (k.to_string(), t.to_string())).collect()
    };
    assert_eq!(
        sort_pieces(keyed(&[("b", "1"), ("a", "2"), ("c", "3"), ("a", "4"), ("b", "5")])),
        keyed(&[("a", "2"), ("a", "4"), ("b", "1"), ("b", "5"), ("c", "3")])
    );
    assert_eq!(sort_pieces(vec![]), vec![]);
    assert_eq!(sort_pieces(keyed(&[("z", "only")])), keyed(&[("z", "only")]));
}

#[test]
fn dice_roll_within_their_faces() {
    for seed in 0..50 {
        let mut rng = rand::rngs::StdRng::seed_from_u64(seed);
        for (die, faces) in
            [(Die::D4, 4), (Die::D6, 6), (Die::D8, 8), (Die::D10, 10), (Die::D12, 12), (Die::D20, 20)]
        {
            let face = die.roll(&mut rng);
            assert!(1 <= face && face <= faces);
            let sum = DiceFormula(3, die).roll(&mut rng);
            assert!(3 <= sum && sum <= 3 * faces as i32);
        }
        assert_eq!(DiceFormula(0, Die::D6).roll(&mut rng), 0);
        assert_eq!(DiceFormula(-2, Die::D6).roll(&mut rng), 0);
        let many = DiceFormula(127, Die::D20).roll(&mut rng);
        assert!(127 <= many && many <= 2540);
    }
    let mut seen = [false; 4];
    for seed in 0..100 {
        let mut rng = rand::rngs::StdRng::seed_from_u64(seed);
        seen[(Die::D4.roll(&mut rng) - 1) as usize] = true;
    }
    assert_eq!(seen, [true; 4]);
}

#[test]
fn trials_follow_their_chance() {
    let mut rng = rand::rngs::StdRng::seed_from_u64(8);
    for _ in 0..100 {
        assert_eq!(Probability::always().trial(&mut rng), Some(true));
        assert_eq!(Probability::new(5, 5).trial(&mut rng), Some(true));
        assert_eq!(Probability::never().trial(&mut rng), Some(false));
        assert_eq!(Probability::new(0, 9).trial(&mut rng), Some(false));
        assert_eq!(Probability::new(1, 0).trial(&mut rng), None);
        assert_eq!(Probability::new(0, 0).trial(&mut rng), None);
        assert_eq!(Probability::new(4, 3).trial(&mut rng), None);
    }
    let mut outcomes = [0, 0];
    for _ in 0..200 {
        match Probability::new(1, 2).trial(&mut rng) {
            Some(true) => outcomes[1] += 1,
            Some(false) => outcomes[0] += 1,
            None => panic!("one in two is a probability"),
        }
    }
    assert!(outcomes[0] > 0 && outcomes[1] > 0);
}

#[test]
fn the_first_listing_of_a_mutation_counts() {
    let chances = MutationProbabilities {
        chances: vec![
            MutationChance { mutation: Mutation::Heterochromia, chance: Probability::new(1, 4) },
            MutationChance { mutation: Mutation::Heterochromia, chance: Probability::new(3, 4) },
        ],
    };
    assert_eq!(chances.get(Mutation::Heterochromia), Some(Probability::new(1, 4)));
    assert_eq!(MutationProbabilities::default().get(Mutation::Heterochromia), None);
    assert_eq!(chances.clone().chances, chances.chances);
}

#[test]
fn labels_are_kept_as_given() {
    assert_eq!(Trait::new("Humanoid").as_str(), "Humanoid");
    assert_eq!(Trait::new("Humanoid").to_string(), "Humanoid");
    assert_eq!(Trait::default().as_str(), "");
    assert!(Trait::new("a").same(&Trait::new("a")));
    assert!(!Trait::new("a").same(&Trait::new("b")));
    let traits = vec![Trait::new("a"), Trait::new("b")];
    assert!(has_trait(&traits, &Trait::new("b")));
    assert!(!has_trait(&traits, &Trait::new("c")));
    assert_eq!(Sense::new("darkvision").as_ref(), "darkvision");
    let language = Language::new(vec![Trait::new("Common")], "Taldane");
    assert_eq!(language.name(), "Taldane");
    assert_eq!(language.formatted_name(), "Taldane");
    assert_eq!(language.traits(), [Trait::new("Common")]);
    assert_eq!(language.clone().name(), "Taldane");
}

#[test]
fn weighted_lists_map_their_elements() {
    let list = WeightedVector(vec![
        WeightedElement { weight: 3, element: "a".to_string() },
        WeightedElement { weight: -1, element: "bc".to_string() },
    ]);
    assert_eq!(list.weights(), vec![3, -1]);
    assert_eq!(list.elements(), vec!["a".to_string(), "bc".to_string()]);
    let lengths = list.map_elements(|element: String| element.len());
    assert_eq!(lengths.weights(), vec![3, -1]);
    assert_eq!(lengths.elements(), vec![1, 2]);
    let shared = WeightedHeapArray(Arc::new(vec![WeightedElement { weight: 7, element: 2u8 }]));
    assert_eq!(shared.weights(), vec![7]);
    assert_eq!(shared.elements(), vec![2]);
    let doubled = shared.map_elements(|element: u8| element * 2);
    assert_eq!(doubled.elements(), vec![4]);
    assert_eq!(doubled.weights(), vec![7]);
}

#[test]
fn weighted_lists_give_their_distribution() {
    let list = WeightedVector(vec![
        WeightedElement { weight: 0, element: 'a' },
        WeightedElement { weight: 4, element: 'b' },
        WeightedElement { weight: 0, element: 'c' },
    ]);
    let distribution = list.weighted_distribution().unwrap();
    for seed in 0..50 {
        let mut rng = rand::rngs::StdRng::seed_from_u64(seed);
        assert_eq!(distribution.sample(&mut rng), 1);
    }
    let negative = WeightedVector(vec![
        WeightedElement { weight: 3, element: 'a' },
        WeightedElement { weight: -1, element: 'b' },
    ]);
    assert!(matches!(negative.weighted_distribution(), Err(WeightedError::InvalidWeight)));
    let empty: WeightedVector<char> = WeightedVector(vec![]);
    assert!(matches!(empty.weighted_distribution(), Err(WeightedError::NoItem)));
    let zero = WeightedHeapArray(Arc::new(vec![WeightedElement { weight: 0, element: 1u8 }]));
    assert!(matches!(zero.weighted_distribution(), Err(WeightedError::AllWeightsZero)));
    assert!(matches!(signed_distribution_of(&vec![i64::MAX, 1]), Err(WeightedError::InvalidWeight)));
    assert!(signed_distribution_of(&vec![i64::MAX - 1, 1]).is_ok());
    assert!(matches!(signed_distribution_of(&vec![-5]), Err(WeightedError::InvalidWeight)));
}
