use hash_attacks::attacks::attack::{Attack, SearchEnd};
use hash_attacks::attacks::attack_options::AttackOptions;
use hash_attacks::attacks::collision_search::{
    bd_attack, Collision, CollisionSearch, Observation, SeenDigests, DISPLAYED_MESSAGES,
};
use hash_attacks::attacks::preimage_search::{is_second_preimage, pre_attack, RandomPreimageSearch};
use hash_attacks::message_gen::{
    GeneratorError, NaturalNumberMessageGenerator, RandomChangeMessageGenerator,
    TransformGenerator,
};
use hash_attacks::truncated_hash::{my_hash_16, my_hash_32};
use std::cell::Cell;

/// A digest of one byte: the length of the message modulo 3.
fn by_length(bytes: &[u8]) -> u8 {
    (bytes.len() % 3) as u8
}

/// A digest of one byte: the sum of the bytes modulo 256.
fn by_sum(bytes: &[u8]) -> u8 {
    bytes.iter().fold(0u8, |sum, byte| sum.wrapping_add(*byte))
}

/// A digest that tells all messages apart: the message itself.
fn by_text(bytes: &[u8]) -> Vec<u8> {
    bytes.to_vec()
}

fn incremental() -> AttackOptions {
    AttackOptions::default().set_incremental_transform(true)
}

fn found_collision(end: &Option<SearchEnd<Collision>>) -> &Collision {
    match end {
        Some(SearchEnd::Found(collision)) => collision,
        other => panic!("no collision: {:?}", other),
    }
}

#[test]
fn second_preimage_needs_the_digest_and_another_text() {
    let initial = String::from("ab");
    assert!(is_second_preimage(&initial, &7u8, &String::from("cd"), &7u8));
    assert!(!is_second_preimage(&initial, &7u8, &String::from("cd"), &8u8));
    assert!(!is_second_preimage(&initial, &7u8, &String::from("ab"), &7u8));
    assert!(!is_second_preimage(&initial, &7u8, &String::from("ab"), &8u8));
}

#[test]
fn preimage_search_from_a_fixed_base() {
    // "ab" has length 2; "ab1" to "ab99" have lengths 3 and 4; "ab100" has length 5
    let mut search = RandomPreimageSearch::new(
        "ab",
        NaturalNumberMessageGenerator::default(),
        by_length,
        AttackOptions::default(),
    );
    assert!(search.outcome().is_none());
    let stats = search.run();
    assert_eq!(stats.generated_messages_count, 100);
    match search.outcome() {
        Some(SearchEnd::Found(message)) => assert_eq!(message, "ab100"),
        other => panic!("no preimage: {:?}", other),
    }
    assert!(!search.options().incremental_transform());
}

#[test]
fn preimage_search_with_the_incremental_transform() {
    // "ab" -> "ab1" -> "ab12" -> "ab123", the first of length 2 modulo 3
    let mut search =
        RandomPreimageSearch::new("ab", NaturalNumberMessageGenerator::default(), by_length, incremental());
    let stats = search.run();
    assert_eq!(stats.generated_messages_count, 3);
    match search.into_outcome() {
        Some(SearchEnd::Found(message)) => assert_eq!(message, "ab123"),
        other => panic!("no preimage: {:?}", other),
    }
}

#[test]
fn preimage_search_over_a_one_byte_digest() {
    let initial = "message";
    let target = by_sum(initial.as_bytes());
    let expected = (1u64..).find(|n| by_sum(format!("{}{}", initial, n).as_bytes()) == target).unwrap();
    let mut search = RandomPreimageSearch::new(
        initial,
        NaturalNumberMessageGenerator::default(),
        by_sum,
        AttackOptions::default(),
    );
    let stats = search.run();
    assert_eq!(stats.generated_messages_count, expected);
    match search.outcome() {
        Some(SearchEnd::Found(message)) => {
            assert_eq!(*message, format!("{}{}", initial, expected));
            assert_ne!(message, initial);
            assert_eq!(by_sum(message.as_bytes()), target);
        },
        other => panic!("no preimage: {:?}", other),
    }
}

#[test]
fn preimage_search_passes_over_the_initial_message() {
    // the first three candidates are the initial message itself
    let calls = Cell::new(0u32);
    let generator = TransformGenerator::new(|message: &str| {
        calls.set(calls.get() + 1);
        if calls.get() <= 3 {
            Ok::<String, GeneratorError>(message.to_owned())
        } else {
            Ok(format!("{}{}", message, "xyz"))
        }
    });
    let mut search = RandomPreimageSearch::new("ab", generator, by_length, AttackOptions::default());
    let stats = search.run();
    assert_eq!(stats.generated_messages_count, 4);
    match search.outcome() {
        Some(SearchEnd::Found(message)) => assert_eq!(message, "abxyz"),
        other => panic!("no preimage: {:?}", other),
    }
}

#[test]
fn preimage_search_holds_candidates_against_the_initial_message_only() {
    // incremental: "ab" -> "abc" -> "ab": the walk comes back to the initial
    // message, which is no preimage; then "abcde" is one
    let calls = Cell::new(0u32);
    let generator = TransformGenerator::new(|_: &str| {
        calls.set(calls.get() + 1);
        Ok::<String, GeneratorError>(String::from(match calls.get() {
            1 => "abc",
            2 => "ab",
            _ => "abcde",
        }))
    });
    let mut search = RandomPreimageSearch::new("ab", generator, by_length, incremental());
    let stats = search.run();
    assert_eq!(stats.generated_messages_count, 3);
    match search.outcome() {
        Some(SearchEnd::Found(message)) => assert_eq!(message, "abcde"),
        other => panic!("no preimage: {:?}", other),
    }
}

#[test]
fn preimage_search_ends_when_the_generator_fails() {
    let mut search = RandomPreimageSearch::new(
        "",
        RandomChangeMessageGenerator::default(),
        by_length,
        AttackOptions::default(),
    );
    let stats = search.run();
    assert_eq!(stats.generated_messages_count, 0);
    assert!(matches!(
        search.outcome(),
        Some(SearchEnd::GeneratorFailed(GeneratorError::InvalidInput))
    ));
}

#[test]
fn preimage_search_ends_when_the_counter_is_exhausted() {
    let mut search = RandomPreimageSearch::new(
        "ab",
        NaturalNumberMessageGenerator::starting_at(u64::MAX - 2),
        by_text,
        AttackOptions::default(),
    );
    let stats = search.run();
    assert_eq!(stats.generated_messages_count, 2);
    assert!(matches!(
        search.outcome(),
        Some(SearchEnd::GeneratorFailed(GeneratorError::CounterExhausted))
    ));
}

#[test]
fn preimage_search_on_sha384_truncated_to_16_bits() {
    let initial = "PRE initial message";
    let mut search = RandomPreimageSearch::new(
        initial,
        NaturalNumberMessageGenerator::default(),
        my_hash_16,
        AttackOptions::default(),
    );
    let stats = search.run();
    match search.outcome() {
        Some(SearchEnd::Found(message)) => {
            assert_ne!(message, initial);
            assert_eq!(my_hash_16(message.as_bytes()), my_hash_16(initial.as_bytes()));
            assert_eq!(*message, format!("{}{}", initial, stats.generated_messages_count));
        },
        other => panic!("no preimage: {:?}", other),
    }
}

#[test]
fn pre_attack_runs_the_search_on_a_function() {
    let calls = Cell::new(0u64);
    let (stats, end) = pre_attack(
        "ab",
        |message: &str| {
            calls.set(calls.get() + 1);
            Ok::<String, GeneratorError>(format!("{}{}", message, calls.get()))
        },
        by_length,
        false,
    );
    assert_eq!(stats.generated_messages_count, 100);
    assert!(matches!(end, SearchEnd::Found(ref message) if message == "ab100"));
    let (stats, end) = pre_attack(
        "ab",
        |message: &str| Ok::<String, GeneratorError>(format!("{}{}", message, "z")),
        by_length,
        true,
    );
    assert_eq!(stats.generated_messages_count, 3);
    assert!(matches!(end, SearchEnd::Found(ref message) if message == "abzzz"));
}

#[test]
fn table_of_first_sightings() {
    let mut seen: SeenDigests<u8> = SeenDigests::new();
    assert!(matches!(seen.observe(7, 0, &String::from("a")), Observation::Fresh));
    assert!(matches!(seen.observe(7, 1, &String::from("a")), Observation::Repeat));
    assert!(matches!(seen.observe(8, 2, &String::from("a")), Observation::Fresh));
    match seen.observe(7, 3, &String::from("b")) {
        Observation::Collision { index, message } => {
            assert_eq!(index, 0);
            assert_eq!(message, "a");
        },
        other => panic!("no collision: {:?}", other),
    }
    // the first sighting stays: "b" was not entered under 7
    assert!(matches!(seen.observe(7, 4, &String::from("a")), Observation::Repeat));
    match seen.observe(8, 5, &String::from("c")) {
        Observation::Collision { index, message } => {
            assert_eq!(index, 2);
            assert_eq!(message, "a");
        },
        other => panic!("no collision: {:?}", other),
    }
}

#[test]
fn collision_search_from_a_fixed_base() {
    // "ab1" is new under digest 0; "ab2" meets it there
    let mut search = CollisionSearch::new(
        "ab",
        NaturalNumberMessageGenerator::default(),
        by_length,
        AttackOptions::default(),
    );
    assert!(search.outcome().is_none());
    assert!(search.displayed_messages().is_empty());
    let stats = search.run();
    assert_eq!(stats.generated_messages_count, 2);
    let collision = found_collision(search.outcome());
    assert_eq!(collision.first, (1, String::from("ab1")));
    assert_eq!(collision.second, (2, String::from("ab2")));
    assert_eq!(*search.displayed_messages(), vec![String::from("ab1"), String::from("ab2")]);
}

#[test]
fn collision_search_can_meet_the_initial_message() {
    // "ab" is entered at index 0 under digest 2; "ab123" meets it there
    let mut search =
        CollisionSearch::new("ab", NaturalNumberMessageGenerator::default(), by_length, incremental());
    let stats = search.run();
    assert_eq!(stats.generated_messages_count, 3);
    let collision = found_collision(search.outcome());
    assert_eq!(collision.first, (0, String::from("ab")));
    assert_eq!(collision.second, (3, String::from("ab123")));
}

#[test]
fn collision_search_passes_over_repeated_messages() {
    // three times the initial message, then "abx" (new), then "aby" (meets "abx")
    let calls = Cell::new(0u32);
    let generator = TransformGenerator::new(|message: &str| {
        calls.set(calls.get() + 1);
        Ok::<String, GeneratorError>(match calls.get() {
            1..=3 => message.to_owned(),
            4 => format!("{}x", message),
            _ => format!("{}y", message),
        })
    });
    let mut search = CollisionSearch::new("ab", generator, by_length, AttackOptions::default());
    let stats = search.run();
    assert_eq!(stats.generated_messages_count, 5);
    let collision = found_collision(search.outcome());
    assert_eq!(collision.first, (4, String::from("abx")));
    assert_eq!(collision.second, (5, String::from("aby")));
    assert_ne!(collision.first.1, collision.second.1);
    assert_eq!(by_length(collision.first.1.as_bytes()), by_length(collision.second.1.as_bytes()));
    let displayed: Vec<&str> = search.displayed_messages().iter().map(|m| m.as_str()).collect();
    assert_eq!(displayed, vec!["ab", "ab", "ab", "abx", "aby"]);
}

#[test]
fn collision_search_moves_its_base_on_after_a_repeat() {
    // incremental: "ab" -> "abc" (new); from "abc" the generator hands back
    // "ab" (known, same text); the next candidate is derived from "ab"
    let calls = Cell::new(0u32);
    let generator = TransformGenerator::new(|message: &str| {
        calls.set(calls.get() + 1);
        Ok::<String, GeneratorError>(match calls.get() {
            1 => String::from("abc"),
            2 => String::from("ab"),
            _ => format!("{}!", message),
        })
    });
    let mut search = CollisionSearch::new("ab", generator, by_length, incremental());
    let stats = search.run();
    assert_eq!(stats.generated_messages_count, 3);
    let collision = found_collision(search.outcome());
    assert_eq!(collision.first, (1, String::from("abc")));
    assert_eq!(collision.second, (3, String::from("ab!")));
}

#[test]
fn collision_search_keeps_the_first_thirty_messages_for_display() {
    // digests 1 to 34 and 0 are new; "m36" meets "m1"
    let by_number = |bytes: &[u8]| -> u8 {
        match std::str::from_utf8(&bytes[1..]).unwrap().parse::<u64>() {
            Ok(number) => (number % 35) as u8,
            Err(_) => 255,
        }
    };
    let mut search = CollisionSearch::new(
        "m",
        NaturalNumberMessageGenerator::default(),
        by_number,
        AttackOptions::default(),
    );
    let stats = search.run();
    assert_eq!(stats.generated_messages_count, 36);
    let collision = found_collision(search.outcome());
    assert_eq!(collision.first, (1, String::from("m1")));
    assert_eq!(collision.second, (36, String::from("m36")));
    assert_eq!(DISPLAYED_MESSAGES, 30);
    assert_eq!(search.displayed_messages().len(), 30);
    for (i, message) in search.displayed_messages().iter().enumerate() {
        assert_eq!(*message, format!("m{}", i + 1));
    }
}

#[test]
fn collision_search_ends_when_the_generator_fails() {
    let mut search = CollisionSearch::new(
        "",
        RandomChangeMessageGenerator::default(),
        by_length,
        AttackOptions::default(),
    );
    let stats = search.run();
    assert_eq!(stats.generated_messages_count, 0);
    assert!(matches!(
        search.outcome(),
        Some(SearchEnd::GeneratorFailed(GeneratorError::InvalidInput))
    ));
    let mut search = CollisionSearch::new(
        "ab",
        NaturalNumberMessageGenerator::starting_at(u64::MAX - 3),
        by_text,
        incremental(),
    );
    let stats = search.run();
    assert_eq!(stats.generated_messages_count, 3);
    assert!(matches!(
        search.into_outcome(),
        Some(SearchEnd::GeneratorFailed(GeneratorError::CounterExhausted))
    ));
}

#[test]
fn collision_search_can_be_run_again() {
    let mut search = CollisionSearch::new(
        "ab",
        NaturalNumberMessageGenerator::default(),
        by_length,
        AttackOptions::default(),
    );
    assert_eq!(search.run().generated_messages_count, 2);
    // the counter goes on: "ab3" is new, "ab4" meets it
    assert_eq!(search.run().generated_messages_count, 2);
    let collision = found_collision(search.outcome());
    assert_eq!(collision.first, (1, String::from("ab3")));
    assert_eq!(collision.second, (2, String::from("ab4")));
}

#[test]
fn collision_search_on_sha384_truncated_to_32_bits_with_a_random_walk() {
    let initial = "BD Подолянко Тимофій Олександрович !x{";
    let mut search =
        CollisionSearch::new(initial, RandomChangeMessageGenerator::default(), my_hash_32, incremental());
    let stats = search.run();
    let collision = found_collision(search.outcome());
    assert_ne!(collision.first.1, collision.second.1);
    assert_eq!(my_hash_32(collision.first.1.as_bytes()), my_hash_32(collision.second.1.as_bytes()));
    assert!(collision.first.0 < collision.second.0);
    assert_eq!(collision.second.0, stats.generated_messages_count);
    assert_eq!(collision.first.1.chars().count(), initial.chars().count());
    assert_eq!(collision.second.1.chars().count(), initial.chars().count());
    assert!(search.options().incremental_transform());
}

#[test]
fn collision_search_on_sha384_truncated_to_16_bits_with_random_changes() {
    let initial = "BD Подолянко Тимофій Олександрович !x{";
    let mut search = CollisionSearch::new(
        initial,
        RandomChangeMessageGenerator::default(),
        my_hash_16,
        AttackOptions::default(),
    );
    let stats = search.run();
    let collision = found_collision(search.outcome());
    assert_ne!(collision.first.1, collision.second.1);
    assert_eq!(my_hash_16(collision.first.1.as_bytes()), my_hash_16(collision.second.1.as_bytes()));
    assert!(collision.first.0 < collision.second.0);
    assert_eq!(collision.second.0, stats.generated_messages_count);
    assert!(!search.options().incremental_transform());
}

#[test]
fn bd_attack_runs_the_search_on_a_function() {
    let calls = Cell::new(0u64);
    let (stats, end) = bd_attack(
        "ab",
        |message: &str| {
            calls.set(calls.get() + 1);
            Ok::<String, GeneratorError>(format!("{}{}", message, calls.get()))
        },
        by_length,
        false,
    );
    assert_eq!(stats.generated_messages_count, 2);
    match end {
        SearchEnd::Found(collision) => {
            assert_eq!(collision.first, (1, String::from("ab1")));
            assert_eq!(collision.second, (2, String::from("ab2")));
        },
        other => panic!("no collision: {:?}", other),
    }
    let (stats, end) =
        bd_attack("", |_: &str| Err::<String, GeneratorError>(GeneratorError::InvalidInput), by_length, true);
    assert_eq!(stats.generated_messages_count, 0);
    assert!(matches!(end, SearchEnd::GeneratorFailed(GeneratorError::InvalidInput)));
}

#[test]
fn bd_attack_on_sha384_truncated_to_16_bits() {
    let calls = Cell::new(0u64);
    let (stats, end) = bd_attack(
        "BD initial message",
        |message: &str| {
            calls.set(calls.get() + 1);
            Ok::<String, GeneratorError>(format!("{}{}", message, calls.get()))
        },
        my_hash_16,
        false,
    );
    match end {
        SearchEnd::Found(collision) => {
            assert_ne!(collision.first.1, collision.second.1);
            assert_eq!(
                my_hash_16(collision.first.1.as_bytes()),
                my_hash_16(collision.second.1.as_bytes())
            );
            assert_eq!(collision.second.0, stats.generated_messages_count);
        },
        other => panic!("no collision: {:?}", other),
    }
}
