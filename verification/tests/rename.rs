use copymaster::copy_engine::CopyOptions;
use copymaster::local_engine::LocalCopyEngine;

fn engine() -> LocalCopyEngine {
    LocalCopyEngine::new(CopyOptions::default())
}

#[test]
fn first_collision_gets_counter_one() {
    let e = engine();
    let existing = vec![String::from("report.txt")];
    let name = e.generate_unique_filename("report.txt", &existing, 7);
    assert_eq!(name, "report (1).txt");
    assert!(!existing.contains(&name));
}

#[test]
fn lowest_unused_counter_wins() {
    let e = engine();
    let existing = vec![
        String::from("report.txt"),
        String::from("report (1).txt"),
        String::from("report (3).txt"),
    ];
    let name = e.generate_unique_filename("report.txt", &existing, 7);
    assert_eq!(name, "report (2).txt");
}

#[test]
fn name_without_extension_gets_bare_counter() {
    let e = engine();
    let existing = vec![String::from("notes")];
    let name = e.generate_unique_filename("notes", &existing, 7);
    assert_eq!(name, "notes (1)");
}

#[test]
fn hidden_file_keeps_its_leading_dot() {
    let e = engine();
    let existing = vec![String::from(".bashrc")];
    let name = e.generate_unique_filename(".bashrc", &existing, 7);
    assert_eq!(name, ".bashrc (1)");
}

#[test]
fn exhausted_counters_fall_back_to_timestamp() {
    let e = engine();
    let mut existing = vec![String::from("a.txt")];
    for k in 1..=1000u64 {
        existing.push(format!("a ({}).txt", k));
    }
    let name = e.generate_unique_filename("a.txt", &existing, 1700000000);
    assert_eq!(name, "a_copy_1700000000.txt");
    assert!(!existing.contains(&name));
}

#[test]
fn generation_is_idempotent_with_no_new_collisions() {
    let e = engine();
    let existing = vec![String::from("a.txt"), String::from("a (1).txt")];
    let first = e.generate_unique_filename("a.txt", &existing, 100);
    let again = e.generate_unique_filename("a.txt", &existing, 200);
    assert_eq!(first, again);
    assert_eq!(first, "a (2).txt");
}

#[test]
fn no_collision_at_all_still_counts_from_one() {
    let e = engine();
    let existing: Vec<String> = Vec::new();
    let name = e.generate_unique_filename("photo.jpeg", &existing, 7);
    assert_eq!(name, "photo (1).jpeg");
}
