use kwarpd::hints::{calculate_hints, find_hint_by_prefix, find_hint_exact};

#[test]
fn test_calculate_hints() {
    let hints = calculate_hints(1920, 1080, "abcd", 20);
    assert_eq!(hints.len(), 16);
    assert_eq!(hints[0].label, "aa");
    assert_eq!(hints[1].label, "ab");
}

#[test]
fn test_find_hint() {
    let hints = calculate_hints(1920, 1080, "ab", 20);
    let matches = find_hint_by_prefix(&hints, "a");
    assert_eq!(matches.len(), 2);

    let exact = find_hint_exact(&hints, "ab");
    assert!(exact.is_some());
    assert_eq!(exact.unwrap().label, "ab");
}

#[test]
fn grid_positions_are_row_major() {
    // 16 labels on 16:9 give 6 columns and 3 rows.
    let hints = calculate_hints(1920, 1080, "abcd", 20);
    assert_eq!((hints[0].x, hints[0].y), (274, 270));
    assert_eq!((hints[5].x, hints[5].y), (6 * 274, 270));
    assert_eq!((hints[6].x, hints[6].y), (274, 540));
    assert_eq!(hints[15].label, "dd");
    assert!(hints.iter().all(|h| h.label.chars().count() == 2));
}

#[test]
fn full_alphabet_gives_all_pairs() {
    let hints = calculate_hints(1920, 1080, "abcdefghijklmnopqrstuvwxyz", 20);
    assert_eq!(hints.len(), 676);
    assert_eq!(hints[27].label, "bb");
    assert!(hints.iter().all(|h| h.x > 0 && h.x < 1920 && h.y > 0 && h.y < 1080));
}

#[test]
fn empty_alphabet_gives_no_hints() {
    assert!(calculate_hints(800, 600, "", 20).is_empty());
}

#[test]
fn lookups_may_find_nothing() {
    let hints = calculate_hints(1920, 1080, "ab", 20);
    assert!(find_hint_by_prefix(&hints, "z").is_empty());
    assert_eq!(find_hint_by_prefix(&hints, "").len(), 4);
    assert!(find_hint_exact(&hints, "zz").is_none());
    assert!(find_hint_exact(&hints, "a").is_none());
}

#[test]
fn every_label_found_exactly_once() {
    let hints = calculate_hints(1280, 1024, "asdfghjkl", 20);
    assert_eq!(hints.len(), 81);
    for h in &hints {
        let found = find_hint_exact(&hints, &h.label).unwrap();
        assert_eq!((found.x, found.y), (h.x, h.y));
        assert_eq!(find_hint_by_prefix(&hints, &h.label).len(), 1);
        assert_eq!(find_hint_by_prefix(&hints, &h.label[..1]).len(), 9);
    }
}
