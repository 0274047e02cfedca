use beep::commands::dice::{lacks_dice, parse_roll, roll_message_text, roll_reply, Roll, RollParseError};

#[test]
fn roll_new_keeps_its_arguments() {
    let r = Roll::new(3, 6);
    assert_eq!((r.times, r.dice), (3, 6));
}

#[test]
fn parse_reads_count_and_faces() {
    let r = parse_roll("3d6").unwrap();
    assert_eq!((r.times, r.dice), (3, 6));
    let r = parse_roll("2D20").unwrap();
    assert_eq!((r.times, r.dice), (2, 20));
    let r = parse_roll("+1d+4").unwrap();
    assert_eq!((r.times, r.dice), (1, 4));
}

#[test]
fn parse_takes_faces_up_to_the_next_separator() {
    let r = parse_roll("3d6d8").unwrap();
    assert_eq!((r.times, r.dice), (3, 6));
    let r = parse_roll("1D2d3").unwrap();
    assert_eq!((r.times, r.dice), (1, 2));
}

#[test]
fn parse_refuses_a_bad_count() {
    assert_eq!(parse_roll("xd6").err(), Some(RollParseError::NoCount));
    assert_eq!(parse_roll("d6").err(), Some(RollParseError::NoCount));
    assert_eq!(parse_roll("").err(), Some(RollParseError::NoCount));
    assert_eq!(parse_roll("abc").err(), Some(RollParseError::NoCount));
    assert_eq!(parse_roll("4294967296d6").err(), Some(RollParseError::NoCount));
}

#[test]
fn parse_refuses_bad_faces() {
    assert_eq!(parse_roll("3dx").err(), Some(RollParseError::NoDice));
    assert_eq!(parse_roll("3d").err(), Some(RollParseError::NoDice));
    assert_eq!(parse_roll("3dd6").err(), Some(RollParseError::NoDice));
    assert_eq!(parse_roll("3d4294967296").err(), Some(RollParseError::NoDice));
}

#[test]
fn lacks_dice_only_for_a_bare_count() {
    assert!(lacks_dice("3"));
    assert!(lacks_dice("+12"));
    assert!(!lacks_dice("3d6"));
    assert!(!lacks_dice("x"));
    assert!(!lacks_dice(""));
}

#[test]
fn notation_reads_back() {
    for (t, d) in [(0u32, 0u32), (1, 6), (3, 20), (u32::MAX, u32::MAX)] {
        let r = parse_roll(&format!("{}d{}", t, d)).unwrap();
        assert_eq!((r.times, r.dice), (t, d));
    }
}

#[test]
fn total_adds_the_faces() {
    assert_eq!(Roll::total(&vec![]), 0);
    assert_eq!(Roll::total(&vec![1, 2, 3]), 6);
    assert_eq!(Roll::total(&vec![6, 6, 6, 6]), 24);
}

#[test]
fn throw_draws_one_face_per_die_in_range() {
    let r = Roll::new(50, 6);
    for _ in 0..20 {
        let (faces, _) = r.throw();
        assert_eq!(faces.len(), 50);
        assert!(faces.iter().all(|f| (1..=6).contains(f)));
    }
}

#[test]
fn throw_varies() {
    let r = Roll::new(40, 1000);
    let (faces, _) = r.throw();
    assert!(faces.iter().any(|f| *f != faces[0]));
}

#[test]
fn roll_totals_stay_in_range() {
    let r = Roll::new(10, 6);
    for _ in 0..50 {
        let (t, _) = r.roll();
        assert!((10..=60).contains(&t));
    }
    assert_eq!(Roll::new(5, 1).roll().0, 5);
    assert_eq!(Roll::new(0, 0).roll().0, 0);
    assert_eq!(Roll::new(0, 6).roll().0, 0);
}

#[test]
fn roll_message_is_exact() {
    assert_eq!(roll_message_text(&Roll::new(3, 6), 12), "You rolled a d6 s time3 and got a `12`");
    assert_eq!(roll_message_text(&Roll::new(1, 20), 7), "You rolled a d20  time1 and got a `7`");
    assert_eq!(roll_message_text(&Roll::new(0, 4), 0), "You rolled a d4  time0 and got a `0`");
}

#[test]
fn roll_reply_apologises_for_bad_notation() {
    assert_eq!(roll_reply("abc").0.as_deref(), Some("I'm sorry but you did not give me a number for the amount of the rolls!"));
    assert_eq!(roll_reply("2dx").0.as_deref(), Some("I'm sorry but you did not give me a valid dice!"));
}

#[test]
fn roll_reply_reports_a_total() {
    let reply = roll_reply("2d1").0.unwrap();
    assert_eq!(reply, "You rolled a d1 s time2 and got a `2`");
    let reply = roll_reply("3d6").0.unwrap();
    let prefix = "You rolled a d6 s time3 and got a `";
    assert!(reply.starts_with(prefix) && reply.ends_with('`'));
    let total: u32 = reply[prefix.len()..reply.len() - 1].parse().unwrap();
    assert!((3..=18).contains(&total));
}

#[test]
fn can_throw_limits() {
    assert!(Roll::new(0, 0).can_throw());
    assert!(Roll::new(0, u32::MAX).can_throw());
    assert!(!Roll::new(1, 0).can_throw());
    assert!(!Roll::new(1, u32::MAX).can_throw());
    assert!(Roll::new(1, u32::MAX - 1).can_throw());
    assert!(Roll::new(65535, 65537).can_throw());
    assert!(!Roll::new(65536, 65537).can_throw());
}

#[test]
fn dice_usable_limits() {
    assert!(Roll::new(0, 0).dice_usable());
    assert!(Roll::new(3, 1).dice_usable());
    assert!(Roll::new(u32::MAX, u32::MAX - 1).dice_usable());
    assert!(!Roll::new(1, 0).dice_usable());
    assert!(!Roll::new(1, u32::MAX).dice_usable());
}

#[test]
fn total_checked_detects_overflow() {
    assert_eq!(Roll::total_checked(&vec![]), Some(0));
    assert_eq!(Roll::total_checked(&vec![1, 2, 3]), Some(6));
    assert_eq!(Roll::total_checked(&vec![u32::MAX, 0]), Some(u32::MAX));
    assert_eq!(Roll::total_checked(&vec![u32::MAX, 1]), None);
    assert_eq!(Roll::total_checked(&vec![u32::MAX / 2 + 1, u32::MAX / 2 + 1, 0]), None);
}

#[test]
fn roll_reply_gives_up_when_the_total_overflows() {
    let big = u32::MAX - 1;
    let mut overflowed = false;
    for _ in 0..20 {
        match roll_reply(&format!("3d{}", big)).0 {
            None => overflowed = true,
            Some(reply) => assert!(reply.starts_with(&format!("You rolled a d{} s time3 and got a `", big))),
        }
    }
    assert!(overflowed);
}

#[test]
fn roll_reaches_the_top_face() {
    let r = Roll::new(1, 2);
    let mut seen = [false; 3];
    for _ in 0..200 {
        seen[r.roll().0 as usize] = true;
    }
    assert!(seen[1] && seen[2]);
}
