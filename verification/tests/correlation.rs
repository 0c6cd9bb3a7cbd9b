use patrol::{dir_created_mask, Config, Patrol, RawEvent, Reaction, Session, Target};

const CREATE: u32 = 0x0000_0100;
const MODIFY: u32 = 0x0000_0002;
const DELETE: u32 = 0x0000_0200;

fn running<T>(extend: bool, targets: Vec<Target<T>>) -> Session<T> {
    let patrol = Patrol::new(Config { watch_new_directory: extend }, targets);
    let mut session = match patrol.start() {
        Ok(session) => session,
        Err(e) => panic!("the targets were refused: {:?}", e),
    };
    let mut handle = 0u64;
    while let Some(path) = session.next_request() {
        handle += 1;
        session.installed(path, handle);
    }
    assert!(session.is_registered());
    session
}

fn change(handle: u64, name: &str, mask: u32) -> RawEvent {
    RawEvent { handle, name: Some(name.to_string()), mask }
}

fn delivered<T>(reaction: Reaction<T>) -> (T, String) {
    match reaction {
        Reaction::Deliver(event) => (event.data, event.path),
        Reaction::Ignored => panic!("ignored"),
        Reaction::Extend { .. } => panic!("asked for a watch"),
    }
}

#[test]
fn dir_created_mask_is_create_and_isdir() {
    assert_eq!(dir_created_mask(), 0x4000_0100);
    let expected = inotify::EventMask::CREATE | inotify::EventMask::ISDIR;
    assert_eq!(dir_created_mask(), expected.bits());
}

#[test]
fn a_directory_target_matches_any_entry() {
    let session = running(false, vec![Target::new("/srv/data".to_string(), false, 11u32)]);
    let (data, path) = delivered(session.correlate(&change(1, "anything.bin", MODIFY)));
    assert_eq!(data, 11);
    assert_eq!(path, "/srv/data/anything.bin");
    let (data, path) = delivered(session.correlate(&change(1, "gone", DELETE)));
    assert_eq!(data, 11);
    assert_eq!(path, "/srv/data/gone");
}

#[test]
fn an_unregistered_name_beside_file_targets_is_ignored() {
    let session = running(false, vec![Target::new("/srv/data/a.txt".to_string(), true, 1u32)]);
    assert!(matches!(session.correlate(&change(1, "b.txt", CREATE)), Reaction::Ignored));
}

#[test]
fn a_file_target_matches_its_exact_name_only() {
    let session = running(false, vec![Target::new("/srv/data/a.txt".to_string(), true, 1u32)]);
    assert!(matches!(session.correlate(&change(1, "a.txt~", MODIFY)), Reaction::Ignored));
    assert!(matches!(session.correlate(&change(1, "A.txt", MODIFY)), Reaction::Ignored));
    assert!(matches!(session.correlate(&change(1, "a.tx", MODIFY)), Reaction::Ignored));
    let (data, path) = delivered(session.correlate(&change(1, "a.txt", MODIFY)));
    assert_eq!(data, 1);
    assert_eq!(path, "/srv/data/a.txt");
}

#[test]
fn files_of_one_directory_are_told_apart_by_name() {
    let targets = vec![
        Target::new("/srv/data/a.txt".to_string(), true, "first".to_string()),
        Target::new("/srv/data/b.txt".to_string(), true, "second".to_string()),
        Target::new("/etc/b.txt".to_string(), true, "third".to_string()),
    ];
    let session = running(false, targets);
    assert_eq!(
        delivered(session.correlate(&change(1, "a.txt", MODIFY))),
        ("first".to_string(), "/srv/data/a.txt".to_string())
    );
    assert_eq!(
        delivered(session.correlate(&change(1, "b.txt", MODIFY))),
        ("second".to_string(), "/srv/data/b.txt".to_string())
    );
    assert_eq!(
        delivered(session.correlate(&change(2, "b.txt", MODIFY))),
        ("third".to_string(), "/etc/b.txt".to_string())
    );
    assert!(matches!(session.correlate(&change(2, "a.txt", MODIFY)), Reaction::Ignored));
}

#[test]
fn the_last_registration_of_a_file_wins() {
    let targets = vec![
        Target::new("/srv/data/a.txt".to_string(), true, 1u32),
        Target::new("/srv/data/a.txt".to_string(), true, 2u32),
    ];
    let session = running(false, targets);
    assert_eq!(delivered(session.correlate(&change(1, "a.txt", MODIFY))).0, 2);
}

#[test]
fn the_directory_target_is_asked_before_the_files() {
    let targets = vec![
        Target::new("/srv/data/a.txt".to_string(), true, 1u32),
        Target::new("/srv/data".to_string(), false, 2u32),
    ];
    let session = running(false, targets);
    assert_eq!(delivered(session.correlate(&change(1, "a.txt", MODIFY))).0, 2);
    assert_eq!(delivered(session.correlate(&change(1, "z.txt", MODIFY))).0, 2);
}

#[test]
fn a_notification_without_name_is_ignored() {
    let session = running(true, vec![Target::new("/srv/data".to_string(), false, 1u32)]);
    let raw = RawEvent { handle: 1, name: None, mask: DELETE };
    assert!(matches!(session.correlate(&raw), Reaction::Ignored));
}

#[test]
fn an_unknown_handle_is_ignored() {
    let session = running(true, vec![Target::new("/srv/data".to_string(), false, 1u32)]);
    assert!(matches!(session.correlate(&change(9, "a.txt", MODIFY)), Reaction::Ignored));
}

#[test]
fn a_new_directory_is_adopted_when_extension_is_on() {
    let mut session = running(true, vec![Target::new("/srv/data".to_string(), false, 42u32)]);
    let reaction = session.correlate(&change(1, "sub", dir_created_mask()));
    let (event, owner) = match reaction {
        Reaction::Extend { event, owner } => (event, owner),
        _ => panic!("no watch was asked for"),
    };
    assert_eq!(event.data, 42);
    assert_eq!(event.path, "/srv/data/sub");
    assert_eq!(owner, 0);
    session.adopt(event.path.clone(), 2, owner);
    let (data, path) = delivered(session.correlate(&change(2, "file", CREATE)));
    assert_eq!(data, 42);
    assert_eq!(path, "/srv/data/sub/file");
}

#[test]
fn a_new_directory_under_an_adopted_one_is_adopted_too() {
    let mut session = running(true, vec![Target::new("/srv/data".to_string(), false, 42u32)]);
    session.adopt("/srv/data/sub".to_string(), 2, 0);
    match session.correlate(&change(2, "deeper", dir_created_mask())) {
        Reaction::Extend { event, owner } => {
            assert_eq!(event.path, "/srv/data/sub/deeper");
            assert_eq!(event.data, 42);
            assert_eq!(owner, 0);
        }
        _ => panic!("no watch was asked for"),
    }
}

#[test]
fn a_new_directory_is_only_reported_when_extension_is_off() {
    let session = running(false, vec![Target::new("/srv/data".to_string(), false, 42u32)]);
    let (data, path) = delivered(session.correlate(&change(1, "sub", dir_created_mask())));
    assert_eq!(data, 42);
    assert_eq!(path, "/srv/data/sub");
    assert!(matches!(session.correlate(&change(2, "file", CREATE)), Reaction::Ignored));
}

#[test]
fn a_watched_directory_is_not_asked_for_again() {
    let targets = vec![
        Target::new("/srv/data".to_string(), false, 1u32),
        Target::new("/srv/data/sub".to_string(), false, 2u32),
    ];
    let session = running(true, targets);
    let (data, path) = delivered(session.correlate(&change(1, "sub", dir_created_mask())));
    assert_eq!(data, 1);
    assert_eq!(path, "/srv/data/sub");
}

#[test]
fn adopting_a_watched_directory_changes_nothing() {
    let targets = vec![
        Target::new("/srv/data".to_string(), false, 1u32),
        Target::new("/srv/data/sub".to_string(), false, 2u32),
    ];
    let mut session = running(true, targets);
    session.adopt("/srv/data/sub".to_string(), 7, 0);
    assert!(matches!(session.correlate(&change(7, "x", MODIFY)), Reaction::Ignored));
    assert_eq!(delivered(session.correlate(&change(2, "x", MODIFY))).0, 2);
}

#[test]
fn only_the_exact_creation_of_a_directory_extends() {
    let session = running(true, vec![Target::new("/srv/data".to_string(), false, 1u32)]);
    assert!(matches!(session.correlate(&change(1, "sub", CREATE)), Reaction::Deliver(_)));
    assert!(matches!(
        session.correlate(&change(1, "sub", 0x4000_0000 | DELETE)),
        Reaction::Deliver(_)
    ));
    assert!(matches!(
        session.correlate(&change(1, "sub", dir_created_mask() | MODIFY)),
        Reaction::Deliver(_)
    ));
}

#[test]
fn a_file_target_does_not_extend_for_other_names() {
    let session = running(true, vec![Target::new("/srv/data/a.txt".to_string(), true, 1u32)]);
    assert!(matches!(
        session.correlate(&change(1, "sub", dir_created_mask())),
        Reaction::Ignored
    ));
}

#[test]
fn a_second_watch_report_keeps_the_first_handle() {
    let patrol = Patrol::new(
        Config::default(),
        vec![Target::new("/srv/data".to_string(), false, 1u32)],
    );
    let mut session = patrol.start().unwrap();
    session.installed("/srv/data".to_string(), 3);
    session.installed("/srv/data".to_string(), 4);
    assert_eq!(session.next_request(), None);
    assert!(session.is_registered());
    assert_eq!(delivered(session.correlate(&change(3, "x", MODIFY))).0, 1);
    assert!(matches!(session.correlate(&change(4, "x", MODIFY)), Reaction::Ignored));
}

#[test]
fn a_handle_shared_by_two_paths_leads_to_the_later_one() {
    let targets = vec![
        Target::new("/srv/data".to_string(), false, 1u32),
        Target::new("/srv/./data".to_string(), false, 2u32),
    ];
    let patrol = Patrol::new(Config::default(), targets);
    let mut session = patrol.start().unwrap();
    assert_eq!(session.next_request(), Some("/srv/data".to_string()));
    session.installed("/srv/data".to_string(), 1);
    assert_eq!(session.next_request(), Some("/srv/./data".to_string()));
    session.installed("/srv/./data".to_string(), 1);
    assert_eq!(session.next_request(), None);
    assert!(session.is_registered());
    let (data, path) = delivered(session.correlate(&change(1, "x", MODIFY)));
    assert_eq!(data, 2);
    assert_eq!(path, "/srv/./data/x");
}
