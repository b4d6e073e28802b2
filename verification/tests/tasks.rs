use gist::{Action, Event, GistError, Metadata, Repository, Timestamp};

fn repository() -> Repository {
    Repository::open("/r", Ok("/r".to_string()), true).unwrap()
}

fn s(text: &str) -> String {
    text.to_string()
}

#[test]
fn create_asks_for_each_step_in_turn() {
    let created_at = Timestamp::new(1_779_584_523, 0);
    let (mut task, action) = repository().create("alpha", created_at);
    assert!(matches!(action, Action::CheckExists { ref path } if path == "/r/alpha"));
    assert!(!task.accepts(&Event::Done));

    let action = task.step(Event::Exists { exists: false });
    assert!(matches!(action, Action::CreateDirectory { ref path } if path == "/r/alpha"));
    let action = task.step(Event::Done);
    assert!(matches!(action, Action::CreateDirectory { ref path } if path == "/r/alpha/.vscode"));
    let action = task.step(Event::Done);
    match action {
        Action::WriteFile { path, contents } => {
            assert_eq!(path, "/r/alpha/.vscode/settings.json");
            assert_eq!(contents, b"{\n}".to_vec());
        }
        other => panic!("unexpected {other:?}"),
    }
    let action = task.step(Event::Done);
    match action {
        Action::SerializeMetadata { metadata } => assert_eq!(metadata, Metadata::from_created_at(created_at)),
        other => panic!("unexpected {other:?}"),
    }
    let action = task.step(Event::Serialized { contents: vec![1, 2, 3] });
    match action {
        Action::WriteFile { path, contents } => {
            assert_eq!(path, "/r/alpha/.gist.json.tmp");
            assert_eq!(contents, vec![1, 2, 3]);
        }
        other => panic!("unexpected {other:?}"),
    }
    let action = task.step(Event::Done);
    match action {
        Action::Rename { from, to } => {
            assert_eq!(from, "/r/alpha/.gist.json.tmp");
            assert_eq!(to, "/r/alpha/.gist.json");
        }
        other => panic!("unexpected {other:?}"),
    }
    let action = task.step(Event::Done);
    assert!(matches!(action, Action::Finish { outcome: Ok(None) }));
    assert!(task.is_finished());
    assert!(!task.accepts(&Event::Done));
}

#[test]
fn create_with_invalid_name_finishes_at_once() {
    let (task, action) = repository().create("..", Timestamp::new(0, 0));
    assert!(task.is_finished());
    assert!(matches!(action, Action::Finish { outcome: Err(GistError::InvalidName { .. }) }));
}

#[test]
fn failed_directory_creation_ends_create() {
    let (mut task, _) = repository().create("alpha", Timestamp::new(0, 0));
    task.step(Event::Exists { exists: false });
    let action = task.step(Event::Failed { cause: s("denied") });
    match action {
        Action::Finish { outcome: Err(error) } => assert_eq!(
            error.messages(),
            vec![s("cannot create directory \"/r/alpha\""), s("denied")]
        ),
        other => panic!("unexpected {other:?}"),
    }
    assert!(task.is_finished());
}

#[test]
fn archive_writes_back_archived_metadata() {
    let archived_at = Timestamp::new(500, 0);
    let (mut task, action) = repository().archive("alpha", archived_at);
    assert!(matches!(action, Action::ReadFile { ref path } if path == "/r/alpha/.gist.json"));
    let action = task.step(Event::Contents { contents: vec![7] });
    assert!(matches!(action, Action::ParseMetadata { ref contents } if contents == &vec![7]));
    let read = Metadata::from_created_at(Timestamp::new(100, 0));
    let action = task.step(Event::Parsed { metadata: read });
    match action {
        Action::SerializeMetadata { metadata } => assert_eq!(metadata, read.archived(archived_at)),
        other => panic!("unexpected {other:?}"),
    }
}

#[test]
fn unarchive_of_unparsable_metadata_fails() {
    let (mut task, _) = repository().unarchive("alpha");
    task.step(Event::Contents { contents: b"not json".to_vec() });
    let action = task.step(Event::Failed { cause: s("expected value") });
    match action {
        Action::Finish { outcome: Err(error) } => assert_eq!(
            error.messages(),
            vec![
                s("cannot read existing metadata in \"/r/alpha/.gist.json\""),
                s("cannot parse \"/r/alpha/.gist.json\""),
                s("expected value"),
            ]
        ),
        other => panic!("unexpected {other:?}"),
    }
}

#[test]
fn failed_rename_during_unarchive() {
    let (mut task, _) = repository().unarchive("alpha");
    task.step(Event::Contents { contents: vec![] });
    task.step(Event::Parsed { metadata: Metadata::from_created_at(Timestamp::new(1, 0)) });
    task.step(Event::Serialized { contents: vec![] });
    task.step(Event::Done);
    let action = task.step(Event::Failed { cause: s("busy") });
    match action {
        Action::Finish { outcome: Err(error) } => assert_eq!(
            error.messages(),
            vec![
                s("cannot write new metadata to \"/r/alpha/.gist.json\""),
                s("cannot rename temporary file \"/r/alpha/.gist.json.tmp\" to \"/r/alpha/.gist.json\""),
                s("busy"),
            ]
        ),
        other => panic!("unexpected {other:?}"),
    }
}

#[test]
fn inspect_reports_gist_or_nothing() {
    let (mut task, action) = repository().inspect("alpha");
    assert!(matches!(action, Action::QueryDirectory { ref path } if path == "/r/alpha"));
    let action = task.step(Event::IsDirectory { is_directory: true });
    assert!(matches!(action, Action::CheckExists { ref path } if path == "/r/alpha/.gist.json"));
    task.step(Event::Exists { exists: true });
    task.step(Event::Contents { contents: vec![] });
    let metadata = Metadata::from_created_at(Timestamp::new(9, 0)).archived(Timestamp::new(10, 0));
    match task.step(Event::Parsed { metadata }) {
        Action::Finish { outcome: Ok(Some(gist)) } => {
            assert_eq!(gist.name, "alpha");
            assert_eq!(gist.created_at, Timestamp::new(9, 0));
            assert!(gist.archived);
        }
        other => panic!("unexpected {other:?}"),
    }

    let (mut task, _) = repository().inspect("note.txt");
    assert!(matches!(task.step(Event::IsDirectory { is_directory: false }), Action::Finish { outcome: Ok(None) }));

    let (mut task, _) = repository().inspect("plain");
    task.step(Event::IsDirectory { is_directory: true });
    assert!(matches!(task.step(Event::Exists { exists: false }), Action::Finish { outcome: Ok(None) }));

    let (mut task, _) = repository().inspect("gone");
    match task.step(Event::Failed { cause: s("vanished") }) {
        Action::Finish { outcome: Err(error) } => {
            assert_eq!(error.messages(), vec![s("cannot read file type of \"/r/gone\""), s("vanished")])
        }
        other => panic!("unexpected {other:?}"),
    }
}
