use gist::{gist_line, list, run_each, sort_gists, Gist, GistError, ReadError, RunError, Timestamp};

fn gist(name: &str, secs: i64, nanos: u32, archived: bool) -> Gist {
    Gist { name: name.to_string(), created_at: Timestamp::new(secs, nanos), archived }
}

fn names(gists: &[Gist]) -> Vec<&str> {
    gists.iter().map(|g| g.name.as_str()).collect()
}

#[test]
fn sort_puts_active_first_then_newest_then_by_name() {
    let sorted = sort_gists(vec![
        gist("archived", 300, 0, true),
        gist("gamma", 100, 0, false),
        gist("beta", 200, 0, false),
        gist("alpha", 100, 0, false),
        gist("old-archived", 50, 0, true),
    ]);
    assert_eq!(names(&sorted), vec!["beta", "alpha", "gamma", "archived", "old-archived"]);
}

#[test]
fn sort_compares_nanoseconds_and_names_by_character() {
    let sorted = sort_gists(vec![
        gist("b", 100, 1, false),
        gist("b", 100, 2, false),
        gist("ab", 100, 0, false),
        gist("a", 100, 0, false),
        gist("B", 100, 0, false),
        gist("\u{e9}", 100, 0, false),
    ]);
    assert_eq!(names(&sorted), vec!["b", "b", "B", "a", "ab", "\u{e9}"]);
    assert_eq!(sorted[0].created_at, Timestamp::new(100, 2));
}

#[test]
fn sort_of_nothing_is_nothing() {
    assert!(sort_gists(Vec::new()).is_empty());
}

#[test]
fn gist_lines() {
    assert_eq!(gist_line("2026-05-24 10:00", &gist("alpha", 0, 0, false)), "2026-05-24 10:00 | alpha\n");
    assert_eq!(
        gist_line("2026-05-25 10:00", &gist("archived", 0, 0, true)),
        "2026-05-25 10:00 | archived (archived)\n"
    );
}

#[test]
fn list_sorts_gists_and_keeps_errors_in_order() {
    let entries = vec![
        Ok(Some(gist("gamma", 1, 0, false))),
        Err(GistError::ReadEntry { cause: "first".to_string() }),
        Ok(None),
        Ok(Some(gist("delta", 2, 0, false))),
        Err(GistError::ReadMetadata {
            cause: ReadError::Parse { path: "/r/broken/.gist.json".to_string(), cause: "second".to_string() },
        }),
    ];

    let listing = list(entries);

    assert_eq!(names(&listing.gists), vec!["delta", "gamma"]);
    assert_eq!(listing.errors.len(), 2);
    assert_eq!(listing.errors[0].messages(), vec!["cannot read directory entry".to_string(), "first".to_string()]);
    assert_eq!(
        listing.errors[1].messages(),
        vec!["cannot parse \"/r/broken/.gist.json\"".to_string(), "second".to_string()]
    );
}

#[test]
fn run_each_fails_when_any_fails() {
    let ok: Vec<Result<(), GistError>> = vec![Ok(()), Ok(())];
    assert_eq!(run_each(&ok), Ok(()));
    let none: Vec<Result<(), GistError>> = Vec::new();
    assert_eq!(run_each(&none), Ok(()));
    let partial: Vec<Result<(), GistError>> =
        vec![Ok(()), Err(GistError::AlreadyExists { name: "alpha".to_string() }), Ok(())];
    let error = run_each(&partial).unwrap_err();
    assert_eq!(error, RunError::SomeGistsFailed);
    assert_eq!(error.message(), "some gists failed");
}

#[test]
fn listing_does_not_depend_on_entry_order() {
    let entries = |order: &[usize]| {
        let all = [("beta", 2, false), ("alpha", 1, false), ("gamma", 1, false), ("old", 3, true)];
        order
            .iter()
            .map(|&i| Ok(Some(gist(all[i].0, all[i].1, 0, all[i].2))))
            .chain(std::iter::once(Err(GistError::ReadEntry { cause: "x".to_string() })))
            .collect::<Vec<_>>()
    };
    let first = list(entries(&[0, 1, 2, 3]));
    let second = list(entries(&[3, 2, 1, 0]));
    assert_eq!(names(&first.gists), names(&second.gists));
    assert_eq!(names(&first.gists), vec!["beta", "alpha", "gamma", "old"]);
}
