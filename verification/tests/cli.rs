//! The command-line scenarios, run against the library with an in-memory
//! file system standing in for the disk.

use std::collections::{BTreeMap, BTreeSet};

use chrono::{DateTime, FixedOffset, SecondsFormat, Utc};
use gist::{gist_line, list, run_each, Action, Event, Gist, GistError, Metadata, Repository, Task, Timestamp};

const ROOT: &str = "/tmp/gist-root";

#[derive(Default)]
struct Disk {
    directories: BTreeSet<String>,
    files: BTreeMap<String, Vec<u8>>,
}

impl Disk {
    fn new() -> Disk {
        let mut disk = Disk::default();
        disk.directories.insert(ROOT.to_string());
        disk
    }

    fn parent(path: &str) -> String {
        match path.rfind('/') {
            Some(0) => "/".to_string(),
            Some(i) => path[..i].to_string(),
            None => String::new(),
        }
    }

    fn holds(&self, path: &str) -> bool {
        self.directories.contains(path) || self.files.contains_key(path)
    }

    fn create_dir(&mut self, path: &str) -> Result<(), String> {
        if self.holds(path) {
            return Err("File exists (os error 17)".to_string());
        }
        if !self.directories.contains(&Disk::parent(path)) {
            return Err("No such file or directory (os error 2)".to_string());
        }
        self.directories.insert(path.to_string());
        Ok(())
    }

    fn write(&mut self, path: &str, contents: &[u8]) -> Result<(), String> {
        if !self.directories.contains(&Disk::parent(path)) || self.directories.contains(path) {
            return Err("No such file or directory (os error 2)".to_string());
        }
        self.files.insert(path.to_string(), contents.to_vec());
        Ok(())
    }

    fn read(&self, path: &str) -> Result<Vec<u8>, String> {
        self.files.get(path).cloned().ok_or_else(|| "No such file or directory (os error 2)".to_string())
    }

    fn rename(&mut self, from: &str, to: &str) -> Result<(), String> {
        let contents = self.files.remove(from).ok_or_else(|| "No such file or directory (os error 2)".to_string())?;
        self.files.insert(to.to_string(), contents);
        Ok(())
    }

    fn entries(&self, directory: &str) -> Vec<String> {
        let prefix = format!("{directory}/");
        let mut names: Vec<String> = self
            .directories
            .iter()
            .map(|p| p.as_str())
            .chain(self.files.keys().map(|p| p.as_str()))
            .filter(|p| p.starts_with(&prefix) && !p[prefix.len()..].contains('/'))
            .map(|p| p[prefix.len()..].to_string())
            .collect();
        names.sort();
        names.dedup();
        names
    }
}

fn to_datetime(t: Timestamp) -> DateTime<Utc> {
    DateTime::from_timestamp(t.secs, t.nanos).unwrap()
}

fn from_datetime(t: DateTime<Utc>) -> Timestamp {
    Timestamp::new(t.timestamp(), t.timestamp_subsec_nanos())
}

fn encode(metadata: &Metadata) -> Vec<u8> {
    let mut map = serde_json::Map::new();
    map.insert(
        "created_at".to_string(),
        serde_json::Value::String(to_datetime(metadata.created_at).to_rfc3339_opts(SecondsFormat::AutoSi, true)),
    );
    map.insert(
        "archived_at".to_string(),
        match metadata.archived_at {
            Some(t) => serde_json::Value::String(to_datetime(t).to_rfc3339_opts(SecondsFormat::AutoSi, true)),
            None => serde_json::Value::Null,
        },
    );
    serde_json::to_vec_pretty(&serde_json::Value::Object(map)).unwrap()
}

fn parse_time(value: &serde_json::Value) -> Result<Timestamp, String> {
    let text = value.as_str().ok_or("expected a string")?;
    let t = DateTime::parse_from_rfc3339(text).map_err(|e| e.to_string())?;
    Ok(from_datetime(t.with_timezone(&Utc)))
}

fn decode(contents: &[u8]) -> Result<Metadata, String> {
    let value: serde_json::Value = serde_json::from_slice(contents).map_err(|e| e.to_string())?;
    let created_at = parse_time(&value["created_at"])?;
    let archived_at = match &value["archived_at"] {
        serde_json::Value::Null => None,
        other => Some(parse_time(other)?),
    };
    Ok(Metadata { created_at, archived_at })
}

fn done(result: Result<(), String>) -> Event {
    match result {
        Ok(()) => Event::Done,
        Err(cause) => Event::Failed { cause },
    }
}

fn perform(disk: &mut Disk, action: Action) -> Event {
    match action {
        Action::CheckExists { path } => Event::Exists { exists: disk.holds(&path) },
        Action::QueryDirectory { path } => {
            if disk.holds(&path) {
                Event::IsDirectory { is_directory: disk.directories.contains(&path) }
            } else {
                Event::Failed { cause: "No such file or directory (os error 2)".to_string() }
            }
        }
        Action::CreateDirectory { path } => done(disk.create_dir(&path)),
        Action::WriteFile { path, contents } => done(disk.write(&path, &contents)),
        Action::ReadFile { path } => match disk.read(&path) {
            Ok(contents) => Event::Contents { contents },
            Err(cause) => Event::Failed { cause },
        },
        Action::ParseMetadata { contents } => match decode(&contents) {
            Ok(metadata) => Event::Parsed { metadata },
            Err(cause) => Event::Failed { cause },
        },
        Action::SerializeMetadata { metadata } => Event::Serialized { contents: encode(&metadata) },
        Action::Rename { from, to } => done(disk.rename(&from, &to)),
        Action::Finish { .. } => unreachable!(),
    }
}

fn drive(disk: &mut Disk, started: (Task, Action)) -> Result<Option<Gist>, GistError> {
    let (mut task, mut action) = started;
    loop {
        match action {
            Action::Finish { outcome } => {
                assert!(task.is_finished());
                return outcome;
            }
            other => {
                let event = perform(disk, other);
                assert!(task.accepts(&event));
                action = task.step(event);
            }
        }
    }
}

fn repository() -> Repository {
    Repository::open(ROOT, Ok(ROOT.to_string()), true).unwrap()
}

fn text(error: &GistError) -> String {
    error.messages().join("\n")
}

fn now() -> Timestamp {
    from_datetime("2026-05-24T05:06:07Z".parse::<DateTime<Utc>>().unwrap())
}

fn each(disk: &mut Disk, names: &[&str], start: impl Fn(&Repository, &str) -> (Task, Action)) -> (Result<(), String>, String) {
    let repository = repository();
    let mut outcomes = Vec::new();
    let mut log = String::new();
    for name in names {
        let outcome = drive(disk, start(&repository, name));
        if let Err(error) = &outcome {
            log.push_str(&text(error));
            log.push('\n');
        }
        outcomes.push(outcome);
    }
    (run_each(&outcomes).map_err(|e| e.message()), log)
}

fn create(disk: &mut Disk, names: &[&str]) -> (Result<(), String>, String) {
    each(disk, names, |r, name| r.create(name, now()))
}

fn archive(disk: &mut Disk, names: &[&str]) -> (Result<(), String>, String) {
    each(disk, names, |r, name| r.archive(name, now()))
}

fn unarchive(disk: &mut Disk, names: &[&str]) -> (Result<(), String>, String) {
    each(disk, names, |r, name| r.unarchive(name))
}

fn write_metadata(disk: &mut Disk, name: &str, created_at: &str, archived_at: Option<&str>) {
    let directory = format!("{ROOT}/{name}");
    disk.create_dir(&directory).unwrap();
    let created_at = from_datetime(created_at.parse::<DateTime<Utc>>().unwrap());
    let archived_at = archived_at.map(|t| from_datetime(t.parse::<DateTime<Utc>>().unwrap()));
    disk.write(&format!("{directory}/.gist.json"), &encode(&Metadata { created_at, archived_at })).unwrap();
}

fn metadata(disk: &Disk, name: &str) -> Metadata {
    decode(&disk.read(&format!("{ROOT}/{name}/.gist.json")).unwrap()).unwrap()
}

fn list_output(disk: &mut Disk) -> (String, String) {
    let repository = repository();
    let mut entries = Vec::new();
    for name in disk.entries(ROOT) {
        entries.push(drive(disk, repository.inspect(&name)));
    }
    let listing = list(entries);
    let tokyo = FixedOffset::east_opt(9 * 3600).unwrap();
    let mut out = String::new();
    for gist in &listing.gists {
        let time = to_datetime(gist.created_at).with_timezone(&tokyo).format("%Y-%m-%d %H:%M").to_string();
        out.push_str(&gist_line(&time, gist));
    }
    let log: Vec<String> = listing.errors.iter().map(text).collect();
    (out, log.join("\n"))
}

#[test]
fn test_root_uses_gist_root_env() {
    let repository = Repository::open("/tmp/link", Ok("/tmp/gist-root".to_string()), true).unwrap();
    assert_eq!(gist::root(&repository), format!("{}\n", "/tmp/gist-root"));
}

#[test]
fn test_root_prints_canonical_root() {
    let repository = Repository::open("/tmp/./gist-root/", Ok("/tmp/gist-root".to_string()), true).unwrap();
    assert_eq!(gist::root(&repository), format!("{}\n", "/tmp/gist-root"));
}

#[test]
fn test_root_fails_for_missing_root() {
    let missing = format!("{ROOT}/missing");
    let error = Repository::open(&missing, Err("No such file or directory (os error 2)".to_string()), false).unwrap_err();
    assert!(text(&error).contains("cannot resolve gist root"));
}

#[test]
fn test_root_fails_for_file_root() {
    let file = format!("{ROOT}/file");
    let error = Repository::open(&file, Ok(file.clone()), false).unwrap_err();
    assert!(text(&error).contains("is not a directory"));
}

#[test]
fn test_create_creates_files() {
    let mut disk = Disk::new();

    let (result, log) = create(&mut disk, &["alpha"]);

    assert!(result.is_ok(), "{}", log);
    let directory = format!("{ROOT}/alpha");
    assert!(disk.directories.contains(&directory));
    assert_eq!(disk.read(&format!("{directory}/.vscode/settings.json")).unwrap(), b"{\n}");
    let metadata = metadata(&disk, "alpha");
    assert_eq!(metadata.created_at, now());
    assert!(metadata.archived_at.is_none());
    assert!(!disk.holds(&format!("{directory}/.gist.json.tmp")));
}

#[test]
fn test_create_fails_for_existing_gist() {
    let mut disk = Disk::new();
    let (result, log) = create(&mut disk, &["alpha"]);
    assert!(result.is_ok(), "{}", log);

    let (result, log) = create(&mut disk, &["alpha"]);

    assert!(result.is_err());
    assert!(log.contains("already exists"));
}

#[test]
fn test_create_continues_after_partial_failure() {
    let mut disk = Disk::new();
    let (result, log) = create(&mut disk, &["alpha"]);
    assert!(result.is_ok(), "{}", log);

    let (result, _) = create(&mut disk, &["alpha", "beta"]);

    assert!(result.unwrap_err().contains("some gists failed"));
    assert!(disk.directories.contains(&format!("{ROOT}/beta")));
    assert!(metadata(&disk, "beta").archived_at.is_none());
}

#[test]
fn test_list_prints_sorted_gists() {
    let mut disk = Disk::new();
    write_metadata(&mut disk, "alpha", "2026-05-24T01:00:00Z", None);
    write_metadata(&mut disk, "beta", "2026-05-24T02:00:00Z", None);
    write_metadata(&mut disk, "gamma", "2026-05-24T01:00:00Z", None);
    write_metadata(&mut disk, "archived", "2026-05-25T01:00:00Z", Some("2026-05-26T01:00:00Z"));
    disk.write(&format!("{ROOT}/note.txt"), b"not a gist").unwrap();
    disk.create_dir(&format!("{ROOT}/plain-directory")).unwrap();

    let (out, log) = list_output(&mut disk);

    assert!(log.is_empty(), "{}", log);
    assert_eq!(
        out,
        "\
2026-05-24 11:00 | beta
2026-05-24 10:00 | alpha
2026-05-24 10:00 | gamma
2026-05-25 10:00 | archived (archived)
"
    );
}

#[test]
fn test_list_skips_broken_metadata() {
    let mut disk = Disk::new();
    write_metadata(&mut disk, "alpha", "2026-05-24T01:00:00Z", None);
    disk.create_dir(&format!("{ROOT}/broken")).unwrap();
    disk.write(&format!("{ROOT}/broken/.gist.json"), b"not json").unwrap();

    let (out, log) = list_output(&mut disk);

    assert_eq!(out, "2026-05-24 10:00 | alpha\n");
    assert!(log.contains("cannot parse"));
}

#[test]
fn test_archive_sets_archived_at() {
    let mut disk = Disk::new();
    write_metadata(&mut disk, "alpha", "2026-05-24T01:00:00Z", None);

    let (result, log) = archive(&mut disk, &["alpha"]);

    assert!(result.is_ok(), "{}", log);
    assert_eq!(metadata(&disk, "alpha").archived_at, Some(now()));
}

#[test]
fn test_archive_fails_for_missing_gist() {
    let mut disk = Disk::new();

    let (result, log) = archive(&mut disk, &["missing"]);

    assert!(result.is_err());
    assert!(log.contains("cannot read existing metadata"));
}

#[test]
fn test_archive_continues_after_partial_failure() {
    let mut disk = Disk::new();
    write_metadata(&mut disk, "alpha", "2026-05-24T01:00:00Z", None);
    write_metadata(&mut disk, "beta", "2026-05-24T02:00:00Z", None);

    let (result, _) = archive(&mut disk, &["alpha", "missing", "beta"]);

    assert!(result.unwrap_err().contains("some gists failed"));
    assert_eq!(metadata(&disk, "alpha").archived_at, Some(now()));
    assert_eq!(metadata(&disk, "beta").archived_at, Some(now()));
}

#[test]
fn test_unarchive_clears_archived_at() {
    let mut disk = Disk::new();
    write_metadata(&mut disk, "alpha", "2026-05-24T01:00:00Z", Some("2026-05-25T01:00:00Z"));

    let (result, log) = unarchive(&mut disk, &["alpha"]);

    assert!(result.is_ok(), "{}", log);
    assert!(metadata(&disk, "alpha").archived_at.is_none());
}

#[test]
fn test_unarchive_fails_for_missing_gist() {
    let mut disk = Disk::new();

    let (result, log) = unarchive(&mut disk, &["missing"]);

    assert!(result.is_err());
    assert!(log.contains("cannot read existing metadata"));
}

#[test]
fn test_unarchive_continues_after_partial_failure() {
    let mut disk = Disk::new();
    write_metadata(&mut disk, "alpha", "2026-05-24T01:00:00Z", Some("2026-05-25T01:00:00Z"));
    write_metadata(&mut disk, "beta", "2026-05-24T02:00:00Z", Some("2026-05-25T02:00:00Z"));

    let (result, _) = unarchive(&mut disk, &["alpha", "missing", "beta"]);

    assert!(result.unwrap_err().contains("some gists failed"));
    assert!(metadata(&disk, "alpha").archived_at.is_none());
    assert!(metadata(&disk, "beta").archived_at.is_none());
}
