use gist::{GistError, ReadError, WriteError};

fn s(text: &str) -> String {
    text.to_string()
}

#[test]
fn messages_of_root_errors() {
    assert_eq!(
        GistError::ResolveRoot { root: s("/tmp/missing"), cause: s("No such file") }.messages(),
        vec![s("cannot resolve gist root \"/tmp/missing\""), s("No such file")]
    );
    assert_eq!(
        GistError::RootNotDirectory { root: s("/tmp/file") }.messages(),
        vec![s("gist root \"/tmp/file\" is not a directory")]
    );
    assert_eq!(
        GistError::ReadRoot { root: s("/r"), cause: s("denied") }.messages(),
        vec![s("cannot read gist root \"/r\""), s("denied")]
    );
    assert_eq!(GistError::RootNotSet.messages().len(), 1);
}

#[test]
fn messages_of_create_errors() {
    assert_eq!(GistError::AlreadyExists { name: s("alpha") }.messages(), vec![s("gist alpha already exists")]);
    assert_eq!(
        GistError::CreateDirectory { directory: s("/r/a"), cause: s("c") }.messages(),
        vec![s("cannot create directory \"/r/a\""), s("c")]
    );
    assert_eq!(
        GistError::CreateVscodeDirectory { directory: s("/r/a"), cause: s("c") }.messages(),
        vec![s("cannot create '.vscode' directory under \"/r/a\""), s("c")]
    );
    assert_eq!(
        GistError::CreateVscodeSettings { directory: s("/r/a"), cause: s("c") }.messages(),
        vec![s("cannot create '.vscode/settings.json' under \"/r/a\""), s("c")]
    );
    assert_eq!(
        GistError::WriteGistMetadata {
            directory: s("/r/a"),
            cause: WriteError::WriteTemporary { temporary: s("/r/a/.gist.json.tmp"), cause: s("full") },
        }
        .messages(),
        vec![
            s("cannot write '.gist.json' under \"/r/a\""),
            s("cannot write \"/r/a/.gist.json.tmp\""),
            s("full"),
        ]
    );
}

#[test]
fn messages_of_update_errors() {
    assert_eq!(
        GistError::ReadExistingMetadata {
            path: s("/r/a/.gist.json"),
            cause: ReadError::Read { path: s("/r/a/.gist.json"), cause: s("missing") },
        }
        .messages(),
        vec![
            s("cannot read existing metadata in \"/r/a/.gist.json\""),
            s("cannot read \"/r/a/.gist.json\""),
            s("missing"),
        ]
    );
    assert_eq!(
        GistError::WriteNewMetadata {
            path: s("/r/a/.gist.json"),
            cause: WriteError::Rename { temporary: s("/r/a/.gist.json.tmp"), path: s("/r/a/.gist.json"), cause: s("busy") },
        }
        .messages(),
        vec![
            s("cannot write new metadata to \"/r/a/.gist.json\""),
            s("cannot rename temporary file \"/r/a/.gist.json.tmp\" to \"/r/a/.gist.json\""),
            s("busy"),
        ]
    );
    assert_eq!(
        GistError::ReadFileType { path: s("/r/x"), cause: s("gone") }.messages(),
        vec![s("cannot read file type of \"/r/x\""), s("gone")]
    );
}

#[test]
fn quoting_escapes() {
    assert_eq!(
        GistError::InvalidName { name: s("a\"b") }.messages(),
        vec![s("gist name \"a\\\"b\" is not a valid directory name")]
    );
    assert_eq!(
        GistError::CreateDirectory { directory: s("/r/tab\there"), cause: s("c") }.messages()[0],
        s("cannot create directory \"/r/tab\\there\"")
    );
}
