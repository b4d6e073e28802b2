use vstd::prelude::*;

verus! {

/// What `{:?}` prints for a string: the text in double quotes, with quotes,
/// backslashes and unprintable characters escaped.
pub uninterp spec fn str_debug(text: Seq<char>) -> Seq<char>;

/// What `{:?}` prints for the path spelled by a string.
pub uninterp spec fn path_debug(text: Seq<char>) -> Seq<char>;

/// Calls `<str as Debug>::fmt` through `format!("{:?}")`; the result is
/// taken to be `str_debug` of the text, a function of the text alone.
#[verifier::external_body]
fn quote_str(text: &str) -> (quoted: String)
    ensures
        quoted@ == str_debug(text@),
{
    format!("{:?}", text)
}

/// Calls `<Path as Debug>::fmt` through `format!("{:?}")` on the path that
/// the text spells; the result is taken to be `path_debug` of the text.
#[verifier::external_body]
fn quote_path(text: &str) -> (quoted: String)
    ensures
        quoted@ == path_debug(text@),
{
    format!("{:?}", std::path::Path::new(text))
}

/// Why reading a metadata file failed.
#[derive(Debug)]
pub enum ReadError {
    /// The file could not be read.
    Read { path: String, cause: String },
    /// The file was read but does not hold metadata.
    Parse { path: String, cause: String },
}

pub enum ReadErrorModel {
    Read { path: Seq<char>, cause: Seq<char> },
    Parse { path: Seq<char>, cause: Seq<char> },
}

impl View for ReadError {
    type V = ReadErrorModel;

    open spec fn view(&self) -> ReadErrorModel {
        match self {
            ReadError::Read { path, cause } => ReadErrorModel::Read { path: path@, cause: cause@ },
            ReadError::Parse { path, cause } => ReadErrorModel::Parse { path: path@, cause: cause@ },
        }
    }
}

/// Why writing a metadata file, through a temporary file, failed.
#[derive(Debug)]
pub enum WriteError {
    /// The temporary file could not be written.
    WriteTemporary { temporary: String, cause: String },
    /// The temporary file could not be renamed over the metadata file.
    Rename { temporary: String, path: String, cause: String },
}

pub enum WriteErrorModel {
    WriteTemporary { temporary: Seq<char>, cause: Seq<char> },
    Rename { temporary: Seq<char>, path: Seq<char>, cause: Seq<char> },
}

impl View for WriteError {
    type V = WriteErrorModel;

    open spec fn view(&self) -> WriteErrorModel {
        match self {
            WriteError::WriteTemporary { temporary, cause } => WriteErrorModel::WriteTemporary {
                temporary: temporary@,
                cause: cause@,
            },
            WriteError::Rename { temporary, path, cause } => WriteErrorModel::Rename {
                temporary: temporary@,
                path: path@,
                cause: cause@,
            },
        }
    }
}

/// Everything that can go wrong with a gist or with the gist root. A `cause`
/// is the message of the failure that the caller reported.
#[derive(Debug)]
#[allow(inconsistent_fields)]
pub enum GistError {
    /// No gist root was given.
    RootNotSet,
    /// The gist root could not be resolved to a canonical path.
    ResolveRoot { root: String, cause: String },
    /// The gist root is not a directory.
    RootNotDirectory { root: String },
    /// The gist name holds a control character.
    ControlCharacters { name: String },
    /// The gist name is not a single plain directory name.
    InvalidName { name: String },
    /// A gist of that name exists already.
    AlreadyExists { name: String },
    CreateDirectory { directory: String, cause: String },
    CreateVscodeDirectory { directory: String, cause: String },
    CreateVscodeSettings { directory: String, cause: String },
    /// Writing the metadata of a new gist failed.
    WriteGistMetadata { directory: String, cause: WriteError },
    /// Reading the metadata of an existing gist failed.
    ReadExistingMetadata { path: String, cause: ReadError },
    /// Writing the changed metadata of an existing gist failed.
    WriteNewMetadata { path: String, cause: WriteError },
    /// The gist root could not be listed.
    ReadRoot { root: String, cause: String },
    /// An entry of the gist root could not be read.
    ReadEntry { cause: String },
    /// The file type of an entry of the gist root could not be read.
    ReadFileType { path: String, cause: String },
    /// Reading the metadata of a listed gist failed.
    ReadMetadata { cause: ReadError },
}

#[allow(inconsistent_fields)]
pub enum GistErrorModel {
    RootNotSet,
    ResolveRoot { root: Seq<char>, cause: Seq<char> },
    RootNotDirectory { root: Seq<char> },
    ControlCharacters { name: Seq<char> },
    InvalidName { name: Seq<char> },
    AlreadyExists { name: Seq<char> },
    CreateDirectory { directory: Seq<char>, cause: Seq<char> },
    CreateVscodeDirectory { directory: Seq<char>, cause: Seq<char> },
    CreateVscodeSettings { directory: Seq<char>, cause: Seq<char> },
    WriteGistMetadata { directory: Seq<char>, cause: WriteErrorModel },
    ReadExistingMetadata { path: Seq<char>, cause: ReadErrorModel },
    WriteNewMetadata { path: Seq<char>, cause: WriteErrorModel },
    ReadRoot { root: Seq<char>, cause: Seq<char> },
    ReadEntry { cause: Seq<char> },
    ReadFileType { path: Seq<char>, cause: Seq<char> },
    ReadMetadata { cause: ReadErrorModel },
}

impl View for GistError {
    type V = GistErrorModel;

    open spec fn view(&self) -> GistErrorModel {
        match self {
            GistError::RootNotSet => GistErrorModel::RootNotSet,
            GistError::ResolveRoot { root, cause } => GistErrorModel::ResolveRoot {
                root: root@,
                cause: cause@,
            },
            GistError::RootNotDirectory { root } => GistErrorModel::RootNotDirectory { root: root@ },
            GistError::ControlCharacters { name } => GistErrorModel::ControlCharacters {
                name: name@,
            },
            GistError::InvalidName { name } => GistErrorModel::InvalidName { name: name@ },
            GistError::AlreadyExists { name } => GistErrorModel::AlreadyExists { name: name@ },
            GistError::CreateDirectory { directory, cause } => GistErrorModel::CreateDirectory {
                directory: directory@,
                cause: cause@,
            },
            GistError::CreateVscodeDirectory { directory, cause } =>
                GistErrorModel::CreateVscodeDirectory { directory: directory@, cause: cause@ },
            GistError::CreateVscodeSettings { directory, cause } =>
                GistErrorModel::CreateVscodeSettings { directory: directory@, cause: cause@ },
            GistError::WriteGistMetadata { directory, cause } => GistErrorModel::WriteGistMetadata {
                directory: directory@,
                cause: cause@,
            },
            GistError::ReadExistingMetadata { path, cause } =>
                GistErrorModel::ReadExistingMetadata { path: path@, cause: cause@ },
            GistError::WriteNewMetadata { path, cause } => GistErrorModel::WriteNewMetadata {
                path: path@,
                cause: cause@,
            },
            GistError::ReadRoot { root, cause } => GistErrorModel::ReadRoot {
                root: root@,
                cause: cause@,
            },
            GistError::ReadEntry { cause } => GistErrorModel::ReadEntry { cause: cause@ },
            GistError::ReadFileType { path, cause } => GistErrorModel::ReadFileType {
                path: path@,
                cause: cause@,
            },
            GistError::ReadMetadata { cause } => GistErrorModel::ReadMetadata { cause: cause@ },
        }
    }
}

/// The messages of a read failure, outermost first.
pub open spec fn read_error_messages(e: ReadErrorModel) -> Seq<Seq<char>> {
    match e {
        ReadErrorModel::Read { path, cause } => seq!["cannot read "@ + path_debug(path), cause],
        ReadErrorModel::Parse { path, cause } => seq!["cannot parse "@ + path_debug(path), cause],
    }
}

/// The messages of a write failure, outermost first.
pub open spec fn write_error_messages(e: WriteErrorModel) -> Seq<Seq<char>> {
    match e {
        WriteErrorModel::WriteTemporary { temporary, cause } => seq![
            "cannot write "@ + path_debug(temporary),
            cause,
        ],
        WriteErrorModel::Rename { temporary, path, cause } => seq![
            "cannot rename temporary file "@ + path_debug(temporary) + " to "@ + path_debug(path),
            cause,
        ],
    }
}

/// The messages of an error, outermost first: each message is the context
/// in which the next one happened, the last is the first cause.
pub open spec fn error_messages(e: GistErrorModel) -> Seq<Seq<char>> {
    match e {
        GistErrorModel::RootNotSet => seq![
            "no gist root given: pass --root or set GIST_ROOT"@,
        ],
        GistErrorModel::ResolveRoot { root, cause } => seq![
            "cannot resolve gist root "@ + path_debug(root),
            cause,
        ],
        GistErrorModel::RootNotDirectory { root } => seq![
            "gist root "@ + path_debug(root) + " is not a directory"@,
        ],
        GistErrorModel::ControlCharacters { name } => seq![
            "gist name "@ + str_debug(name) + " contains control characters"@,
        ],
        GistErrorModel::InvalidName { name } => seq![
            "gist name "@ + str_debug(name) + " is not a valid directory name"@,
        ],
        GistErrorModel::AlreadyExists { name } => seq!["gist "@ + name + " already exists"@],
        GistErrorModel::CreateDirectory { directory, cause } => seq![
            "cannot create directory "@ + path_debug(directory),
            cause,
        ],
        GistErrorModel::CreateVscodeDirectory { directory, cause } => seq![
            "cannot create '.vscode' directory under "@ + path_debug(directory),
            cause,
        ],
        GistErrorModel::CreateVscodeSettings { directory, cause } => seq![
            "cannot create '.vscode/settings.json' under "@ + path_debug(directory),
            cause,
        ],
        GistErrorModel::WriteGistMetadata { directory, cause } => seq![
            "cannot write '.gist.json' under "@ + path_debug(directory),
        ] + write_error_messages(cause),
        GistErrorModel::ReadExistingMetadata { path, cause } => seq![
            "cannot read existing metadata in "@ + path_debug(path),
        ] + read_error_messages(cause),
        GistErrorModel::WriteNewMetadata { path, cause } => seq![
            "cannot write new metadata to "@ + path_debug(path),
        ] + write_error_messages(cause),
        GistErrorModel::ReadRoot { root, cause } => seq![
            "cannot read gist root "@ + path_debug(root),
            cause,
        ],
        GistErrorModel::ReadEntry { cause } => seq!["cannot read directory entry"@, cause],
        GistErrorModel::ReadFileType { path, cause } => seq![
            "cannot read file type of "@ + path_debug(path),
            cause,
        ],
        GistErrorModel::ReadMetadata { cause } => read_error_messages(cause),
    }
}

/// `prefix` followed by the quoted path.
fn with_path(prefix: &str, path: &String) -> (s: String)
    ensures
        s@ == prefix@ + path_debug(path@),
{
    let mut s = String::from_str(prefix);
    let quoted = quote_path(path.as_str());
    s.append(quoted.as_str());
    s
}

pub(crate) fn copy_text(text: &String) -> (s: String)
    ensures
        s@ == text@,
{
    String::from_str(text.as_str())
}

/// The messages of `messages` and then `cause`.
fn two(message: String, cause: &String) -> (v: Vec<String>)
    ensures
        v@.len() == 2,
        v@[0]@ == message@,
        v@[1]@ == cause@,
{
    let mut v = Vec::new();
    v.push(message);
    v.push(copy_text(cause));
    v
}

/// `first` followed by the messages of `rest`.
fn prepend(first: String, rest: Vec<String>) -> (v: Vec<String>)
    ensures
        v@.len() == rest@.len() + 1,
        v@[0]@ == first@,
        forall|i: int| 0 <= i < rest@.len() ==> v@[i + 1]@ == rest@[i]@,
{
    let mut v = Vec::new();
    v.push(first);
    let mut rest = rest;
    v.append(&mut rest);
    v
}

/// The messages seen as a sequence of texts.
pub open spec fn texts(v: Seq<String>) -> Seq<Seq<char>> {
    v.map_values(|s: String| s@)
}

impl ReadError {
    /// The messages of this failure, outermost first.
    pub fn messages(&self) -> (v: Vec<String>)
        ensures
            texts(v@) == read_error_messages(self@),
    {
        let v = match self {
            ReadError::Read { path, cause } => two(with_path("cannot read ", path), cause),
            ReadError::Parse { path, cause } => two(with_path("cannot parse ", path), cause),
        };
        assert(texts(v@) =~= read_error_messages(self@));
        v
    }
}

impl WriteError {
    /// The messages of this failure, outermost first.
    pub fn messages(&self) -> (v: Vec<String>)
        ensures
            texts(v@) == write_error_messages(self@),
    {
        let v = match self {
            WriteError::WriteTemporary { temporary, cause } => two(
                with_path("cannot write ", temporary),
                cause,
            ),
            WriteError::Rename { temporary, path, cause } => {
                let mut m = with_path("cannot rename temporary file ", temporary);
                let to = with_path(" to ", path);
                m.append(to.as_str());
                assert(m@ =~= "cannot rename temporary file "@ + path_debug(temporary@) + " to "@
                    + path_debug(path@));
                two(m, cause)
            },
        };
        assert(texts(v@) =~= write_error_messages(self@));
        v
    }
}

impl GistError {
    /// The messages of this error, outermost first: each is the context in
    /// which the next happened, the last is the first cause.
    pub fn messages(&self) -> (v: Vec<String>)
        ensures
            texts(v@) == error_messages(self@),
    {
        let v = match self {
            GistError::RootNotSet => {
                let mut v = Vec::new();
                v.push(String::from_str("no gist root given: pass --root or set GIST_ROOT"));
                v
            },
            GistError::ResolveRoot { root, cause } => two(
                with_path("cannot resolve gist root ", root),
                cause,
            ),
            GistError::RootNotDirectory { root } => {
                let mut m = with_path("gist root ", root);
                m.append(" is not a directory");
                let mut v = Vec::new();
                v.push(m);
                v
            },
            GistError::ControlCharacters { name } => {
                let mut m = String::from_str("gist name ");
                let q = quote_str(name.as_str());
                m.append(q.as_str());
                m.append(" contains control characters");
                let mut v = Vec::new();
                v.push(m);
                v
            },
            GistError::InvalidName { name } => {
                let mut m = String::from_str("gist name ");
                let q = quote_str(name.as_str());
                m.append(q.as_str());
                m.append(" is not a valid directory name");
                let mut v = Vec::new();
                v.push(m);
                v
            },
            GistError::AlreadyExists { name } => {
                let mut m = String::from_str("gist ");
                m.append(name.as_str());
                m.append(" already exists");
                let mut v = Vec::new();
                v.push(m);
                v
            },
            GistError::CreateDirectory { directory, cause } => two(
                with_path("cannot create directory ", directory),
                cause,
            ),
            GistError::CreateVscodeDirectory { directory, cause } => two(
                with_path("cannot create '.vscode' directory under ", directory),
                cause,
            ),
            GistError::CreateVscodeSettings { directory, cause } => two(
                with_path("cannot create '.vscode/settings.json' under ", directory),
                cause,
            ),
            GistError::WriteGistMetadata { directory, cause } => prepend(
                with_path("cannot write '.gist.json' under ", directory),
                cause.messages(),
            ),
            GistError::ReadExistingMetadata { path, cause } => prepend(
                with_path("cannot read existing metadata in ", path),
                cause.messages(),
            ),
            GistError::WriteNewMetadata { path, cause } => prepend(
                with_path("cannot write new metadata to ", path),
                cause.messages(),
            ),
            GistError::ReadRoot { root, cause } => two(
                with_path("cannot read gist root ", root),
                cause,
            ),
            GistError::ReadEntry { cause } => two(
                String::from_str("cannot read directory entry"),
                cause,
            ),
            GistError::ReadFileType { path, cause } => two(
                with_path("cannot read file type of ", path),
                cause,
            ),
            GistError::ReadMetadata { cause } => cause.messages(),
        };
        assert(texts(v@) =~= error_messages(self@));
        v
    }
}

} // verus!

verus! {

/// A command that works on several gists went on past the gists that
/// failed and failed as a whole.
#[derive(Debug, PartialEq, Eq, Structural)]
pub enum RunError {
    SomeGistsFailed,
}

impl RunError {
    pub fn message(&self) -> (s: String)
        ensures
            s@ == "some gists failed"@,
    {
        String::from_str("some gists failed")
    }
}

} // verus!
