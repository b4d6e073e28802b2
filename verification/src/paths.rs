use vstd::prelude::*;

verus! {

/// `rel` appended to `base` as a path: an absolute `rel` replaces `base`;
/// otherwise a separator goes between them unless `base` is empty or already
/// ends with one (what `Path::join` does on Unix).
pub open spec fn join_path(base: Seq<char>, rel: Seq<char>) -> Seq<char> {
    if rel.len() > 0 && rel[0] == '/' {
        rel
    } else if base.len() == 0 || base.last() == '/' {
        base + rel
    } else {
        base + seq!['/'] + rel
    }
}

/// The metadata file of a gist directory.
pub open spec fn metadata_path(directory: Seq<char>) -> Seq<char> {
    join_path(directory, ".gist.json"@)
}

/// The file that new metadata is written to before it is renamed over the
/// metadata file at `path`.
pub open spec fn temporary_path(path: Seq<char>) -> Seq<char> {
    path + ".tmp"@
}

/// The editor settings directory of a gist directory.
pub open spec fn vscode_directory(directory: Seq<char>) -> Seq<char> {
    join_path(directory, ".vscode"@)
}

/// The editor settings file of a gist directory.
pub open spec fn vscode_settings(directory: Seq<char>) -> Seq<char> {
    join_path(directory, ".vscode/settings.json"@)
}

/// What a new gist's editor settings file holds: `{`, a newline, `}`.
pub open spec fn settings_contents() -> Seq<u8> {
    seq![123u8, 10u8, 125u8]
}

/// `rel` appended to `base` as a path.
pub fn join(base: &str, rel: &str) -> (p: String)
    ensures
        p@ == join_path(base@, rel@),
{
    let rel_len = rel.unicode_len();
    if rel_len > 0 && rel.get_char(0) == '/' {
        return rel.to_owned();
    }
    let base_len = base.unicode_len();
    let mut p = base.to_owned();
    if base_len > 0 && base.get_char(base_len - 1) != '/' {
        let sep = "/";
        proof {
            reveal_strlit("/");
        }
        p.append(sep);
    }
    p.append(rel);
    p
}

pub fn metadata_path_of(directory: &str) -> (p: String)
    ensures
        p@ == metadata_path(directory@),
{
    join(directory, ".gist.json")
}

pub fn temporary_path_of(path: &str) -> (p: String)
    ensures
        p@ == temporary_path(path@),
{
    let mut p = path.to_owned();
    p.append(".tmp");
    p
}

pub fn vscode_directory_of(directory: &str) -> (p: String)
    ensures
        p@ == vscode_directory(directory@),
{
    join(directory, ".vscode")
}

pub fn vscode_settings_of(directory: &str) -> (p: String)
    ensures
        p@ == vscode_settings(directory@),
{
    join(directory, ".vscode/settings.json")
}

pub fn new_settings_contents() -> (v: Vec<u8>)
    ensures
        v@ == settings_contents(),
{
    let mut v = Vec::new();
    v.push(123u8);
    v.push(10u8);
    v.push(125u8);
    assert(v@ =~= settings_contents());
    v
}

} // verus!
