use vstd::prelude::*;

use crate::error::{GistError, GistErrorModel};
use crate::name::{contains_control, has_control, is_single_component, names_single_component, single_component, is_normal_component, lemma_component_unique};
use crate::paths::{join, join_path};

verus! {

/// A gist root: the canonical path of the directory that holds the gists.
#[derive(Debug)]
pub struct Repository {
    root: String,
}

impl View for Repository {
    type V = Seq<char>;

    closed spec fn view(&self) -> Seq<char> {
        self.root@
    }
}

/// The one plain directory name of a gist name that has one.
pub open spec fn component_of(name: Seq<char>) -> Seq<char> {
    choose|c: Seq<char>| names_single_component(name, c)
}

/// The directory of the gist called `name` under `root`, or why there is
/// none: a control character comes first, then a name that is not a single
/// plain directory name.
pub open spec fn gist_directory(root: Seq<char>, name: Seq<char>) -> Result<Seq<char>, GistErrorModel> {
    if has_control(name) {
        Err(GistErrorModel::ControlCharacters { name })
    } else if !is_single_component(name) {
        Err(GistErrorModel::InvalidName { name })
    } else {
        Ok(join_path(root, component_of(name)))
    }
}

pub open spec fn result_model(r: Result<String, GistError>) -> Result<Seq<char>, GistErrorModel> {
    match r {
        Ok(s) => Ok(s@),
        Err(e) => Err(e@),
    }
}

/// Whatever the name, a gist directory lies directly under the root: it is
/// the root joined with one plain directory name, which is never empty, `.`
/// or `..` and holds no separator.
pub proof fn lemma_gist_directory_is_child(root: Seq<char>, name: Seq<char>)
    requires
        gist_directory(root, name) is Ok,
    ensures
        exists|c: Seq<char>|
            is_normal_component(c) && gist_directory(root, name) == Ok::<Seq<char>, GistErrorModel>(
                join_path(root, c),
            ),
{
    let c = component_of(name);
    assert(is_normal_component(c));
}

/// Two gist names give the same directory only where they name the same
/// plain directory name: distinct gists never share a directory.
pub proof fn lemma_gist_directories_distinct(root: Seq<char>, first: Seq<char>, second: Seq<char>)
    requires
        gist_directory(root, first) is Ok,
        gist_directory(root, first) == gist_directory(root, second),
    ensures
        component_of(first) == component_of(second),
{
    let c1 = component_of(first);
    let c2 = component_of(second);
    let p = join_path(root, c1);
    assert(c1[0] != '/' && c2[0] != '/');
    if root.len() == 0 || root.last() == '/' {
        assert(c1 =~= p.subrange(root.len() as int, p.len() as int));
        assert(c2 =~= p.subrange(root.len() as int, p.len() as int));
    } else {
        assert(c1 =~= p.subrange(root.len() as int + 1, p.len() as int));
        assert(c2 =~= p.subrange(root.len() as int + 1, p.len() as int));
    }
}

/// A plain name gives the directory of that name under the root: a
/// non-empty name without a separator, other than `.` and `..`, made of
/// printable ASCII or characters above U+009F (such as `x` or `day1`), is
/// valid, and its gist directory is the root joined with the name itself.
pub proof fn lemma_plain_name_directory(root: Seq<char>, name: Seq<char>)
    requires
        name.len() > 0,
        forall|i: int| 0 <= i < name.len() ==> name[i] != '/',
        forall|i: int|
            0 <= i < name.len() ==> ('\u{20}' <= #[trigger] name[i] && name[i] < '\u{7f}') || '\u{9f}'
                < name[i],
        name != seq!['.'],
        name != seq!['.', '.'],
    ensures
        gist_directory(root, name) == Ok::<Seq<char>, GistErrorModel>(join_path(root, name)),
{
    crate::name::lemma_printable_text_has_no_control(name);
    crate::name::lemma_plain_name_names_itself(name);
    lemma_component_unique(name, name, component_of(name));
}

impl Repository {
    /// The repository at the root that `requested` resolved to, given whether
    /// that is a directory. Fails where resolving failed (with its cause) or
    /// where the resolved root is not a directory.
    pub fn open(requested: &str, resolved: Result<String, String>, is_directory: bool) -> (r: Result<Repository, GistError>)
        ensures
            match resolved {
                Err(cause) => r matches Err(e) && e@ == (GistErrorModel::ResolveRoot {
                    root: requested@,
                    cause: cause@,
                }),
                Ok(root) => if is_directory {
                    r matches Ok(repo) && repo@ == root@
                } else {
                    r matches Err(e) && e@ == (GistErrorModel::RootNotDirectory { root: root@ })
                },
            },
    {
        match resolved {
            Err(cause) => Err(GistError::ResolveRoot { root: requested.to_owned(), cause }),
            Ok(root) => if is_directory {
                Ok(Repository { root })
            } else {
                Err(GistError::RootNotDirectory { root })
            },
        }
    }

    /// The canonical path of the gist root.
    pub fn root(&self) -> (r: &str)
        ensures
            r@ == self@,
    {
        self.root.as_str()
    }

    /// The directory of the gist called `name`.
    pub fn directory(&self, name: &str) -> (r: Result<String, GistError>)
        ensures
            result_model(r) == gist_directory(self@, name@),
    {
        directory_under(self.root.as_str(), name)
    }
}

/// The directory of the gist called `name` under `root`.
pub fn directory_under(root: &str, name: &str) -> (r: Result<String, GistError>)
    ensures
        result_model(r) == gist_directory(root@, name@),
{
    if contains_control(name) {
        return Err(GistError::ControlCharacters { name: name.to_owned() });
    }
    match single_component(name) {
        Some(c) => {
            proof {
                lemma_component_unique(name@, c@, component_of(name@));
            }
            Ok(join(root, c.as_str()))
        },
        None => Err(GistError::InvalidName { name: name.to_owned() }),
    }
}

/// The line that shows the gist root: its path and a newline.
pub fn root(repository: &Repository) -> (line: String)
    ensures
        line@ == repository@ + "\n"@,
{
    let mut line = repository.root().to_owned();
    line.append("\n");
    line
}

} // verus!
