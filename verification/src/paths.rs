//! Where Mesh keeps its files.

use std::path::PathBuf;

use vstd::prelude::*;
use vstd::string::*;

use crate::text;

verus! {

/// Declares `std::path::PathBuf`, which is only carried through.
#[verifier::external_type_specification]
#[verifier::external_body]
pub struct ExPathBuf(PathBuf);

/// The directory that a location starts from.
#[derive(Debug, PartialEq, Eq)]
pub enum BaseDir {
    /// A directory that the system named.
    System(PathBuf),
    /// The current directory, where the system names none.
    Current,
}

/// A file or directory: a base directory and the names to descend into.
#[derive(Debug, PartialEq, Eq)]
pub struct Location {
    pub base: BaseDir,
    pub names: Vec<String>,
}

impl Location {
    /// The names to descend into, as text.
    pub open spec fn names_text(&self) -> Seq<Seq<char>> {
        text::texts(self.names@)
    }

    /// `self` is the entry `name` of directory `dir`.
    pub open spec fn is_entry(&self, dir: Location, name: Seq<char>) -> bool {
        self.base == dir.base && self.names_text() == dir.names_text().push(name)
    }

    /// The entry `name` of this directory.
    pub fn join(self, name: &str) -> (r: Location)
        ensures
            r.is_entry(self, name@),
    {
        let ghost before = self;
        let mut names = self.names;
        names.push(name.to_owned());
        proof {
            assert(text::texts(names@) =~= text::texts(before.names@).push(name@));
        }
        Location { base: self.base, names }
    }
}

/// Trusted: `PathBuf::clone` gives the same path again.
pub assume_specification[ <PathBuf as Clone>::clone ](p: &PathBuf) -> (r: PathBuf)
    ensures
        r == *p,
;

impl Clone for BaseDir {
    fn clone(&self) -> (r: Self)
        ensures
            r == *self,
    {
        match self {
            BaseDir::System(p) => BaseDir::System(p.clone()),
            BaseDir::Current => BaseDir::Current,
        }
    }
}

impl Clone for Location {
    fn clone(&self) -> (r: Self)
        ensures
            r.base == self.base,
            r.names@ == self.names@,
    {
        let names = self.names.clone();
        proof {
            assert(names@ =~= self.names@);
        }
        Location { base: self.base.clone(), names }
    }
}

/// Trusted: `dirs::data_dir`, the user's data directory. It depends on the
/// system and the environment, so nothing is claimed of it.
#[verifier::external_body]
fn system_data_dir() -> Option<PathBuf> {
    dirs::data_dir()
}

/// Trusted: `dirs::config_dir`, the user's configuration directory. It depends
/// on the system and the environment, so nothing is claimed of it.
#[verifier::external_body]
fn system_config_dir() -> Option<PathBuf> {
    dirs::config_dir()
}

/// The base directory that the system named, or else the current one.
pub open spec fn base_of(found: Option<PathBuf>) -> BaseDir {
    match found {
        Some(p) => BaseDir::System(p),
        None => BaseDir::Current,
    }
}

impl Location {
    /// The directory of the session file and the store, within this data directory.
    pub open spec fn is_data_dir(&self, found: Option<PathBuf>) -> bool {
        self.base == base_of(found) && self.names_text() == seq!["mesh"@]
    }

    /// The palette file, within this configuration directory.
    pub open spec fn is_theme_path(&self, found: Option<PathBuf>) -> bool {
        self.base == base_of(found) && self.names_text() == seq!["mesh"@, "theme.toml"@]
    }

    /// The file of the persisted theme choice, within this configuration directory.
    pub open spec fn is_config_path(&self, found: Option<PathBuf>) -> bool {
        self.base == base_of(found) && self.names_text() == seq!["mesh"@, "config.toml"@]
    }
}

fn mesh_dir(found: Option<PathBuf>) -> (r: Location)
    ensures
        r.base == base_of(found),
        r.names_text() == seq!["mesh"@],
{
    let base = match found {
        Some(p) => BaseDir::System(p),
        None => BaseDir::Current,
    };
    let r = Location { base, names: Vec::new() }.join("mesh");
    proof {
        assert(r.names_text() =~= seq!["mesh"@]);
    }
    r
}

/// The directory of the session file and the store, within the given data
/// directory.
pub fn data_dir_in(found: Option<PathBuf>) -> (r: Location)
    ensures
        r.is_data_dir(found),
{
    mesh_dir(found)
}

/// The palette file, within the given configuration directory.
pub fn theme_path_in(found: Option<PathBuf>) -> (r: Location)
    ensures
        r.is_theme_path(found),
{
    let r = mesh_dir(found).join("theme.toml");
    proof {
        assert(r.names_text() =~= seq!["mesh"@, "theme.toml"@]);
    }
    r
}

/// The file of the persisted theme choice, within the given configuration
/// directory.
pub fn config_path_in(found: Option<PathBuf>) -> (r: Location)
    ensures
        r.is_config_path(found),
{
    let r = mesh_dir(found).join("config.toml");
    proof {
        assert(r.names_text() =~= seq!["mesh"@, "config.toml"@]);
    }
    r
}

/// The directory of the session file and the store.
pub fn data_dir() -> (r: Location)
    ensures
        r.names_text() == seq!["mesh"@],
        exists|found: Option<PathBuf>| #[trigger] r.is_data_dir(found),
{
    data_dir_in(system_data_dir())
}

/// The palette file.
pub fn theme_path() -> (r: Location)
    ensures
        r.names_text() == seq!["mesh"@, "theme.toml"@],
        exists|found: Option<PathBuf>| #[trigger] r.is_theme_path(found),
{
    theme_path_in(system_config_dir())
}

/// The file of the persisted theme choice.
pub fn config_path() -> (r: Location)
    ensures
        r.names_text() == seq!["mesh"@, "config.toml"@],
        exists|found: Option<PathBuf>| #[trigger] r.is_config_path(found),
{
    config_path_in(system_config_dir())
}

// ---------------------------------------------------------------------------
// Laws

/// The palette file and the persisted choice lie in the same directory, under
/// different names.
pub proof fn theme_and_config_lie_together(
    found: Option<PathBuf>,
    theme: Location,
    config: Location,
)
    requires
        theme.is_theme_path(found),
        config.is_config_path(found),
    ensures
        theme.base == config.base,
        theme.names_text().drop_last() == config.names_text().drop_last(),
        theme.names_text().last() != config.names_text().last(),
{
    reveal_strlit("theme.toml");
    reveal_strlit("config.toml");
    assert("theme.toml"@.len() != "config.toml"@.len());
    assert(theme.names_text().drop_last() =~= config.names_text().drop_last());
}

/// An entry of a directory lies below it, under its name.
pub proof fn an_entry_lies_in_its_directory(entry: Location, dir: Location, name: Seq<char>)
    requires
        entry.is_entry(dir, name),
    ensures
        entry.base == dir.base,
        entry.names@.len() == dir.names@.len() + 1,
        entry.names@.last()@ == name,
        forall|i: int|
            0 <= i < dir.names@.len() ==> (#[trigger] entry.names@[i])@ == dir.names@[i]@,
{
    let below = text::texts(entry.names@);
    let above = text::texts(dir.names@);
    assert(below.len() == entry.names@.len());
    assert(below[above.len() as int] == entry.names@[above.len() as int]@);
    assert forall|i: int| 0 <= i < dir.names@.len() implies (#[trigger] entry.names@[i])@
        == dir.names@[i]@ by {
        assert(below[i] == above[i]);
    }
}

/// All files lie in a directory of their own, `mesh`, of the directory that the system
/// names, or of the current one where it names none.
pub proof fn files_lie_where_the_system_says(
    found: Option<PathBuf>,
    data: Location,
    theme: Location,
    config: Location,
)
    requires
        data.is_data_dir(found),
        theme.is_theme_path(found),
        config.is_config_path(found),
    ensures
        found matches Some(dir) ==> data.base == BaseDir::System(dir) && theme.base
            == BaseDir::System(dir) && config.base == BaseDir::System(dir),
        found is None ==> data.base is Current && theme.base is Current && config.base is Current,
        data.names@.len() == 1 && data.names@[0]@ == "mesh"@,
        theme.names@.len() == 2 && theme.names@[0]@ == "mesh"@ && theme.names@[1]@
            == "theme.toml"@,
        config.names@.len() == 2 && config.names@[0]@ == "mesh"@ && config.names@[1]@
            == "config.toml"@,
{
    text::texts_are_those_of_the_strings(data.names@, None);
    text::texts_are_those_of_the_strings(theme.names@, None);
    text::texts_are_those_of_the_strings(config.names@, None);
    assert(data.names_text()[0] == data.names@[0]@);
    assert(theme.names_text()[0] == theme.names@[0]@);
    assert(theme.names_text()[1] == theme.names@[1]@);
    assert(config.names_text()[0] == config.names@[0]@);
    assert(config.names_text()[1] == config.names@[1]@);
}

} // verus!
