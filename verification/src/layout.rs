//! Where things are kept: the configuration of the user below the home
//! directory, the database of a project below the project's folder.

use vstd::prelude::*;
use vstd::string::*;
use crate::text::{join_path, joined};

verus! {

/// The name of the directory that holds the configuration of the user and,
/// inside a project, the database of the project.
pub const STORE_DIR: &'static str = ".storyboard";

/// The name of the configuration file.
pub const CONFIG_FILE: &'static str = "config.json";

/// The name of the database file of a project.
pub const DATABASE_FILE: &'static str = "project.db";

/// The configuration directory below a home directory.
pub open spec fn config_dir_of(home: Seq<char>) -> Seq<char> {
    joined(home, ".storyboard"@)
}

/// The configuration file below a home directory.
pub open spec fn config_path_of(home: Seq<char>) -> Seq<char> {
    joined(config_dir_of(home), "config.json"@)
}

/// The database file of the project in the given folder.
pub open spec fn database_path_of(folder: Seq<char>) -> Seq<char> {
    joined(joined(folder, ".storyboard"@), "project.db"@)
}

/// The folder in which projects are looked for where none is configured.
pub open spec fn default_projects_folder_of(home: Seq<char>) -> Seq<char> {
    joined(joined(home, "Documents"@), "StoryboardProjects"@)
}

/// The name that is proposed for the spreadsheet of a project: the name of
/// the project's folder, or `export` where the folder has none, with the
/// ending `.xlsx`.
pub open spec fn spreadsheet_name_of(folder_name: Option<Seq<char>>) -> Seq<char> {
    match folder_name {
        Some(name) => name + ".xlsx"@,
        None => "export"@ + ".xlsx"@,
    }
}

/// The home directory of the user, as `dirs::home_dir` finds it, as text.
/// It depends on the environment of the process, so nothing is claimed of
/// it: it may be missing, and it may differ from one call to the next.
#[verifier::external_body]
fn home_dir() -> (home: Option<String>) {
    match dirs::home_dir() {
        Some(path) => Some(path.to_string_lossy().into_owned()),
        None => None,
    }
}

/// The configuration directory below the given home directory.
pub fn config_dir_in(home: &str) -> (dir: String)
    ensures
        dir@ == config_dir_of(home@),
{
    join_path(home, STORE_DIR)
}

/// The configuration file below the given home directory.
pub fn config_path_in(home: &str) -> (path: String)
    ensures
        path@ == config_path_of(home@),
{
    let dir = config_dir_in(home);
    join_path(dir.as_str(), CONFIG_FILE)
}

/// The configuration directory of the user; `None` where the user has no
/// home directory.
pub fn get_config_dir() -> (dir: Option<String>)
    ensures
        match dir {
            Some(d) => exists|home: Seq<char>| d@ == config_dir_of(home),
            None => true,
        },
{
    match home_dir() {
        Some(home) => Some(config_dir_in(home.as_str())),
        None => None,
    }
}

/// The configuration file of the user; `None` where the user has no home
/// directory.
pub fn get_config_path() -> (path: Option<String>)
    ensures
        match path {
            Some(p) => exists|home: Seq<char>| p@ == config_path_of(home),
            None => true,
        },
{
    match home_dir() {
        Some(home) => Some(config_path_in(home.as_str())),
        None => None,
    }
}

/// The database file of the project in the given folder.  A folder is a
/// project exactly if this file exists.
pub fn database_path(folder: &str) -> (path: String)
    ensures
        path@ == database_path_of(folder@),
{
    let dir = join_path(folder, STORE_DIR);
    join_path(dir.as_str(), DATABASE_FILE)
}

/// The folder in which projects are looked for where none is configured.
pub fn default_projects_folder(home: &str) -> (folder: String)
    ensures
        folder@ == default_projects_folder_of(home@),
{
    let documents = join_path(home, "Documents");
    join_path(documents.as_str(), "StoryboardProjects")
}

/// The name that is proposed for the spreadsheet of a project.
pub fn spreadsheet_name(folder_name: Option<&str>) -> (name: String)
    ensures
        name@ == spreadsheet_name_of(
            match folder_name {
                Some(n) => Some(n@),
                None => None,
            },
        ),
{
    let mut name = match folder_name {
        Some(n) => String::from_str(n),
        None => String::from_str("export"),
    };
    name.append(".xlsx");
    name
}

} // verus!
