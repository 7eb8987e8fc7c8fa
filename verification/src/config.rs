use vstd::prelude::*;

use crate::text::append_str;

verus! {

/// Errors of configuration handling. Causes coming from outside
/// collaborators (serialization, configuration parsing, the filesystem)
/// are carried as their rendered message.
#[derive(Debug)]
pub enum Error {
    NoDefaultConfigPath,
    NoTurboJson,
    Serde(String),
    Config(String),
    Io(String),
    PackageTaskInSinglePackageMode { task_id: String },
    Other(String),
}

/// Relies on dirs_next::config_dir: the platform's configuration base
/// directory, where the platform defines one and it is valid UTF-8.
/// Nothing is promised of the value: it depends on the environment.
#[verifier::external_body]
fn platform_config_dir() -> (r: Option<String>) {
    dirs_next::config_dir().and_then(|p| p.into_os_string().into_string().ok())
}

/// Relies on dirs_next::data_dir: the platform's data base directory,
/// where the platform defines one and it is valid UTF-8. Nothing is
/// promised of the value: it depends on the environment.
#[verifier::external_body]
fn platform_data_dir() -> (r: Option<String>) {
    dirs_next::data_dir().and_then(|p| p.into_os_string().into_string().ok())
}

/// The user configuration file location under a given configuration base
/// directory: `<base>/turborepo/config.json`; the dedicated error where
/// the platform has no such directory.
pub fn user_config_path_from(base: Option<String>) -> (r: Result<String, Error>)
    ensures
        base matches Some(b) ==> (r matches Ok(p) && p@ == b@ + "/turborepo/config.json"@),
        base is None ==> (r matches Err(e) && e is NoDefaultConfigPath),
{
    match base {
        Some(b) => Ok(append_str(b.as_str(), "/turborepo/config.json")),
        None => Err(Error::NoDefaultConfigPath),
    }
}

/// The default location of the user configuration file, under the
/// platform's configuration directory.
pub fn default_user_config_path() -> (r: Result<String, Error>)
    ensures
        r matches Err(e) ==> e is NoDefaultConfigPath,
        r matches Ok(p) ==> exists|b: Seq<char>|
            p@ == #[trigger] (b + "/turborepo/config.json"@),
{
    let base = platform_config_dir();
    let ghost base_snapshot = base;
    let r = user_config_path_from(base);
    proof {
        if r is Ok {
            let b = base_snapshot->0@;
            assert(r->Ok_0@ == b + "/turborepo/config.json"@);
        }
    }
    r
}

/// The tool's data directory under a given data base directory:
/// `<base>/turborepo`; nothing where the platform has no such directory.
pub fn data_dir_from(base: Option<String>) -> (r: Option<String>)
    ensures
        base matches Some(b) ==> (r matches Some(p) && p@ == b@ + "/turborepo"@),
        base is None ==> r is None,
{
    match base {
        Some(b) => Some(append_str(b.as_str(), "/turborepo")),
        None => None,
    }
}

/// The tool's data directory, under the platform's data directory.
pub fn data_dir() -> (r: Option<String>)
    ensures
        r matches Some(p) ==> exists|b: Seq<char>| p@ == #[trigger] (b + "/turborepo"@),
{
    let base = platform_data_dir();
    let ghost base_snapshot = base;
    let r = data_dir_from(base);
    proof {
        if r is Some {
            let b = base_snapshot->0@;
            assert(r->0@ == b + "/turborepo"@);
        }
    }
    r
}

} // verus!
