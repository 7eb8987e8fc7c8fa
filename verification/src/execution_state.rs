use vstd::prelude::*;

use crate::config::Error;

verus! {

/// Arguments of a run invocation.
#[derive(Clone, Copy, PartialEq, Eq, Structural, Debug)]
pub struct RunArgs {
    pub single_package: bool,
}

/// The command an invocation selected.
#[derive(Clone, Copy, PartialEq, Eq, Structural, Debug)]
pub enum Command {
    Run(RunArgs),
    Other,
}

/// Parsed command-line arguments, reduced to what execution-state assembly
/// reads.
#[derive(Clone, Copy, PartialEq, Eq, Structural, Debug)]
pub struct Args {
    pub preflight: bool,
    pub command: Option<Command>,
}

/// The root package manifest, reduced to what this layer reads of it.
pub struct PackageJson {
    pub name: Option<String>,
    pub package_manager: Option<String>,
}

/// The root turbo configuration, reduced to what this layer reads of it.
pub struct RawTurboJson {
    pub space_id: Option<String>,
}

/// User-level configuration (the user configuration file).
pub struct UserConfig {
    pub token: Option<String>,
}

/// Repository-level configuration (the repository configuration file).
pub struct RepoConfig {
    pub team_id: Option<String>,
    pub team_slug: Option<String>,
    pub api_url: String,
}

/// Client configuration for the remote cache.
pub struct ClientConfig {
    pub remote_cache_timeout: u64,
}

/// Everything an invocation has loaded before execution state is
/// assembled: the root manifests, the detected package manager, and the
/// three configuration layers.
pub struct CommandBase {
    pub repo_root: String,
    pub args: Args,
    pub package_json: PackageJson,
    pub turbo_json: RawTurboJson,
    pub package_manager: String,
    pub user_config: UserConfig,
    pub repo_config: RepoConfig,
    pub client_config: ClientConfig,
}

/// Configuration for the remote API client, drawn from the user, repo and
/// client configuration layers.
pub struct APIClientConfig {
    pub token: Option<String>,
    pub team_id: Option<String>,
    pub team_slug: Option<String>,
    pub api_url: String,
    pub use_preflight: bool,
    pub timeout: u64,
}

/// The state a run is executed with.
pub struct ExecutionState {
    pub api_client_config: APIClientConfig,
    pub package_manager: String,
    pub cli_args: Args,
    pub root_package_json: PackageJson,
    pub root_turbo_json: RawTurboJson,
}

/// An equal copy of an optional string.
fn dup_opt(o: &Option<String>) -> (r: Option<String>)
    ensures
        r == *o,
{
    match o {
        Some(s) => Some(s.clone()),
        None => None,
    }
}

impl PackageJson {
    /// An equal copy of this manifest.
    pub fn duplicate(&self) -> (r: PackageJson)
        ensures
            r == *self,
    {
        PackageJson {
            name: dup_opt(&self.name),
            package_manager: dup_opt(&self.package_manager),
        }
    }
}

impl RawTurboJson {
    /// An equal copy of this configuration.
    pub fn duplicate(&self) -> (r: RawTurboJson)
        ensures
            r == *self,
    {
        RawTurboJson { space_id: dup_opt(&self.space_id) }
    }
}

impl ExecutionState {
    /// Assembles the execution state from a loaded command base: succeeds
    /// exactly for a run command, and then pins every field to the layer
    /// it is drawn from; any other command is rejected.
    pub fn try_from(base: &CommandBase) -> (r: Result<ExecutionState, Error>)
        ensures
            r is Ok <==> base.args.command matches Some(Command::Run(_)),
            r matches Ok(s) ==> {
                &&& s.api_client_config.token == base.user_config.token
                &&& s.api_client_config.team_id == base.repo_config.team_id
                &&& s.api_client_config.team_slug == base.repo_config.team_slug
                &&& s.api_client_config.api_url == base.repo_config.api_url
                &&& s.api_client_config.use_preflight == base.args.preflight
                &&& s.api_client_config.timeout == base.client_config.remote_cache_timeout
                &&& s.package_manager == base.package_manager
                &&& s.cli_args == base.args
                &&& s.root_package_json == base.package_json
                &&& s.root_turbo_json == base.turbo_json
            },
            r matches Err(e) ==> (e matches Error::Other(m) && m@ == "Expected run command"@),
    {
        match &base.args.command {
            Some(Command::Run(_)) => {}
            _ => {
                return Err(Error::Other("Expected run command".to_owned()));
            }
        }
        Ok(
            ExecutionState {
                api_client_config: APIClientConfig {
                    token: dup_opt(&base.user_config.token),
                    team_id: dup_opt(&base.repo_config.team_id),
                    team_slug: dup_opt(&base.repo_config.team_slug),
                    api_url: base.repo_config.api_url.clone(),
                    use_preflight: base.args.preflight,
                    timeout: base.client_config.remote_cache_timeout,
                },
                package_manager: base.package_manager.clone(),
                cli_args: base.args,
                root_package_json: base.package_json.duplicate(),
                root_turbo_json: base.turbo_json.duplicate(),
            },
        )
    }
}

} // verus!
