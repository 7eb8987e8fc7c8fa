use content_source::config::{data_dir, data_dir_from, default_user_config_path, user_config_path_from, Error};
use content_source::execution_state::{
    APIClientConfig, Args, ClientConfig, Command, CommandBase, ExecutionState, PackageJson,
    RawTurboJson, RepoConfig, RunArgs, UserConfig,
};
use content_source::webpack::{CallArg, CallShape, ParseResult};

fn call(obj: Option<&str>, prop: Option<&str>, args: Vec<CallArg>) -> CallShape {
    CallShape {
        callee_obj: obj.map(|s| s.to_owned()),
        callee_prop: prop.map(|s| s.to_owned()),
        args,
    }
}

fn lit_arg(text: &str) -> CallArg {
    CallArg { spread: false, lit: Some(text.to_owned()) }
}

#[test]
fn user_config_path_is_joined() {
    let r = user_config_path_from(Some("/home/dev/.config".to_owned()));
    assert_eq!(r.unwrap(), "/home/dev/.config/turborepo/config.json");
}

#[test]
fn user_config_path_without_base_is_an_error() {
    let r = user_config_path_from(None);
    assert!(matches!(r, Err(Error::NoDefaultConfigPath)));
}

#[test]
fn default_user_config_path_ends_with_fixed_location() {
    if let Ok(p) = default_user_config_path() {
        assert!(p.ends_with("/turborepo/config.json"));
    }
}

#[test]
fn data_dir_is_joined() {
    assert_eq!(data_dir_from(Some("/home/dev/.local/share".to_owned())),
        Some("/home/dev/.local/share/turborepo".to_owned()));
    assert_eq!(data_dir_from(None), None);
    if let Some(p) = data_dir() {
        assert!(p.ends_with("/turborepo"));
    }
}

fn run_base(command: Option<Command>) -> CommandBase {
    CommandBase {
        repo_root: "/repo".to_owned(),
        args: Args { preflight: true, command },
        package_json: PackageJson {
            name: Some("app".to_owned()),
            package_manager: Some("npm@9".to_owned()),
        },
        turbo_json: RawTurboJson { space_id: None },
        package_manager: "npm".to_owned(),
        user_config: UserConfig { token: Some("tok_abc123".to_owned()) },
        repo_config: RepoConfig {
            team_id: Some("team_123".to_owned()),
            team_slug: None,
            api_url: "https://vercel.com/api".to_owned(),
        },
        client_config: ClientConfig { remote_cache_timeout: 30 },
    }
}

#[test]
fn execution_state_is_assembled_from_the_layers() {
    let base = run_base(Some(Command::Run(RunArgs { single_package: false })));
    let s = ExecutionState::try_from(&base).unwrap();
    let APIClientConfig { token, team_id, team_slug, api_url, use_preflight, timeout } =
        s.api_client_config;
    assert_eq!(token.as_deref(), Some("tok_abc123"));
    assert_eq!(team_id.as_deref(), Some("team_123"));
    assert_eq!(team_slug, None);
    assert_eq!(api_url, "https://vercel.com/api");
    assert!(use_preflight);
    assert_eq!(timeout, 30);
    assert_eq!(s.package_manager, "npm");
    assert_eq!(s.root_package_json.name.as_deref(), Some("app"));
}

#[test]
fn execution_state_requires_a_run_command() {
    let other = ExecutionState::try_from(&run_base(Some(Command::Other)));
    match other {
        Err(Error::Other(m)) => assert_eq!(m, "Expected run command"),
        _ => panic!("expected the run-command error"),
    }
    let none = ExecutionState::try_from(&run_base(None));
    assert!(matches!(none, Err(Error::Other(_))));
}

#[test]
fn module_references_finds_chunk_loads_in_order() {
    let calls = vec![
        call(Some("__webpack_require__"), Some("e"), vec![lit_arg("1")]),
        call(Some("__webpack_require__"), Some("r"), vec![lit_arg("2")]),
        call(Some("require"), Some("e"), vec![lit_arg("3")]),
        call(Some("__webpack_require__"), Some("e"), vec![
            CallArg { spread: true, lit: Some("4".to_owned()) },
        ]),
        call(Some("__webpack_require__"), Some("e"), vec![lit_arg("5"), lit_arg("6")]),
        call(Some("__webpack_require__"), Some("e"), vec![
            CallArg { spread: false, lit: None },
        ]),
        call(None, None, vec![lit_arg("7")]),
        call(Some("__webpack_require__"), Some("e"), vec![lit_arg("8")]),
    ];
    let refs = content_source::webpack::module_references(&ParseResult::Parsed(calls));
    let ids: Vec<&str> = refs.iter().map(|r| r.chunk_id.as_str()).collect();
    assert_eq!(ids, vec!["1", "8"]);
}

#[test]
fn module_references_of_unparseable_is_empty() {
    assert_eq!(content_source::webpack::module_references(&ParseResult::Unparseable).len(), 0);
    assert_eq!(content_source::webpack::module_references(&ParseResult::NotFound).len(), 0);
}
