use mdde::config::Config;
use mdde::docker::{DockerOp, Invocation};
use mdde::env_file::{parse_env_content, EnvVars};
use mdde::error::MddeError;
use mdde::i18n::LanguageSetting;
use mdde::lifecycle::{
    clean_failure, clean_invocation, clean_targets, created_updates, delete_env_var,
    dockerfile_step, env_operation, environments_or_default, exec_operation,
    get_default_environments, given_argument, host_from_input, logs_container, logs_failure,
    logs_plan, record_created, run_operation, select_environment, set_env_var, start_plan,
    status_plan, stop_plan, CleanTarget, DevEnvironment, DockerfileStep, EnvOperation,
};

fn strings(v: &[&str]) -> Vec<String> {
    v.iter().map(|s| s.to_string()).collect()
}

fn compose(rest: &[&str], streamed: bool) -> Invocation {
    let mut args = strings(&["--env-file", ".mdde/cfg.env", "--file", ".mdde/docker-compose.yml"]);
    args.extend(strings(rest));
    Invocation { program: "docker-compose".to_string(), args, streamed }
}

#[test]
fn status_without_compose_file_fails_before_running_anything() {
    let setting = LanguageSetting::new();
    let r = status_plan(&setting, false, true);
    assert_eq!(
        r,
        Err(MddeError::FileOperation("docker-compose.yml file does not exist".to_string()))
    );
    assert_eq!(
        status_plan(&setting, true, false),
        Err(MddeError::FileOperation(".mdde/cfg.env file does not exist".to_string()))
    );
    assert_eq!(status_plan(&setting, true, true), Ok(compose(&["ps"], false)));
}

#[test]
fn start_and_stop_invocations() {
    let setting = LanguageSetting::new();
    assert_eq!(start_plan(&setting, true, true, true), Ok(compose(&["up", "-d"], true)));
    assert_eq!(start_plan(&setting, false, true, true), Ok(compose(&["up"], true)));
    assert_eq!(stop_plan(&setting, true, true, true), Ok(compose(&["down", "--volumes"], false)));
    assert_eq!(stop_plan(&setting, false, true, true), Ok(compose(&["down"], false)));
    assert!(matches!(stop_plan(&setting, false, false, false), Err(MddeError::FileOperation(_))));
}

#[test]
fn dockerfile_404_is_not_fatal() {
    let setting = LanguageSetting::new();
    assert_eq!(
        dockerfile_step(&setting, Ok("FROM x".to_string())),
        DockerfileStep::Write("FROM x".to_string())
    );
    assert_eq!(dockerfile_step(&setting, Err(MddeError::HttpStatus(404))), DockerfileStep::Absent);
    assert_eq!(
        dockerfile_step(&setting, Err(MddeError::HttpStatus(500))),
        DockerfileStep::Warn("⚠ Failed to download Dockerfile: HTTP 状态错误: 500".to_string())
    );
    assert!(matches!(
        dockerfile_step(&setting, Err(MddeError::Http("timeout".to_string()))),
        DockerfileStep::Warn(_)
    ));
}

#[test]
fn log_line_precedence() {
    let setting = LanguageSetting::new();
    let name = Some("web".to_string());
    let docker = |args: &[&str], streamed: bool| Invocation {
        program: "docker".to_string(),
        args: strings(args),
        streamed,
    };
    assert_eq!(
        logs_plan(&setting, name.clone(), Some(10), Some(20), false, false),
        Ok(docker(&["logs", "web", "--tail", "10"], false))
    );
    assert_eq!(
        logs_plan(&setting, name.clone(), None, Some(20), false, true),
        Ok(docker(&["logs", "web", "-f", "--tail", "20"], true))
    );
    assert_eq!(
        logs_plan(&setting, name.clone(), None, None, false, false),
        Ok(docker(&["logs", "web", "--tail", "50"], false))
    );
    assert_eq!(
        logs_plan(&setting, name, Some(5), None, true, false),
        Ok(docker(&["logs", "web"], false))
    );
    assert!(matches!(
        logs_plan(&setting, None, None, None, false, false),
        Err(MddeError::EnvironmentNotFound(_))
    ));
}

#[test]
fn logs_container_prefers_env_file() {
    let mut config = Config::default();
    config.container_name = Some("from-config".to_string());
    let vars = parse_env_content("container_name=from-file\n");
    assert_eq!(logs_container(&vars, &config), Some("from-file".to_string()));
    assert_eq!(logs_container(&EnvVars::new(), &config), Some("from-config".to_string()));
    assert_eq!(logs_container(&EnvVars::new(), &Config::default()), None);
}

#[test]
fn logs_failures_are_told_apart() {
    let setting = LanguageSetting::new();
    assert_eq!(
        logs_failure(&setting, "web", "Error: No such container: web"),
        MddeError::ContainerNotRunning(
            "Container 'web' does not exist. Please check container name or start container first"
                .to_string()
        )
    );
    assert_eq!(
        logs_failure(&setting, "web", "daemon down"),
        MddeError::Docker("Failed to get logs: daemon down".to_string())
    );
}

#[test]
fn clean_maps_flags_to_prunes() {
    assert_eq!(clean_targets(true, true, false, false), vec![CleanTarget::System]);
    assert_eq!(
        clean_targets(false, true, false, true),
        vec![CleanTarget::Images, CleanTarget::Volumes]
    );
    assert!(clean_targets(false, false, false, false).is_empty());
    assert_eq!(
        clean_invocation(CleanTarget::System).args,
        strings(&["system", "prune", "-a", "-f"])
    );
    assert_eq!(clean_invocation(CleanTarget::Containers).args, strings(&["container", "prune", "-f"]));
    assert_eq!(
        clean_failure(CleanTarget::Images, "busy"),
        MddeError::Docker("镜像清理失败: busy".to_string())
    );
}

#[test]
fn run_and_exec_operations() {
    let setting = LanguageSetting::new();
    let config = Config::default();
    assert_eq!(
        run_operation(&setting, &config, &strings(&["ls", "-la", "/"])),
        Ok(DockerOp::ExecCommand { container: "default".to_string(), command: "ls -la /".to_string() })
    );
    assert_eq!(
        run_operation(&setting, &config, &vec![]),
        Err(MddeError::InvalidInput("Please provide a command to execute".to_string()))
    );
    let mut named = Config::default();
    named.container_name = Some("dev".to_string());
    assert_eq!(
        exec_operation(&named, "/bin/bash"),
        DockerOp::ExecInteractive { container: "dev".to_string(), shell: "/bin/bash".to_string() }
    );
}

#[test]
fn environment_selection() {
    let setting = LanguageSetting::new();
    let defaults = get_default_environments(&setting);
    assert_eq!(defaults.len(), 11);
    assert_eq!(defaults[0].name, "dotnet9");
    assert_eq!(defaults[0].description, ".NET 9 Development Environment");
    let offered = environments_or_default(&setting, Err(MddeError::HttpStatus(400)));
    assert_eq!(offered, defaults);
    assert_eq!(select_environment(&setting, &offered, " node22 \n"), Ok("node22".to_string()));
    assert_eq!(
        select_environment(&setting, &offered, "cobol"),
        Err(MddeError::InvalidInput(
            "Invalid development environment type: 'cobol'. Please select a valid environment type"
                .to_string()
        ))
    );
    assert_eq!(
        select_environment(&setting, &vec![], "node22"),
        Err(MddeError::InvalidInput("No available development environments".to_string()))
    );
    let remote = vec![DevEnvironment { name: "go".to_string(), description: "Go".to_string() }];
    assert_eq!(environments_or_default(&setting, Ok(remote.clone())), remote);
    assert!(select_environment(&setting, &remote, "").is_err());
}

#[test]
fn create_records_settings() {
    let mut vars = parse_env_content("host=http://h\n");
    record_created(&mut vars, "demo", Some("8080:80"), "/src");
    assert_eq!(vars.get("host"), Some("http://h".to_string()));
    assert_eq!(vars.get("container_name"), Some("demo".to_string()));
    assert_eq!(vars.get("app_port"), Some("8080:80".to_string()));
    assert_eq!(vars.get("workspace"), Some("/src".to_string()));
    let updates = created_updates("demo", None, "/src");
    assert_eq!(
        updates,
        vec![
            ("container_name".to_string(), "demo".to_string()),
            ("workspace".to_string(), "/src".to_string())
        ]
    );
    let mut config = Config::default();
    config.update(&created_updates("demo", Some("8080:80"), "/src")).unwrap();
    assert_eq!(config.app_port, Some((8080, 80)));
}

#[test]
fn init_and_given_arguments() {
    assert_eq!(host_from_input("  \n"), mdde::config::DEFAULT_HOST);
    assert_eq!(host_from_input(" http://h:1 \n"), "http://h:1");
    assert_eq!(given_argument(Some("  ".to_string())), None);
    assert_eq!(given_argument(Some("x".to_string())), Some("x".to_string()));
    assert_eq!(given_argument(None), None);
}

#[test]
fn env_command_operations() {
    let setting = LanguageSetting::new();
    assert_eq!(env_operation(&setting, None, true, None), Ok(EnvOperation::List));
    assert_eq!(
        env_operation(&setting, Some("a=1".to_string()), false, None),
        Ok(EnvOperation::SetVar("a=1".to_string()))
    );
    assert!(matches!(env_operation(&setting, None, false, None), Err(MddeError::InvalidArgument(_))));
    assert!(matches!(
        env_operation(&setting, Some("a=1".to_string()), true, None),
        Err(MddeError::InvalidArgument(_))
    ));

    let mut vars = EnvVars::new();
    assert_eq!(set_env_var(&setting, &mut vars, "a=1"), Ok(false));
    assert_eq!(set_env_var(&setting, &mut vars, "a = 2"), Ok(true));
    assert!(set_env_var(&setting, &mut vars, "bad-key=1").is_err());
    assert_eq!(vars.get("a"), Some("2".to_string()));
    assert_eq!(delete_env_var(&setting, &mut vars, "a"), Ok("2".to_string()));
    assert_eq!(
        delete_env_var(&setting, &mut vars, "a"),
        Err(MddeError::InvalidArgument("Environment variable 'a' does not exist".to_string()))
    );
}
