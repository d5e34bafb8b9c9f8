use vstd::prelude::*;
use vstd::string::*;
use crate::config::{default_host, Config};
use crate::docker::{texts, DockerOp, Invocation};
use crate::env_file::EnvVars;
use crate::error::MddeError;
use crate::i18n::{fill, t, tf, translate, LanguageSetting};
use crate::text::{
    chars_of, contains, contains_str, decimal, push_char, push_decimal, string_of_range, trim,
    trim_range,
};
use crate::env_file::valid_key;
use crate::validation::{has_char, key_value_parts, parse_key_value};

verus! {

/// The arguments that every `docker-compose` call starts with: the env file
/// and the compose file under `.mdde/`.
pub open spec fn compose_base() -> Seq<Seq<char>> {
    seq!["--env-file"@, ".mdde/cfg.env"@, "--file"@, ".mdde/docker-compose.yml"@]
}

fn text(s: &str) -> (r: String)
    ensures
        r@ == s@,
{
    String::from_str(s)
}

fn compose_invocation(rest: Vec<String>, streamed: bool) -> (r: Invocation)
    ensures
        r@ == ("docker-compose"@, compose_base() + texts(rest@), streamed),
{
    let mut args: Vec<String> = Vec::new();
    args.push(text("--env-file"));
    args.push(text(".mdde/cfg.env"));
    args.push(text("--file"));
    args.push(text(".mdde/docker-compose.yml"));
    let mut i: usize = 0;
    let ghost base = texts(args@);
    assert(base =~= compose_base());
    while i < rest.len()
        invariant
            i <= rest@.len(),
            base == compose_base(),
            texts(args@) == base + texts(rest@.subrange(0, i as int)),
        decreases rest@.len() - i,
    {
        let ghost old_args = texts(args@);
        args.push(rest[i].clone());
        assert(texts(args@) =~= old_args.push(rest@[i as int]@));
        assert(texts(rest@.subrange(0, i + 1)) =~= texts(rest@.subrange(0, i as int)).push(
            rest@[i as int]@,
        ));
        i = i + 1;
        assert(texts(args@) =~= base + texts(rest@.subrange(0, i as int)));
    }
    assert(rest@.subrange(0, rest@.len() as int) =~= rest@);
    Invocation { program: text("docker-compose"), args, streamed }
}

/// The files that `start`, `stop` and `status` need: the compose file, then
/// the env file; a missing one is a `FileOperation` error.
pub fn check_environment_files(
    setting: &LanguageSetting,
    compose_exists: bool,
    env_exists: bool,
) -> (r: Result<(), MddeError>)
    ensures
        r is Ok <==> compose_exists && env_exists,
        !compose_exists ==> (r matches Err(MddeError::FileOperation(m)) && m@ == translate(
            setting.current(),
            "docker_compose_not_exists"@,
        )),
        compose_exists && !env_exists ==> (r matches Err(MddeError::FileOperation(m)) && m@
            == translate(setting.current(), "mdde_cfg_env_not_exists"@)),
{
    if !compose_exists {
        return Err(MddeError::FileOperation(text(t(setting, "docker_compose_not_exists"))));
    }
    if !env_exists {
        return Err(MddeError::FileOperation(text(t(setting, "mdde_cfg_env_not_exists"))));
    }
    Ok(())
}

/// `start`: `docker-compose ... up [-d]`, streamed to the terminal, once both
/// files are there.
pub fn start_plan(
    setting: &LanguageSetting,
    detach: bool,
    compose_exists: bool,
    env_exists: bool,
) -> (r: Result<Invocation, MddeError>)
    ensures
        match r {
            Ok(inv) => compose_exists && env_exists && inv@ == (
                "docker-compose"@,
                compose_base() + if detach {
                    seq!["up"@, "-d"@]
                } else {
                    seq!["up"@]
                },
                true,
            ),
            Err(e) => !(compose_exists && env_exists) && e is FileOperation,
        },
{
    check_environment_files(setting, compose_exists, env_exists)?;
    let mut rest: Vec<String> = Vec::new();
    rest.push(text("up"));
    if detach {
        rest.push(text("-d"));
    }
    let r = compose_invocation(rest, true);
    assert(r@.1 =~= compose_base() + if detach {
        seq!["up"@, "-d"@]
    } else {
        seq!["up"@]
    });
    Ok(r)
}

/// `stop`: `docker-compose ... down [--volumes]`, captured, once both files
/// are there.
pub fn stop_plan(
    setting: &LanguageSetting,
    remove: bool,
    compose_exists: bool,
    env_exists: bool,
) -> (r: Result<Invocation, MddeError>)
    ensures
        match r {
            Ok(inv) => compose_exists && env_exists && inv@ == (
                "docker-compose"@,
                compose_base() + if remove {
                    seq!["down"@, "--volumes"@]
                } else {
                    seq!["down"@]
                },
                false,
            ),
            Err(e) => !(compose_exists && env_exists) && e is FileOperation,
        },
{
    check_environment_files(setting, compose_exists, env_exists)?;
    let mut rest: Vec<String> = Vec::new();
    rest.push(text("down"));
    if remove {
        rest.push(text("--volumes"));
    }
    let r = compose_invocation(rest, false);
    assert(r@.1 =~= compose_base() + if remove {
        seq!["down"@, "--volumes"@]
    } else {
        seq!["down"@]
    });
    Ok(r)
}

/// `status`: `docker-compose ... ps`, captured, once both files are there.
/// Without the compose file it fails and nothing is to be run.
pub fn status_plan(setting: &LanguageSetting, compose_exists: bool, env_exists: bool) -> (r: Result<
    Invocation,
    MddeError,
>)
    ensures
        match r {
            Ok(inv) => compose_exists && env_exists && inv@ == (
                "docker-compose"@,
                compose_base() + seq!["ps"@],
                false,
            ),
            Err(e) => !(compose_exists && env_exists) && e is FileOperation,
        },
{
    check_environment_files(setting, compose_exists, env_exists)?;
    let mut rest: Vec<String> = Vec::new();
    rest.push(text("ps"));
    let r = compose_invocation(rest, false);
    assert(r@.1 =~= compose_base() + seq!["ps"@]);
    Ok(r)
}

/// The error for a failed `docker-compose ... down`.
pub fn stop_failure(setting: &LanguageSetting, stderr: &str) -> (r: MddeError)
    ensures
        r matches MddeError::Docker(m) && m@ == fill(
            translate(setting.current(), "stop_failed"@),
            seq![stderr],
            1,
        ),
{
    let args = [stderr];
    assert(args@ =~= seq![stderr]);
    MddeError::Docker(tf(setting, "stop_failed", &args))
}

/// The error for a failed `docker-compose ... up`.
pub fn start_failure(setting: &LanguageSetting, reason: &str) -> (r: MddeError)
    ensures
        r matches MddeError::Docker(m) && m@ == fill(
            translate(setting.current(), "start_failed"@),
            seq![reason],
            1,
        ),
{
    let args = [reason];
    assert(args@ =~= seq![reason]);
    MddeError::Docker(tf(setting, "start_failed", &args))
}

/// The error for a failed `docker-compose ... ps`.
pub fn status_failure(stderr: &str) -> (r: MddeError)
    ensures
        r matches MddeError::Docker(m) && m@ == "获取状态失败: "@ + stderr@,
{
    MddeError::Docker(text("获取状态失败: ").concat(stderr))
}

/// The container that `exec` and `run` address: the configured one, else
/// `default`.
pub fn target_container(config: &Config) -> (r: String)
    ensures
        r@ == match config.container_name {
            Some(n) => n@,
            None => "default"@,
        },
{
    match &config.container_name {
        Some(n) => n.clone(),
        None => text("default"),
    }
}

/// The container whose logs are shown: the env file's `container_name`
/// first, else the configured one.
pub fn logs_container(vars: &EnvVars, config: &Config) -> (r: Option<String>)
    requires
        vars.wf(),
    ensures
        match r {
            Some(n) => if vars@.contains_key("container_name"@) {
                n@ == vars@["container_name"@]
            } else {
                config.container_name matches Some(c) && n@ == c@
            },
            None => !vars@.contains_key("container_name"@) && config.container_name is None,
        },
{
    match vars.get("container_name") {
        Some(n) => Some(n),
        None => match &config.container_name {
            Some(c) => Some(c.clone()),
            None => None,
        },
    }
}

/// How many log lines are shown: the positional count over `--tail`, over
/// the default of 50; `None` (all of them) where `all` is set.
pub open spec fn log_line_count(lines: Option<usize>, tail: Option<usize>, all: bool) -> Option<
    nat,
> {
    if all {
        None
    } else {
        match (lines, tail) {
            (Some(n), _) => Some(n as nat),
            (None, Some(n)) => Some(n as nat),
            (None, None) => Some(50),
        }
    }
}

/// `logs`: `docker logs <name> [-f] [--tail N]`, streamed when following.
/// Without a container name it fails with `EnvironmentNotFound`.
pub fn logs_plan(
    setting: &LanguageSetting,
    container: Option<String>,
    lines: Option<usize>,
    tail: Option<usize>,
    all: bool,
    follow: bool,
) -> (r: Result<Invocation, MddeError>)
    ensures
        match r {
            Ok(inv) => container matches Some(name) && inv@ == (
                "docker"@,
                seq!["logs"@, name@] + (if follow {
                    seq!["-f"@]
                } else {
                    Seq::empty()
                }) + match log_line_count(lines, tail, all) {
                    Some(n) => seq!["--tail"@, decimal(n)],
                    None => Seq::empty(),
                },
                follow,
            ),
            Err(e) => container is None && (e matches MddeError::EnvironmentNotFound(m) && m@
                == translate(setting.current(), "container_name_not_found"@)),
        },
{
    let name = match container {
        Some(n) => n,
        None => {
            return Err(
                MddeError::EnvironmentNotFound(text(t(setting, "container_name_not_found"))),
            );
        },
    };
    let ghost nm = name@;
    let mut args: Vec<String> = Vec::new();
    args.push(text("logs"));
    args.push(name);
    let ghost a0 = texts(args@);
    assert(a0 =~= seq!["logs"@, nm]);
    if follow {
        args.push(text("-f"));
    }
    let ghost a1 = texts(args@);
    assert(a1 =~= a0 + if follow {
        seq!["-f"@]
    } else {
        Seq::<Seq<char>>::empty()
    });
    let count: Option<usize> = if all {
        None
    } else {
        match lines {
            Some(n) => Some(n),
            None => match tail {
                Some(n) => Some(n),
                None => Some(50),
            },
        }
    };
    if let Some(n) = count {
        args.push(text("--tail"));
        let mut s = String::new();
        push_decimal(&mut s, n as u64);
        args.push(s);
    }
    let r = Invocation { program: text("docker"), args, streamed: follow };
    assert(r@.1 =~= a1 + match log_line_count(lines, tail, all) {
        Some(n) => seq!["--tail"@, decimal(n)],
        None => Seq::<Seq<char>>::empty(),
    });
    Ok(r)
}

/// The error for a `docker logs` call that failed: `ContainerNotRunning`
/// where stderr says `No such container`, else `Docker` with stderr.
pub fn logs_failure(setting: &LanguageSetting, container: &str, stderr: &str) -> (r: MddeError)
    ensures
        if contains(stderr@, "No such container"@) {
            r matches MddeError::ContainerNotRunning(m) && m@ == fill(
                translate(setting.current(), "container_not_exists"@),
                seq![container],
                1,
            )
        } else {
            r matches MddeError::Docker(m) && m@ == fill(
                translate(setting.current(), "get_logs_error"@),
                seq![stderr],
                1,
            )
        },
{
    if contains_str(stderr, "No such container") {
        let args = [container];
        assert(args@ =~= seq![container]);
        MddeError::ContainerNotRunning(tf(setting, "container_not_exists", &args))
    } else {
        let args = [stderr];
        assert(args@ =~= seq![stderr]);
        MddeError::Docker(tf(setting, "get_logs_error", &args))
    }
}

/// The error for a followed `docker logs` that ended in failure.
pub fn follow_logs_failure(setting: &LanguageSetting, container: &str) -> (r: MddeError)
    ensures
        r matches MddeError::Docker(m) && m@ == fill(
            translate(setting.current(), "get_logs_failed"@),
            seq![container],
            1,
        ),
{
    let args = [container];
    assert(args@ =~= seq![container]);
    MddeError::Docker(tf(setting, "get_logs_failed", &args))
}

/// What `clean` prunes.
#[derive(Debug, Clone, Copy, PartialEq, Eq, Structural)]
pub enum CleanTarget {
    /// Everything unused, images included.
    System,
    Images,
    Containers,
    Volumes,
}

/// The prunes that `clean` runs: everything where `all` is set, else each
/// kind asked for, in the order images, containers, volumes. None at all
/// where nothing is asked for.
pub open spec fn clean_targets_of(all: bool, images: bool, containers: bool, volumes: bool) -> Seq<
    CleanTarget,
> {
    if all {
        seq![CleanTarget::System]
    } else {
        (if images {
            seq![CleanTarget::Images]
        } else {
            Seq::empty()
        }) + (if containers {
            seq![CleanTarget::Containers]
        } else {
            Seq::empty()
        }) + (if volumes {
            seq![CleanTarget::Volumes]
        } else {
            Seq::empty()
        })
    }
}

pub fn clean_targets(all: bool, images: bool, containers: bool, volumes: bool) -> (r: Vec<
    CleanTarget,
>)
    ensures
        r@ == clean_targets_of(all, images, containers, volumes),
{
    let mut out: Vec<CleanTarget> = Vec::new();
    if all {
        out.push(CleanTarget::System);
        assert(out@ =~= seq![CleanTarget::System]);
        return out;
    }
    if images {
        out.push(CleanTarget::Images);
    }
    let ghost a = out@;
    if containers {
        out.push(CleanTarget::Containers);
    }
    let ghost b = out@;
    if volumes {
        out.push(CleanTarget::Volumes);
    }
    assert(out@ =~= clean_targets_of(all, images, containers, volumes));
    out
}

/// The `docker` arguments of a prune.
pub open spec fn clean_args(target: CleanTarget) -> Seq<Seq<char>> {
    match target {
        CleanTarget::System => seq!["system"@, "prune"@, "-a"@, "-f"@],
        CleanTarget::Images => seq!["image"@, "prune"@, "-f"@],
        CleanTarget::Containers => seq!["container"@, "prune"@, "-f"@],
        CleanTarget::Volumes => seq!["volume"@, "prune"@, "-f"@],
    }
}

/// The captured `docker ... prune -f` call of a target.
pub fn clean_invocation(target: CleanTarget) -> (r: Invocation)
    ensures
        r@ == ("docker"@, clean_args(target), false),
{
    let mut args: Vec<String> = Vec::new();
    match target {
        CleanTarget::System => {
            args.push(text("system"));
            args.push(text("prune"));
            args.push(text("-a"));
            args.push(text("-f"));
        },
        CleanTarget::Images => {
            args.push(text("image"));
            args.push(text("prune"));
            args.push(text("-f"));
        },
        CleanTarget::Containers => {
            args.push(text("container"));
            args.push(text("prune"));
            args.push(text("-f"));
        },
        CleanTarget::Volumes => {
            args.push(text("volume"));
            args.push(text("prune"));
            args.push(text("-f"));
        },
    }
    let r = Invocation { program: text("docker"), args, streamed: false };
    assert(r@.1 =~= clean_args(target));
    r
}

/// The text that opens the error of a failed prune.
pub open spec fn clean_failure_label(target: CleanTarget) -> Seq<char> {
    match target {
        CleanTarget::System => "清理失败: "@,
        CleanTarget::Images => "镜像清理失败: "@,
        CleanTarget::Containers => "容器清理失败: "@,
        CleanTarget::Volumes => "卷清理失败: "@,
    }
}

/// The error for a failed prune.
pub fn clean_failure(target: CleanTarget, stderr: &str) -> (r: MddeError)
    ensures
        r matches MddeError::Docker(m) && m@ == clean_failure_label(target) + stderr@,
{
    let label = match target {
        CleanTarget::System => text("清理失败: "),
        CleanTarget::Images => text("镜像清理失败: "),
        CleanTarget::Containers => text("容器清理失败: "),
        CleanTarget::Volumes => text("卷清理失败: "),
    };
    MddeError::Docker(label.concat(stderr))
}

/// The command line that `run` executes: the words joined by single spaces.
pub open spec fn joined(words: Seq<Seq<char>>) -> Seq<char>
    decreases words.len(),
{
    if words.len() == 0 {
        Seq::empty()
    } else if words.len() == 1 {
        words[0]
    } else {
        joined(words.drop_last()) + seq![' '] + words.last()
    }
}

/// `run`: the `docker exec <container> sh -c <command>` operation; an empty
/// command is refused with `InvalidInput`.
pub fn run_operation(setting: &LanguageSetting, config: &Config, command: &Vec<String>) -> (r:
    Result<DockerOp, MddeError>)
    ensures
        match r {
            Ok(op) => command@.len() > 0 && (op matches DockerOp::ExecCommand {
                container,
                command: line,
            } && container@ == match config.container_name {
                Some(n) => n@,
                None => "default"@,
            } && line@ == joined(texts(command@))),
            Err(e) => command@.len() == 0 && (e matches MddeError::InvalidInput(m) && m@
                == translate(setting.current(), "provide_command"@)),
        },
{
    if command.len() == 0 {
        return Err(MddeError::InvalidInput(text(t(setting, "provide_command"))));
    }
    let mut line = command[0].clone();
    let mut i: usize = 1;
    assert(texts(command@.subrange(0, 1)) =~= seq![command@[0]@]);
    while i < command.len()
        invariant
            1 <= i <= command@.len(),
            line@ == joined(texts(command@.subrange(0, i as int))),
        decreases command@.len() - i,
    {
        let ghost before = texts(command@.subrange(0, i as int));
        push_char(&mut line, ' ');
        line.append(command[i].as_str());
        assert(texts(command@.subrange(0, i + 1)).drop_last() =~= before);
        assert(line@ =~= joined(texts(command@.subrange(0, i + 1))));
        i = i + 1;
    }
    assert(command@.subrange(0, command@.len() as int) =~= command@);
    Ok(DockerOp::ExecCommand { container: target_container(config), command: line })
}

/// `exec`: the interactive `docker exec -it <container> <shell>` operation.
pub fn exec_operation(config: &Config, shell: &str) -> (r: DockerOp)
    ensures
        r matches DockerOp::ExecInteractive { container, shell: sh } && container@ == match config.container_name {
            Some(n) => n@,
            None => "default"@,
        } && sh@ == shell@,
{
    DockerOp::ExecInteractive { container: target_container(config), shell: text(shell) }
}

/// The error where the target container of `exec` or `run` is not running.
pub fn not_running(container: &str) -> (r: MddeError)
    ensures
        r matches MddeError::ContainerNotRunning(m) && m@ == container@,
{
    MddeError::ContainerNotRunning(text(container))
}

/// An environment type offered by the catalog.
#[derive(Debug, Clone, PartialEq, Eq)]
pub struct DevEnvironment {
    /// Its name, as used in download paths (`node22`).
    pub name: String,
    pub description: String,
}

pub open spec fn env_names(v: Seq<DevEnvironment>) -> Seq<Seq<char>> {
    v.map_values(|e: DevEnvironment| e.name@)
}

/// The names of the built-in environment list, used where the catalog
/// cannot be read.
pub open spec fn default_environment_names() -> Seq<Seq<char>> {
    seq![
        "dotnet9"@,
        "dotnet8"@,
        "dotnet6"@,
        "java21"@,
        "java18"@,
        "java11"@,
        "node22"@,
        "node20"@,
        "node18"@,
        "python312"@,
        "python311"@,
    ]
}

fn push_env(list: &mut Vec<DevEnvironment>, setting: &LanguageSetting, name: &str, desc_key: &str)
    ensures
        final(list)@.len() == old(list)@.len() + 1,
        env_names(final(list)@) == env_names(old(list)@).push(name@),
        final(list)@.last().description@ == translate(setting.current(), desc_key@),
        forall|i: int| 0 <= i < old(list)@.len() ==> final(list)@[i] == old(list)@[i],
{
    let ghost before = list@;
    list.push(DevEnvironment { name: text(name), description: text(t(setting, desc_key)) });
    assert(env_names(list@) =~= env_names(before).push(name@));
}

/// The message keys of the built-in environments' descriptions.
pub open spec fn default_environment_descriptions() -> Seq<Seq<char>> {
    seq![
        "dotnet9_desc"@,
        "dotnet8_desc"@,
        "dotnet6_desc"@,
        "java21_desc"@,
        "java18_desc"@,
        "java11_desc"@,
        "node22_desc"@,
        "node20_desc"@,
        "node18_desc"@,
        "python312_desc"@,
        "python311_desc"@,
    ]
}

/// The built-in environment list, with descriptions in the language in
/// effect.
pub fn get_default_environments(setting: &LanguageSetting) -> (r: Vec<DevEnvironment>)
    ensures
        env_names(r@) == default_environment_names(),
        r@.len() == default_environment_descriptions().len(),
        forall|i: int|
            0 <= i < r@.len() ==> (#[trigger] r@[i]).description@ == translate(
                setting.current(),
                default_environment_descriptions()[i],
            ),
{
    let mut list: Vec<DevEnvironment> = Vec::new();
    assert(env_names(list@) =~= Seq::<Seq<char>>::empty());
    push_env(&mut list, setting, "dotnet9", "dotnet9_desc");
    push_env(&mut list, setting, "dotnet8", "dotnet8_desc");
    push_env(&mut list, setting, "dotnet6", "dotnet6_desc");
    push_env(&mut list, setting, "java21", "java21_desc");
    push_env(&mut list, setting, "java18", "java18_desc");
    push_env(&mut list, setting, "java11", "java11_desc");
    push_env(&mut list, setting, "node22", "node22_desc");
    push_env(&mut list, setting, "node20", "node20_desc");
    push_env(&mut list, setting, "node18", "node18_desc");
    push_env(&mut list, setting, "python312", "python312_desc");
    push_env(&mut list, setting, "python311", "python311_desc");
    assert(env_names(list@) =~= default_environment_names());
    assert(list@.len() == 11);
    let ghost lang = setting.current();
    assert forall|i: int| 0 <= i < list@.len() implies (#[trigger] list@[i]).description@
        == translate(lang, default_environment_descriptions()[i]) by {
        assert(default_environment_descriptions()[0] == "dotnet9_desc"@);
    }
    list
}

/// The environments to offer: the catalog's where it could be read, else
/// the built-in list.
pub fn environments_or_default(
    setting: &LanguageSetting,
    fetched: Result<Vec<DevEnvironment>, MddeError>,
) -> (r: Vec<DevEnvironment>)
    ensures
        match fetched {
            Ok(v) => r == v,
            Err(_) => env_names(r@) == default_environment_names(),
        },
{
    match fetched {
        Ok(v) => v,
        Err(_) => get_default_environments(setting),
    }
}

/// The environment type that interactive input selects: the trimmed input,
/// which must be one of the offered names.
pub fn select_environment(
    setting: &LanguageSetting,
    offered: &Vec<DevEnvironment>,
    input: &str,
) -> (r: Result<String, MddeError>)
    ensures
        ({
            let s = trim(input@);
            let lang = setting.current();
            match r {
                Ok(name) => offered@.len() > 0 && s.len() > 0 && env_names(offered@).contains(s)
                    && name@ == s,
                Err(MddeError::InvalidInput(m)) => if offered@.len() == 0 {
                    m@ == translate(lang, "no_available_envs"@)
                } else if s.len() == 0 {
                    m@ == translate(lang, "env_type_empty"@)
                } else {
                    !env_names(offered@).contains(s) && exists|a: &str|
                        a@ == s && m@ == #[trigger] fill(
                            translate(lang, "invalid_env_type"@),
                            seq![a],
                            1,
                        )
                },
                Err(_) => false,
            }
        }),
{
    if offered.len() == 0 {
        return Err(MddeError::InvalidInput(text(t(setting, "no_available_envs"))));
    }
    let cs = chars_of(input);
    let n = cs.len();
    assert(cs@.subrange(0, n as int) =~= input@);
    let (a, b) = trim_range(&cs, 0, n);
    let chosen = string_of_range(&cs, a, b);
    if a == b {
        return Err(MddeError::InvalidInput(text(t(setting, "env_type_empty"))));
    }
    let mut i: usize = 0;
    while i < offered.len()
        invariant
            i <= offered@.len(),
            offered@.len() > 0,
            chosen@.len() > 0,
            chosen@ == trim(input@),
            forall|j: int| 0 <= j < i ==> offered@[j].name@ != chosen@,
        decreases offered@.len() - i,
    {
        if crate::text::str_eq(offered[i].name.as_str(), chosen.as_str()) {
            assert(env_names(offered@)[i as int] == chosen@);
            return Ok(chosen);
        }
        i = i + 1;
    }
    assert(!env_names(offered@).contains(chosen@)) by {
        if env_names(offered@).contains(chosen@) {
            let j = choose|j: int| 0 <= j < env_names(offered@).len() && env_names(offered@)[j] == chosen@;
            assert(offered@[j].name@ == chosen@);
        }
    }
    let cstr = chosen.as_str();
    let args = [cstr];
    assert(args@ =~= seq![cstr]);
    Err(MddeError::InvalidInput(tf(setting, "invalid_env_type", &args)))
}

/// What `create` does with the answer to the Dockerfile download.
#[derive(Debug, Clone, PartialEq, Eq)]
pub enum DockerfileStep {
    /// Write the downloaded Dockerfile.
    Write(String),
    /// The template has no Dockerfile (404): write nothing, go on.
    Absent,
    /// Another failure: warn with this text and go on without one.
    Warn(String),
}

/// Decides what `create` does after asking for the Dockerfile: write it, go
/// on without one on a 404, or go on with a warning on any other failure.
/// No answer stops the command.
pub fn dockerfile_step(setting: &LanguageSetting, fetched: Result<String, MddeError>) -> (r:
    DockerfileStep)
    ensures
        match fetched {
            Ok(content) => r == DockerfileStep::Write(content),
            Err(MddeError::HttpStatus(code)) if code == 404 => r == DockerfileStep::Absent,
            Err(e) => r matches DockerfileStep::Warn(m) && exists|a: &str|
                a@ == crate::error::error_text(e) && m@ == #[trigger] fill(
                    translate(setting.current(), "dockerfile_download_failed"@),
                    seq![a],
                    1,
                ),
        },
{
    match fetched {
        Ok(content) => DockerfileStep::Write(content),
        Err(e) => {
            if let MddeError::HttpStatus(code) = e {
                if code == 404 {
                    return DockerfileStep::Absent;
                }
            }
            let why = e.message();
            let w = why.as_str();
            let args = [w];
            assert(args@ =~= seq![w]);
            DockerfileStep::Warn(tf(setting, "dockerfile_download_failed", &args))
        },
    }
}

/// The settings that `create` records in the env file: the environment's
/// name as `container_name`, the port mapping as given (if any), the
/// workspace.
pub fn record_created(vars: &mut EnvVars, name: &str, app_port: Option<&str>, workspace: &str)
    requires
        old(vars).wf(),
    ensures
        final(vars).wf(),
        final(vars)@ == ({
            let m = old(vars)@.insert("container_name"@, name@);
            let m2 = match app_port {
                Some(p) => m.insert("app_port"@, p@),
                None => m,
            };
            m2.insert("workspace"@, workspace@)
        }),
{
    vars.insert(text("container_name"), text(name));
    if let Some(p) = app_port {
        vars.insert(text("app_port"), text(p));
    }
    vars.insert(text("workspace"), text(workspace));
}

/// The configuration changes that `create` applies, in order:
/// `container_name`, `app_port` (if given), `workspace`.
pub fn created_updates(name: &str, app_port: Option<&str>, workspace: &str) -> (r: Vec<
    (String, String),
>)
    ensures
        crate::config::pair_texts(r@) == seq![("container_name"@, name@)] + (match app_port {
            Some(p) => seq![("app_port"@, p@)],
            None => Seq::empty(),
        }) + seq![("workspace"@, workspace@)],
{
    let mut out: Vec<(String, String)> = Vec::new();
    out.push((text("container_name"), text(name)));
    if let Some(p) = app_port {
        out.push((text("app_port"), text(p)));
    }
    out.push((text("workspace"), text(workspace)));
    assert(crate::config::pair_texts(out@) =~= seq![("container_name"@, name@)] + (match app_port {
        Some(p) => seq![("app_port"@, p@)],
        None => Seq::empty(),
    }) + seq![("workspace"@, workspace@)]);
    out
}

/// The server address that `init` records from typed input: the trimmed
/// input, or the default catalog server where nothing was typed.
pub fn host_from_input(input: &str) -> (r: String)
    ensures
        r@ == if trim(input@).len() == 0 {
            default_host()
        } else {
            trim(input@)
        },
{
    let cs = chars_of(input);
    let n = cs.len();
    assert(cs@.subrange(0, n as int) =~= input@);
    let (a, b) = trim_range(&cs, 0, n);
    if a == b {
        text(crate::config::DEFAULT_HOST)
    } else {
        string_of_range(&cs, a, b)
    }
}

/// An argument that was given and is not blank; `None` where it must be
/// asked for.
pub fn given_argument(arg: Option<String>) -> (r: Option<String>)
    ensures
        match arg {
            Some(a) => if trim(a@).len() > 0 {
                r == Some(a)
            } else {
                r is None
            },
            None => r is None,
        },
{
    match arg {
        Some(a) => {
            let cs = chars_of(a.as_str());
            let n = cs.len();
            assert(cs@.subrange(0, n as int) =~= a@);
            let (x, y) = trim_range(&cs, 0, n);
            if x == y {
                None
            } else {
                Some(a)
            }
        },
        None => None,
    }
}

/// The `docker` checks of `doctor`: `docker --version` must succeed, then
/// `docker info`; each failure stops the diagnosis with a `Docker` error.
pub fn doctor_docker_verdict(version_ok: bool, info_ok: bool) -> (r: Result<(), MddeError>)
    ensures
        r is Ok <==> version_ok && info_ok,
        !version_ok ==> (r matches Err(MddeError::Docker(m)) && m@ == "Docker 未安装"@),
        version_ok && !info_ok ==> (r matches Err(MddeError::Docker(m)) && m@
            == "Docker 服务未运行"@),
{
    if !version_ok {
        return Err(MddeError::Docker(text("Docker 未安装")));
    }
    if !info_ok {
        return Err(MddeError::Docker(text("Docker 服务未运行")));
    }
    Ok(())
}

/// The one operation of the `env` command.
#[derive(Debug, Clone, PartialEq, Eq)]
pub enum EnvOperation {
    List,
    SetVar(String),
    DeleteVar(String),
}

/// The operation that the `env` flags ask for; exactly one must be given.
pub fn env_operation(
    setting: &LanguageSetting,
    set: Option<String>,
    ls: bool,
    del: Option<String>,
) -> (r: Result<EnvOperation, MddeError>)
    ensures
        ({
            let count = (if set is Some {
                1int
            } else {
                0
            }) + (if ls {
                1int
            } else {
                0
            }) + (if del is Some {
                1int
            } else {
                0
            });
            let lang = setting.current();
            match r {
                Ok(op) => count == 1 && (if ls {
                    op == EnvOperation::List
                } else if set is Some {
                    op == EnvOperation::SetVar(set->0)
                } else {
                    op == EnvOperation::DeleteVar(del->0)
                }),
                Err(MddeError::InvalidArgument(m)) => if count == 0 {
                    m@ == translate(lang, "specify_operation"@)
                } else {
                    count > 1 && m@ == translate(lang, "only_one_operation"@)
                },
                Err(_) => false,
            }
        }),
{
    let mut count: u8 = 0;
    if set.is_some() {
        count = count + 1;
    }
    if ls {
        count = count + 1;
    }
    if del.is_some() {
        count = count + 1;
    }
    if count == 0 {
        return Err(MddeError::InvalidArgument(text(t(setting, "specify_operation"))));
    }
    if count > 1 {
        return Err(MddeError::InvalidArgument(text(t(setting, "only_one_operation"))));
    }
    if ls {
        Ok(EnvOperation::List)
    } else {
        match set {
            Some(kv) => Ok(EnvOperation::SetVar(kv)),
            None => match del {
                Some(k) => Ok(EnvOperation::DeleteVar(k)),
                None => Ok(EnvOperation::List),
            },
        }
    }
}

/// `env --set key=value`: reads the argument and sets the variable. Answers
/// whether the key was set before.
pub fn set_env_var(setting: &LanguageSetting, vars: &mut EnvVars, key_value: &str) -> (r: Result<
    bool,
    MddeError,
>)
    requires
        old(vars).wf(),
    ensures
        final(vars).wf(),
        ({
            let (k, v) = key_value_parts(key_value@);
            match r {
                Ok(was_set) => was_set == old(vars)@.contains_key(k) && final(vars)@ == old(
                    vars,
                )@.insert(k, v),
                Err(e) => e is InvalidArgument && final(vars)@ == old(vars)@,
            }
        }),
        r is Ok <==> has_char(key_value@, '=') && valid_key(key_value_parts(key_value@).0),
{
    match parse_key_value(setting, key_value) {
        Ok((key, value)) => {
            let was_set = vars.contains_key(key.as_str());
            vars.insert(key, value);
            Ok(was_set)
        },
        Err(e) => Err(e),
    }
}

/// `env --del key`: removes the variable, handing back its old value; a key
/// that is not set is an `InvalidArgument` error.
pub fn delete_env_var(setting: &LanguageSetting, vars: &mut EnvVars, key: &str) -> (r: Result<
    String,
    MddeError,
>)
    requires
        old(vars).wf(),
    ensures
        final(vars).wf(),
        match r {
            Ok(v) => old(vars)@.contains_key(key@) && v@ == old(vars)@[key@] && final(vars)@
                == old(vars)@.remove(key@),
            Err(e) => !old(vars)@.contains_key(key@) && final(vars)@ == old(vars)@
                && (e matches MddeError::InvalidArgument(m) && m@ == fill(
                translate(setting.current(), "env_var_not_exists"@),
                seq![key],
                1,
            )),
        },
{
    match vars.remove(key) {
        Some(v) => Ok(v),
        None => {
            proof {
                assert(old(vars)@.remove(key@) =~= old(vars)@);
            }
            let args = [key];
            assert(args@ =~= seq![key]);
            Err(MddeError::InvalidArgument(tf(setting, "env_var_not_exists", &args)))
        },
    }
}

} // verus!
