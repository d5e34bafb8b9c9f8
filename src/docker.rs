use vstd::prelude::*;
use vstd::string::*;
use crate::text::{chars_of, decimal, push_char, push_decimal, trim, trim_range};

verus! {

/// A program to run with its arguments, its output either captured for
/// inspection or streamed to the terminal.
#[derive(Debug, Clone, PartialEq, Eq)]
pub struct Invocation {
    pub program: String,
    pub args: Vec<String>,
    pub streamed: bool,
}

pub open spec fn texts(v: Seq<String>) -> Seq<Seq<char>> {
    v.map_values(|s: String| s@)
}

impl View for Invocation {
    type V = (Seq<char>, Seq<Seq<char>>, bool);

    open spec fn view(&self) -> (Seq<char>, Seq<Seq<char>>, bool) {
        (self.program@, texts(self.args@), self.streamed)
    }
}

/// How a run of a program ended.
#[derive(Debug, PartialEq, Eq)]
pub enum ProcessResult {
    /// The program could not be started; the text says why.
    SpawnFailed(String),
    /// The program ran. `stdout` is `Err` with the decoding error where the
    /// output is not UTF-8; `stderr` is decoded lossily; `code` is the exit
    /// code where there is one.
    Finished { success: bool, code: Option<i32>, stdout: Result<String, String>, stderr: String },
}

/// The failures of a `docker` invocation.
#[derive(Debug, Clone, PartialEq, Eq)]
pub enum DockerError {
    CommandFailed(String),
    OutputParseFailed(String),
    DockerNotInstalled,
    ContainerNotFound(String),
    ContainerNotRunning(String),
}

/// The text under which a `DockerError` is shown.
pub open spec fn docker_error_text(e: DockerError) -> Seq<char> {
    match e {
        DockerError::CommandFailed(m) => "Docker命令执行失败: "@ + m@,
        DockerError::OutputParseFailed(m) => "输出解析失败: "@ + m@,
        DockerError::DockerNotInstalled => "Docker未安装或不在PATH中"@,
        DockerError::ContainerNotFound(n) => "容器不存在: "@ + n@,
        DockerError::ContainerNotRunning(n) => "容器未运行: "@ + n@,
    }
}

impl DockerError {
    /// The text under which this error is shown.
    pub fn message(&self) -> (r: String)
        ensures
            r@ == docker_error_text(*self),
    {
        match self {
            DockerError::CommandFailed(m) => String::from_str("Docker命令执行失败: ").concat(
                m.as_str(),
            ),
            DockerError::OutputParseFailed(m) => String::from_str("输出解析失败: ").concat(
                m.as_str(),
            ),
            DockerError::DockerNotInstalled => String::from_str("Docker未安装或不在PATH中"),
            DockerError::ContainerNotFound(n) => String::from_str("容器不存在: ").concat(
                n.as_str(),
            ),
            DockerError::ContainerNotRunning(n) => String::from_str("容器未运行: ").concat(
                n.as_str(),
            ),
        }
    }
}

/// The `docker` operations this tool performs.
#[derive(Debug, Clone, PartialEq, Eq)]
pub enum DockerOp {
    CheckInstalled,
    Version,
    Info,
    PsAll,
    PsRunning,
    ContainerExists(String),
    ContainerRunning(String),
    StartContainer(String),
    StopContainer(String),
    RestartContainer(String),
    ExecCommand { container: String, command: String },
    ExecInteractive { container: String, shell: String },
    Logs { container: String, tail: Option<u32> },
    Inspect(String),
    RmContainer { name: String, force: bool },
    BuildImage { path: String, tag: String },
    PullImage(String),
    RunContainer {
        image: String,
        name: String,
        ports: Option<String>,
        volumes: Option<String>,
        env: Option<String>,
        detach: bool,
    },
}

/// What a successful operation hands back.
#[derive(Debug, Clone, PartialEq, Eq)]
pub enum DockerReply {
    /// Text: the command's output, or a confirmation.
    Text(String),
    /// A yes/no answer.
    Flag(bool),
    /// Nothing beyond success.
    Done,
}

pub open spec fn opt_args(flag: Seq<char>, v: Option<String>) -> Seq<Seq<char>> {
    match v {
        Some(s) => seq![flag, s@],
        None => Seq::empty(),
    }
}

/// The `docker` arguments of an operation.
pub open spec fn docker_args(op: DockerOp) -> Seq<Seq<char>> {
    match op {
        DockerOp::CheckInstalled => seq!["--version"@],
        DockerOp::Version => seq!["--version"@],
        DockerOp::Info => seq!["info"@],
        DockerOp::PsAll => seq![
            "ps"@,
            "-a"@,
            "--format"@,
            "table {{.Names}}\t{{.Status}}\t{{.Image}}"@,
        ],
        DockerOp::PsRunning => seq!["ps"@, "--format"@, "table {{.Names}}\t{{.Status}}\t{{.Image}}"@],
        DockerOp::ContainerExists(n) => seq![
            "ps"@,
            "-a"@,
            "--filter"@,
            "name=^"@ + n@ + "$"@,
            "--format"@,
            "{{.Names}}"@,
        ],
        DockerOp::ContainerRunning(n) => seq![
            "ps"@,
            "--filter"@,
            "name=^"@ + n@ + "$"@,
            "--format"@,
            "{{.Names}}"@,
        ],
        DockerOp::StartContainer(n) => seq!["start"@, n@],
        DockerOp::StopContainer(n) => seq!["stop"@, n@],
        DockerOp::RestartContainer(n) => seq!["restart"@, n@],
        DockerOp::ExecCommand { container, command } => seq![
            "exec"@,
            container@,
            "sh"@,
            "-c"@,
            command@,
        ],
        DockerOp::ExecInteractive { container, shell } => seq!["exec"@, "-it"@, container@, shell@],
        DockerOp::Logs { container, tail } => match tail {
            Some(t) => seq!["logs"@, "--tail"@, decimal(t as nat), container@],
            None => seq!["logs"@, container@],
        },
        DockerOp::Inspect(c) => seq!["inspect"@, c@],
        DockerOp::RmContainer { name, force } => if force {
            seq!["rm"@, "-f"@, name@]
        } else {
            seq!["rm"@, name@]
        },
        DockerOp::BuildImage { path, tag } => seq!["build"@, "-t"@, tag@, path@],
        DockerOp::PullImage(i) => seq!["pull"@, i@],
        DockerOp::RunContainer { image, name, ports, volumes, env, detach } => (if detach {
            seq!["run"@, "-d"@]
        } else {
            seq!["run"@]
        }) + opt_args("-p"@, ports) + opt_args("-v"@, volumes) + opt_args("-e"@, env) + seq![
            "--name"@,
            name@,
            image@,
        ],
    }
}

fn text(s: &str) -> (r: String)
    ensures
        r@ == s@,
{
    String::from_str(s)
}

fn push_opt(args: &mut Vec<String>, flag: &str, v: &Option<String>)
    ensures
        texts(final(args)@) == texts(old(args)@) + opt_args(flag@, *v),
{
    let ghost before = texts(args@);
    match v {
        Some(s) => {
            args.push(text(flag));
            args.push(s.clone());
            assert(texts(args@) =~= before + seq![flag@, s@]);
        },
        None => {
            assert(texts(args@) =~= before + Seq::<Seq<char>>::empty());
        },
    }
}

fn filter_arg(name: &String) -> (r: String)
    ensures
        r@ == "name=^"@ + name@ + "$"@,
{
    String::from_str("name=^").concat(name.as_str()).concat("$")
}

impl DockerCommand {
    /// The invocation that performs an operation: `docker` with the
    /// operation's arguments; streamed for an interactive `exec`, captured
    /// otherwise.
    pub fn invocation(op: &DockerOp) -> (r: Invocation)
        ensures
            r@ == ("docker"@, docker_args(*op), op is ExecInteractive),
    {
        let mut args: Vec<String> = Vec::new();
        match op {
            DockerOp::CheckInstalled | DockerOp::Version => {
                args.push(text("--version"));
            },
            DockerOp::Info => {
                args.push(text("info"));
            },
            DockerOp::PsAll => {
                args.push(text("ps"));
                args.push(text("-a"));
                args.push(text("--format"));
                args.push(text("table {{.Names}}\t{{.Status}}\t{{.Image}}"));
            },
            DockerOp::PsRunning => {
                args.push(text("ps"));
                args.push(text("--format"));
                args.push(text("table {{.Names}}\t{{.Status}}\t{{.Image}}"));
            },
            DockerOp::ContainerExists(n) => {
                args.push(text("ps"));
                args.push(text("-a"));
                args.push(text("--filter"));
                args.push(filter_arg(n));
                args.push(text("--format"));
                args.push(text("{{.Names}}"));
            },
            DockerOp::ContainerRunning(n) => {
                args.push(text("ps"));
                args.push(text("--filter"));
                args.push(filter_arg(n));
                args.push(text("--format"));
                args.push(text("{{.Names}}"));
            },
            DockerOp::StartContainer(n) => {
                args.push(text("start"));
                args.push(n.clone());
            },
            DockerOp::StopContainer(n) => {
                args.push(text("stop"));
                args.push(n.clone());
            },
            DockerOp::RestartContainer(n) => {
                args.push(text("restart"));
                args.push(n.clone());
            },
            DockerOp::ExecCommand { container, command } => {
                args.push(text("exec"));
                args.push(container.clone());
                args.push(text("sh"));
                args.push(text("-c"));
                args.push(command.clone());
            },
            DockerOp::ExecInteractive { container, shell } => {
                args.push(text("exec"));
                args.push(text("-it"));
                args.push(container.clone());
                args.push(shell.clone());
            },
            DockerOp::Logs { container, tail } => {
                args.push(text("logs"));
                if let Some(t) = tail {
                    args.push(text("--tail"));
                    let mut s = String::new();
                    push_decimal(&mut s, *t as u64);
                    args.push(s);
                }
                args.push(container.clone());
            },
            DockerOp::Inspect(c) => {
                args.push(text("inspect"));
                args.push(c.clone());
            },
            DockerOp::RmContainer { name, force } => {
                args.push(text("rm"));
                if *force {
                    args.push(text("-f"));
                }
                args.push(name.clone());
            },
            DockerOp::BuildImage { path, tag } => {
                args.push(text("build"));
                args.push(text("-t"));
                args.push(tag.clone());
                args.push(path.clone());
            },
            DockerOp::PullImage(i) => {
                args.push(text("pull"));
                args.push(i.clone());
            },
            DockerOp::RunContainer { image, name, ports, volumes, env, detach } => {
                args.push(text("run"));
                if *detach {
                    args.push(text("-d"));
                }
                push_opt(&mut args, "-p", ports);
                push_opt(&mut args, "-v", volumes);
                push_opt(&mut args, "-e", env);
                let ghost before = texts(args@);
                args.push(text("--name"));
                args.push(name.clone());
                args.push(image.clone());
                assert(texts(args@) =~= before + seq!["--name"@, name@, image@]);
            },
        }
        let streamed = match op {
            DockerOp::ExecInteractive { .. } => true,
            _ => false,
        };
        let r = Invocation { program: text("docker"), args, streamed };
        assert(r@.1 =~= docker_args(*op));
        r
    }
}

/// The command description used in the failure text of each operation.
pub open spec fn failure_label(op: DockerOp) -> Seq<char> {
    match op {
        DockerOp::CheckInstalled => Seq::empty(),
        DockerOp::Version => "Docker版本命令执行失败"@,
        DockerOp::Info => "Docker信息命令执行失败"@,
        DockerOp::PsAll => "Docker ps命令执行失败"@,
        DockerOp::PsRunning => "Docker ps命令执行失败"@,
        DockerOp::ContainerExists(_) => "检查容器存在性失败"@,
        DockerOp::ContainerRunning(_) => "检查容器运行状态失败"@,
        DockerOp::StartContainer(_) => "启动容器失败"@,
        DockerOp::StopContainer(_) => "停止容器失败"@,
        DockerOp::RestartContainer(_) => "重启容器失败"@,
        DockerOp::ExecCommand { .. } => "执行命令失败"@,
        DockerOp::ExecInteractive { .. } => "交互式执行失败，退出代码"@,
        DockerOp::Logs { .. } => "获取容器日志失败"@,
        DockerOp::Inspect(_) => "获取容器信息失败"@,
        DockerOp::RmContainer { .. } => "删除容器失败"@,
        DockerOp::BuildImage { .. } => "构建镜像失败"@,
        DockerOp::PullImage(_) => "拉取镜像失败"@,
        DockerOp::RunContainer { .. } => "启动容器失败"@,
    }
}

/// The confirmation that an operation with no output of interest gives.
pub open spec fn confirmation(op: DockerOp) -> Seq<char> {
    match op {
        DockerOp::StartContainer(n) => "容器 "@ + n@ + " 启动成功"@,
        DockerOp::StopContainer(n) => "容器 "@ + n@ + " 停止成功"@,
        DockerOp::RestartContainer(n) => "容器 "@ + n@ + " 重启成功"@,
        DockerOp::RmContainer { name, .. } => "容器 "@ + name@ + " 删除成功"@,
        DockerOp::BuildImage { tag, .. } => "镜像 "@ + tag@ + " 构建成功"@,
        DockerOp::PullImage(i) => "镜像 "@ + i@ + " 拉取成功"@,
        DockerOp::RunContainer { name, .. } => "容器 "@ + name@ + " 启动成功"@,
        _ => Seq::empty(),
    }
}

/// The operations whose failure text is fixed; the others append what the
/// command printed on stderr (or, for an interactive `exec`, the exit code).
pub open spec fn fixed_failure(op: DockerOp) -> bool {
    op is Version || op is Info || op is PsAll || op is PsRunning || op is ContainerExists
        || op is ContainerRunning
}

/// The operations that hand back the command's output.
pub open spec fn returns_output(op: DockerOp) -> bool {
    op is Version || op is Info || op is PsAll || op is PsRunning || op is ExecCommand
        || op is Logs || op is Inspect
}

/// The operations that hand back a confirmation.
pub open spec fn returns_confirmation(op: DockerOp) -> bool {
    op is StartContainer || op is StopContainer || op is RestartContainer || op is RmContainer
        || op is BuildImage || op is PullImage || op is RunContainer
}

/// The decimal notation of a signed number.
pub open spec fn signed_decimal(n: int) -> Seq<char> {
    if n < 0 {
        seq!['-'] + decimal((-n) as nat)
    } else {
        decimal(n as nat)
    }
}

fn signed_string(n: i32) -> (r: String)
    ensures
        r@ == signed_decimal(n as int),
{
    let mut s = String::new();
    if n < 0 {
        push_char(&mut s, '-');
        let m: i64 = -(n as i64);
        push_decimal(&mut s, m as u64);
    } else {
        push_decimal(&mut s, n as u64);
    }
    assert(s@ =~= signed_decimal(n as int));
    s
}

impl DockerCommand {
    /// What an operation reports, given how its invocation ended:
    /// - a program that could not be started is `DockerNotInstalled` for the
    ///   installation check and `CommandFailed` with the reason otherwise;
    /// - the installation check answers whether `docker --version` succeeded;
    /// - on success, presence checks answer whether the trimmed output is
    ///   non-empty, output operations hand back the output (`OutputParseFailed`
    ///   where it is not UTF-8), the others a confirmation;
    /// - on failure, `CommandFailed` with the operation's fixed text, or with
    ///   the operation's text, `: ` and the stderr text (the exit code, or -1,
    ///   for an interactive `exec`).
    pub fn outcome(op: &DockerOp, result: &ProcessResult) -> (r: Result<DockerReply, DockerError>)
        ensures
            match *result {
                ProcessResult::SpawnFailed(why) => if *op is CheckInstalled {
                    r == Err::<DockerReply, DockerError>(DockerError::DockerNotInstalled)
                } else {
                    r matches Err(DockerError::CommandFailed(m)) && m@ == why@
                },
                ProcessResult::Finished { success, code, stdout, stderr } => if *op is CheckInstalled {
                    r == Ok::<DockerReply, DockerError>(DockerReply::Flag(success))
                } else if success {
                    if *op is ContainerExists || *op is ContainerRunning {
                        match stdout {
                            Ok(out) => r == Ok::<DockerReply, DockerError>(DockerReply::Flag(
                                trim(out@).len() > 0,
                            )),
                            Err(e) => r matches Err(DockerError::OutputParseFailed(m)) && m@ == e@,
                        }
                    } else if returns_output(*op) {
                        match stdout {
                            Ok(out) => r matches Ok(DockerReply::Text(t)) && t@ == out@,
                            Err(e) => r matches Err(DockerError::OutputParseFailed(m)) && m@ == e@,
                        }
                    } else if returns_confirmation(*op) {
                        r matches Ok(DockerReply::Text(t)) && t@ == confirmation(*op)
                    } else {
                        r == Ok::<DockerReply, DockerError>(DockerReply::Done)
                    }
                } else if fixed_failure(*op) {
                    r matches Err(DockerError::CommandFailed(m)) && m@ == failure_label(*op)
                } else if *op is ExecInteractive {
                    r matches Err(DockerError::CommandFailed(m)) && m@ == failure_label(*op) + ": "@
                        + signed_decimal(
                        match code {
                            Some(c) => c as int,
                            None => -1,
                        },
                    )
                } else {
                    r matches Err(DockerError::CommandFailed(m)) && m@ == failure_label(*op) + ": "@
                        + stderr@
                },
            },
    {
        match result {
            ProcessResult::SpawnFailed(why) => {
                match op {
                    DockerOp::CheckInstalled => Err(DockerError::DockerNotInstalled),
                    _ => Err(DockerError::CommandFailed(why.clone())),
                }
            },
            ProcessResult::Finished { success, code, stdout, stderr } => {
                if let DockerOp::CheckInstalled = op {
                    return Ok(DockerReply::Flag(*success));
                }
                if *success {
                    match op {
                        DockerOp::ContainerExists(_) | DockerOp::ContainerRunning(_) => {
                            match stdout {
                                Ok(out) => {
                                    let cs = chars_of(out.as_str());
                                    assert(cs@.subrange(0, cs@.len() as int) =~= out@);
                                    let (a, b) = trim_range(&cs, 0, cs.len());
                                    Ok(DockerReply::Flag(a < b))
                                },
                                Err(e) => Err(DockerError::OutputParseFailed(e.clone())),
                            }
                        },
                        DockerOp::Version | DockerOp::Info | DockerOp::PsAll | DockerOp::PsRunning
                        | DockerOp::ExecCommand { .. } | DockerOp::Logs { .. } | DockerOp::Inspect(
                            _,
                        ) => {
                            match stdout {
                                Ok(out) => Ok(DockerReply::Text(out.clone())),
                                Err(e) => Err(DockerError::OutputParseFailed(e.clone())),
                            }
                        },
                        DockerOp::StartContainer(n) => Ok(
                            DockerReply::Text(
                                text("容器 ").concat(n.as_str()).concat(" 启动成功"),
                            ),
                        ),
                        DockerOp::StopContainer(n) => Ok(
                            DockerReply::Text(
                                text("容器 ").concat(n.as_str()).concat(" 停止成功"),
                            ),
                        ),
                        DockerOp::RestartContainer(n) => Ok(
                            DockerReply::Text(
                                text("容器 ").concat(n.as_str()).concat(" 重启成功"),
                            ),
                        ),
                        DockerOp::RmContainer { name, .. } => Ok(
                            DockerReply::Text(
                                text("容器 ").concat(name.as_str()).concat(" 删除成功"),
                            ),
                        ),
                        DockerOp::BuildImage { tag, .. } => Ok(
                            DockerReply::Text(
                                text("镜像 ").concat(tag.as_str()).concat(" 构建成功"),
                            ),
                        ),
                        DockerOp::PullImage(i) => Ok(
                            DockerReply::Text(
                                text("镜像 ").concat(i.as_str()).concat(" 拉取成功"),
                            ),
                        ),
                        DockerOp::RunContainer { name, .. } => Ok(
                            DockerReply::Text(
                                text("容器 ").concat(name.as_str()).concat(" 启动成功"),
                            ),
                        ),
                        _ => Ok(DockerReply::Done),
                    }
                } else {
                    let label = match op {
                        DockerOp::CheckInstalled => text(""),
                        DockerOp::Version => text("Docker版本命令执行失败"),
                        DockerOp::Info => text("Docker信息命令执行失败"),
                        DockerOp::PsAll => text("Docker ps命令执行失败"),
                        DockerOp::PsRunning => text("Docker ps命令执行失败"),
                        DockerOp::ContainerExists(_) => text("检查容器存在性失败"),
                        DockerOp::ContainerRunning(_) => text("检查容器运行状态失败"),
                        DockerOp::StartContainer(_) => text("启动容器失败"),
                        DockerOp::StopContainer(_) => text("停止容器失败"),
                        DockerOp::RestartContainer(_) => text("重启容器失败"),
                        DockerOp::ExecCommand { .. } => text("执行命令失败"),
                        DockerOp::ExecInteractive { .. } => text("交互式执行失败，退出代码"),
                        DockerOp::Logs { .. } => text("获取容器日志失败"),
                        DockerOp::Inspect(_) => text("获取容器信息失败"),
                        DockerOp::RmContainer { .. } => text("删除容器失败"),
                        DockerOp::BuildImage { .. } => text("构建镜像失败"),
                        DockerOp::PullImage(_) => text("拉取镜像失败"),
                        DockerOp::RunContainer { .. } => text("启动容器失败"),
                    };
                    assert(label@ == failure_label(*op));
                    match op {
                        DockerOp::Version | DockerOp::Info | DockerOp::PsAll | DockerOp::PsRunning
                        | DockerOp::ContainerExists(_) | DockerOp::ContainerRunning(_) => {
                            Err(DockerError::CommandFailed(label))
                        },
                        DockerOp::ExecInteractive { .. } => {
                            let c: i32 = match code {
                                Some(c) => *c,
                                None => -1,
                            };
                            let s = signed_string(c);
                            Err(DockerError::CommandFailed(label.concat(": ").concat(s.as_str())))
                        },
                        _ => Err(DockerError::CommandFailed(label.concat(": ").concat(stderr.as_str()))),
                    }
                }
            },
        }
    }
}

/// Runs `docker` and `docker-compose` on behalf of the commands: builds
/// their invocations and reads their outcomes.
pub struct DockerCommand;

} // verus!
