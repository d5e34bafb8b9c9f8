use mdde::docker::{DockerCommand, DockerError, DockerOp, DockerReply, Invocation, ProcessResult};

fn strings(v: &[&str]) -> Vec<String> {
    v.iter().map(|s| s.to_string()).collect()
}

fn finished(success: bool, stdout: &str, stderr: &str) -> ProcessResult {
    ProcessResult::Finished {
        success,
        code: Some(if success { 0 } else { 1 }),
        stdout: Ok(stdout.to_string()),
        stderr: stderr.to_string(),
    }
}

#[test]
fn invocations() {
    assert_eq!(
        DockerCommand::invocation(&DockerOp::ContainerRunning("web".to_string())),
        Invocation {
            program: "docker".to_string(),
            args: strings(&["ps", "--filter", "name=^web$", "--format", "{{.Names}}"]),
            streamed: false,
        }
    );
    assert_eq!(
        DockerCommand::invocation(&DockerOp::Logs { container: "web".to_string(), tail: Some(100) })
            .args,
        strings(&["logs", "--tail", "100", "web"])
    );
    let run = DockerCommand::invocation(&DockerOp::RunContainer {
        image: "nginx".to_string(),
        name: "web".to_string(),
        ports: Some("80:80".to_string()),
        volumes: None,
        env: Some("A=1".to_string()),
        detach: true,
    });
    assert_eq!(run.args, strings(&["run", "-d", "-p", "80:80", "-e", "A=1", "--name", "web", "nginx"]));
    let exec = DockerCommand::invocation(&DockerOp::ExecInteractive {
        container: "web".to_string(),
        shell: "/bin/sh".to_string(),
    });
    assert!(exec.streamed);
    assert_eq!(exec.args, strings(&["exec", "-it", "web", "/bin/sh"]));
}

#[test]
fn outcomes() {
    let running = DockerOp::ContainerRunning("web".to_string());
    assert_eq!(DockerCommand::outcome(&running, &finished(true, "web\n", "")), Ok(DockerReply::Flag(true)));
    assert_eq!(DockerCommand::outcome(&running, &finished(true, " \n", "")), Ok(DockerReply::Flag(false)));
    assert_eq!(
        DockerCommand::outcome(&running, &finished(false, "", "x")),
        Err(DockerError::CommandFailed("检查容器运行状态失败".to_string()))
    );
    let start = DockerOp::StartContainer("web".to_string());
    assert_eq!(
        DockerCommand::outcome(&start, &finished(true, "", "")),
        Ok(DockerReply::Text("容器 web 启动成功".to_string()))
    );
    assert_eq!(
        DockerCommand::outcome(&start, &finished(false, "", "no such")),
        Err(DockerError::CommandFailed("启动容器失败: no such".to_string()))
    );
    assert_eq!(
        DockerCommand::outcome(&DockerOp::CheckInstalled, &ProcessResult::SpawnFailed("nf".to_string())),
        Err(DockerError::DockerNotInstalled)
    );
    assert_eq!(
        DockerCommand::outcome(&DockerOp::Version, &ProcessResult::SpawnFailed("nf".to_string())),
        Err(DockerError::CommandFailed("nf".to_string()))
    );
    assert_eq!(
        DockerCommand::outcome(
            &DockerOp::Version,
            &ProcessResult::Finished {
                success: true,
                code: Some(0),
                stdout: Err("bad utf-8".to_string()),
                stderr: String::new()
            }
        ),
        Err(DockerError::OutputParseFailed("bad utf-8".to_string()))
    );
    let shell = DockerOp::ExecInteractive { container: "w".to_string(), shell: "sh".to_string() };
    assert_eq!(
        DockerCommand::outcome(
            &shell,
            &ProcessResult::Finished { success: false, code: None, stdout: Ok(String::new()), stderr: String::new() }
        ),
        Err(DockerError::CommandFailed("交互式执行失败，退出代码: -1".to_string()))
    );
    assert_eq!(
        DockerCommand::outcome(&shell, &finished(true, "", "")),
        Ok(DockerReply::Done)
    );
}
