use vstd::prelude::*;
use vstd::string::*;
use crate::text::{decimal, push_decimal};

verus! {

/// The errors that the library reports.
#[derive(Debug, Clone, PartialEq, Eq)]
pub enum MddeError {
    /// A configuration problem.
    Config(String),
    /// The HTTP request could not be carried out.
    Http(String),
    /// The server answered with a status outside 2xx.
    HttpStatus(u16),
    /// A file system operation failed.
    Io(String),
    /// Text could not be read or written as JSON.
    Json(String),
    /// Text could not be read or written as YAML.
    Yaml(String),
    /// A `docker` or `docker-compose` invocation failed.
    Docker(String),
    /// No environment (or container name) is known.
    EnvironmentNotFound(String),
    /// An argument was rejected.
    InvalidArgument(String),
    /// A port mapping is not `host:container` with both sides in 1..=65535.
    InvalidPortFormat(String),
    /// Interactive input was rejected.
    InvalidInput(String),
    /// The target container is not running.
    ContainerNotRunning(String),
    /// A network problem.
    Network(String),
    /// A file that the command needs is missing or unusable.
    FileOperation(String),
    /// Anything else.
    Unknown(String),
}

/// The text under which an error is shown to the user.
pub open spec fn error_text(e: MddeError) -> Seq<char> {
    match e {
        MddeError::Config(m) => "配置错误: "@ + m@,
        MddeError::Http(m) => "HTTP 请求失败: "@ + m@,
        MddeError::HttpStatus(code) => "HTTP 状态错误: "@ + decimal(code as nat),
        MddeError::Io(m) => "IO 错误: "@ + m@,
        MddeError::Json(m) => "JSON 序列化错误: "@ + m@,
        MddeError::Yaml(m) => "YAML 序列化错误: "@ + m@,
        MddeError::Docker(m) => "Docker 操作失败: "@ + m@,
        MddeError::EnvironmentNotFound(m) => "环境不存在: "@ + m@,
        MddeError::InvalidArgument(m) => "无效的参数: "@ + m@,
        MddeError::InvalidPortFormat(m) => "无效的端口格式: "@ + m@,
        MddeError::InvalidInput(m) => "无效的输入: "@ + m@,
        MddeError::ContainerNotRunning(m) => "容器未运行: "@ + m@,
        MddeError::Network(m) => "网络错误: "@ + m@,
        MddeError::FileOperation(m) => "文件操作失败: "@ + m@,
        MddeError::Unknown(m) => "未知错误: "@ + m@,
    }
}

impl MddeError {
    /// The text under which this error is shown to the user.
    pub fn message(&self) -> (r: String)
        ensures
            r@ == error_text(*self),
    {
        match self {
            MddeError::Config(m) => String::from_str("配置错误: ").concat(m.as_str()),
            MddeError::Http(m) => String::from_str("HTTP 请求失败: ").concat(m.as_str()),
            MddeError::HttpStatus(code) => {
                let mut out = String::from_str("HTTP 状态错误: ");
                push_decimal(&mut out, *code as u64);
                out
            },
            MddeError::Io(m) => String::from_str("IO 错误: ").concat(m.as_str()),
            MddeError::Json(m) => String::from_str("JSON 序列化错误: ").concat(m.as_str()),
            MddeError::Yaml(m) => String::from_str("YAML 序列化错误: ").concat(m.as_str()),
            MddeError::Docker(m) => String::from_str("Docker 操作失败: ").concat(m.as_str()),
            MddeError::EnvironmentNotFound(m) => String::from_str("环境不存在: ").concat(m.as_str()),
            MddeError::InvalidArgument(m) => String::from_str("无效的参数: ").concat(m.as_str()),
            MddeError::InvalidPortFormat(m) => String::from_str("无效的端口格式: ").concat(m.as_str()),
            MddeError::InvalidInput(m) => String::from_str("无效的输入: ").concat(m.as_str()),
            MddeError::ContainerNotRunning(m) => String::from_str("容器未运行: ").concat(m.as_str()),
            MddeError::Network(m) => String::from_str("网络错误: ").concat(m.as_str()),
            MddeError::FileOperation(m) => String::from_str("文件操作失败: ").concat(m.as_str()),
            MddeError::Unknown(m) => String::from_str("未知错误: ").concat(m.as_str()),
        }
    }
}

impl From<String> for MddeError {
    fn from(err: String) -> (r: MddeError)
        ensures
            r == MddeError::Unknown(err),
    {
        MddeError::Unknown(err)
    }
}

impl vstd::std_specs::convert::FromSpecImpl<String> for MddeError {
    open spec fn obeys_from_spec() -> bool {
        true
    }

    open spec fn from_spec(err: String) -> MddeError {
        MddeError::Unknown(err)
    }
}

} // verus!
