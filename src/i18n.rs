use vstd::prelude::*;
use vstd::string::*;
use crate::text::{
    decimal, lower_of, lowercase, has_prefix, has_prefix_str, push_decimal, replace_all, replace_str, str_eq,
};

verus! {

/// The languages in which messages are shown.
#[derive(Debug, Clone, Copy, PartialEq, Eq, Structural)]
pub enum Language {
    English,
    Chinese,
}

/// The language that a locale name selects: Chinese for names that begin
/// with `zh` or `cn`, English for every other.
pub open spec fn language_of(locale: Seq<char>) -> Language {
    if has_prefix(locale, "zh"@) || has_prefix(locale, "cn"@) {
        Language::Chinese
    } else {
        Language::English
    }
}

impl Language {
    /// The language that a (lower case) locale name selects.
    pub fn from_str(s: &str) -> (r: Language)
        ensures
            r == language_of(s@),
    {
        if has_prefix_str(s, "zh") || has_prefix_str(s, "cn") {
            Language::Chinese
        } else {
            Language::English
        }
    }
}

/// The language that the locale variables select: the first of `LANG`,
/// `LC_ALL` and `LANGUAGE` that is set decides, read in lower case; with none
/// set, English.
pub open spec fn language_from_variables(
    lang: Option<Seq<char>>,
    lc_all: Option<Seq<char>>,
    language: Option<Seq<char>>,
) -> Language {
    match (lang, lc_all, language) {
        (Some(v), _, _) => language_of(lower_of(v)),
        (None, Some(v), _) => language_of(lower_of(v)),
        (None, None, Some(v)) => language_of(lower_of(v)),
        (None, None, None) => Language::English,
    }
}

pub open spec fn opt_view(o: Option<&str>) -> Option<Seq<char>> {
    match o {
        Some(s) => Some(s@),
        None => None,
    }
}

/// Picks the display language from the values of the locale variables
/// `LANG`, `LC_ALL` and `LANGUAGE` (each `None` where it is not set).
pub fn detect_language(lang: Option<&str>, lc_all: Option<&str>, language: Option<&str>) -> (r:
    Language)
    ensures
        r == language_from_variables(opt_view(lang), opt_view(lc_all), opt_view(language)),
{
    let chosen = match lang {
        Some(v) => Some(v),
        None => match lc_all {
            Some(v) => Some(v),
            None => language,
        },
    };
    match chosen {
        Some(v) => {
            let lowered = lowercase(v);
            Language::from_str(lowered.as_str())
        },
        None => Language::English,
    }
}

/// The display language of one run, threaded through the commands in place
/// of a process-wide switch. `None` until a language is chosen.
#[derive(Debug, Clone, Copy, PartialEq, Eq, Structural)]
pub struct LanguageSetting {
    pub chosen: Option<Language>,
}

impl LanguageSetting {
    /// A setting with no language chosen yet.
    pub fn new() -> (r: LanguageSetting)
        ensures
            r.chosen is None,
    {
        LanguageSetting { chosen: None }
    }

    /// The language in effect: the chosen one, else English.
    pub open spec fn current(self) -> Language {
        match self.chosen {
            Some(l) => l,
            None => Language::English,
        }
    }
}

/// Chooses the detected language, unless a language is chosen already.
pub fn init_language(setting: &mut LanguageSetting, detected: Language)
    ensures
        final(setting).chosen == (match old(setting).chosen {
            Some(l) => Some(l),
            None => Some(detected),
        }),
{
    if setting.chosen.is_none() {
        setting.chosen = Some(detected);
    }
}

/// The language in effect: the chosen one, else English.
pub fn get_language(setting: &LanguageSetting) -> (r: Language)
    ensures
        r == setting.current(),
{
    match setting.chosen {
        Some(l) => l,
        None => Language::English,
    }
}

/// Chooses a language.
pub fn set_language(setting: &mut LanguageSetting, lang: Language)
    ensures
        final(setting).chosen == Some(lang),
{
    setting.chosen = Some(lang);
}

pub open spec fn pair_view(p: Option<(&str, &str)>) -> Option<(Seq<char>, Seq<char>)> {
    match p {
        Some((en, zh)) => Some((en@, zh@)),
        None => None,
    }
}

pub open spec fn message_group_0(key: Seq<char>) -> Option<(Seq<char>, Seq<char>)> {
    if key == "current_config"@ {
        Some(("Current config: {:#?}"@, "当前配置: {:#?}"@))
    } else if key == "clean_all_resources"@ {
        Some(("Cleaning all unused Docker resources..."@, "清理所有未使用的 Docker 资源..."@))
    } else if key == "clean_completed"@ {
        Some(("✓ Cleanup completed"@, "✓ 清理完成"@))
    } else if key == "clean_images"@ {
        Some(("Cleaning unused images..."@, "清理未使用的镜像..."@))
    } else if key == "images_clean_completed"@ {
        Some(("✓ Images cleanup completed"@, "✓ 镜像清理完成"@))
    } else if key == "clean_containers"@ {
        Some(("Cleaning unused containers..."@, "清理未使用的容器..."@))
    } else if key == "containers_clean_completed"@ {
        Some(("✓ Containers cleanup completed"@, "✓ 容器清理完成"@))
    } else if key == "clean_volumes"@ {
        Some(("Cleaning unused volumes..."@, "清理未使用的卷..."@))
    } else if key == "volumes_clean_completed"@ {
        Some(("✓ Volumes cleanup completed"@, "✓ 卷清理完成"@))
    } else if key == "specify_resource_type"@ {
        Some(("Please specify the resource type to clean"@, "请指定要清理的资源类型"@))
    } else if key == "use_all_flag"@ {
        Some(("Use --all to clean all resources"@, "使用 --all 清理所有资源"@))
    } else if key == "use_images_flag"@ {
        Some(("Use --images to clean images"@, "使用 --images 清理镜像"@))
    } else if key == "use_containers_flag"@ {
        Some(("Use --containers to clean containers"@, "使用 --containers 清理容器"@))
    } else if key == "use_volumes_flag"@ {
        Some(("Use --volumes to clean volumes"@, "使用 --volumes 清理卷"@))
    } else if key == "environment_status"@ {
        Some(("Development environment status:"@, "开发环境状态:"@))
    } else if key == "init_success"@ {
        Some(("✓ mdde configuration initialized successfully"@, "✓ mdde 配置初始化成功"@))
    } else if key == "server_address"@ {
        Some(("Server address: {}"@, "服务器地址: {}"@))
    } else if key == "env_file_created"@ {
        Some(("Environment file created: .mdde/cfg.env"@, "环境变量文件已创建: .mdde/cfg.env"@))
    } else if key == "enter_server_address"@ {
        Some(("Please enter MDDE server address:"@, "请输入 MDDE 服务器地址:"@))
    } else if key == "default_address"@ {
        Some(("Default address [https://raw.githubusercontent.com/luqizheng/mdde-dockerifle/refs/heads/main]: "@, "默认地址 [https://raw.githubusercontent.com/luqizheng/mdde-dockerifle/refs/heads/main]: "@))
    } else if key == "system_diagnosis"@ {
        Some(("🔍 MDDE System Diagnosis"@, "🔍 MDDE 系统诊断"@))
    } else if key == "diagnosis_completed"@ {
        Some(("✓ Diagnosis completed"@, "✓ 诊断完成"@))
    } else if key == "check_docker"@ {
        Some(("🐳 Checking Docker..."@, "🐳 检查 Docker..."@))
    } else if key == "docker_installed"@ {
        Some(("✓ Docker is installed"@, "✓ Docker 已安装"@))
    } else if key == "docker_version"@ {
        Some(("  Version: {}"@, "  版本: {}"@))
    } else if key == "docker_not_installed"@ {
        Some(("✗ Docker is not installed or inaccessible"@, "✗ Docker 未安装或无法访问"@))
    } else {
        None
    }
}

pub open spec fn message_group_1(key: Seq<char>) -> Option<(Seq<char>, Seq<char>)> {
    if key == "install_docker"@ {
        Some(("  Please install Docker Desktop or Docker Engine"@, "  请安装 Docker Desktop 或 Docker Engine"@))
    } else if key == "docker_running"@ {
        Some(("✓ Docker service is running normally"@, "✓ Docker 服务运行正常"@))
    } else if key == "docker_not_running"@ {
        Some(("✗ Docker service is not running"@, "✗ Docker 服务未运行"@))
    } else if key == "start_docker"@ {
        Some(("  Please start Docker service"@, "  请启动 Docker 服务"@))
    } else if key == "check_docker_compose"@ {
        Some(("📦 Checking Docker Compose..."@, "📦 检查 Docker Compose..."@))
    } else if key == "docker_compose_installed"@ {
        Some(("✓ Docker Compose is installed"@, "✓ Docker Compose 已安装"@))
    } else if key == "docker_compose_not_installed"@ {
        Some(("✗ Docker Compose is not installed"@, "✗ Docker Compose 未安装"@))
    } else if key == "install_docker_compose"@ {
        Some(("  Please install Docker Compose"@, "  请安装 Docker Compose"@))
    } else if key == "check_network"@ {
        Some(("🌐 Checking network connection..."@, "🌐 检查网络连接..."@))
    } else if key == "network_ok"@ {
        Some(("✓ Network connection is normal"@, "✓ 网络连接正常"@))
    } else if key == "network_server"@ {
        Some(("  Server: {}"@, "  服务器: {}"@))
    } else if key == "server_response_error"@ {
        Some(("⚠ Server response error"@, "⚠ 服务器响应异常"@))
    } else if key == "status_code"@ {
        Some(("  Status code: {}"@, "  状态码: {}"@))
    } else if key == "network_failed"@ {
        Some(("✗ Network connection failed"@, "✗ 网络连接失败"@))
    } else if key == "error_msg"@ {
        Some(("  Error: {}"@, "  错误: {}"@))
    } else if key == "check_config_files"@ {
        Some(("📁 Checking configuration files..."@, "📁 检查配置文件..."@))
    } else if key == "docker_compose_exists"@ {
        Some(("✓ docker-compose.yml exists"@, "✓ docker-compose.yml 存在"@))
    } else if key == "docker_compose_not_exists"@ {
        Some(("docker-compose.yml file does not exist"@, "docker-compose.yml 文件不存在"@))
    } else if key == "current_dir"@ {
        Some(("  Current directory: {}"@, "  当前目录: {}"@))
    } else if key == "mdde_env_exists"@ {
        Some(("✓ .mdde/cfg.env exists"@, "✓ .mdde/cfg.env 存在"@))
    } else if key == "mdde_env_not_exists"@ {
        Some(("⚠ .mdde/cfg.env does not exist"@, "⚠ .mdde/cfg.env 不存在"@))
    } else if key == "starting_environment"@ {
        Some(("Starting development environment..."@, "启动开发环境..."@))
    } else if key == "command"@ {
        Some(("Command: {}"@, "命令: {}"@))
    } else if key == "environment_started"@ {
        Some(("✓ Development environment started successfully"@, "✓ 开发环境启动成功"@))
    } else if key == "running_in_background"@ {
        Some(("Environment is running in background"@, "环境已在后台运行"@))
    } else if key == "view_logs"@ {
        Some(("View logs: mdde logs"@, "查看日志: mdde logs"@))
    } else {
        None
    }
}

pub open spec fn message_group_2(key: Seq<char>) -> Option<(Seq<char>, Seq<char>)> {
    if key == "view_status"@ {
        Some(("View status: mdde status"@, "查看状态: mdde status"@))
    } else if key == "stopping_environment"@ {
        Some(("Stopping development environment..."@, "停止开发环境..."@))
    } else if key == "environment_stopped"@ {
        Some(("✓ Development environment stopped"@, "✓ 开发环境已停止"@))
    } else if key == "containers_volumes_removed"@ {
        Some(("Containers and volumes removed"@, "容器和卷已删除"@))
    } else if key == "restarting_environment"@ {
        Some(("Restarting development environment..."@, "重启开发环境..."@))
    } else if key == "restart_success"@ {
        Some(("✓ Development environment restarted successfully"@, "✓ 开发环境重启成功"@))
    } else if key == "environment_name"@ {
        Some(("Environment name: {}"@, "环境名称: {}"@))
    } else if key == "mdde_cli_tool"@ {
        Some(("MDDE Command Line Tool"@, "MDDE 命令行工具"@))
    } else if key == "version"@ {
        Some(("Version: {}"@, "版本: {}"@))
    } else if key == "author"@ {
        Some(("Author: {}"@, "作者: {}"@))
    } else if key == "description"@ {
        Some(("Description: {}"@, "描述: {}"@))
    } else if key == "license"@ {
        Some(("License: {}"@, "许可证: {}"@))
    } else if key == "repository"@ {
        Some(("Repository: {}"@, "仓库: {}"@))
    } else if key == "select_env_type"@ {
        Some(("Please select development environment type:"@, "请选择开发环境类型:"@))
    } else if key == "env_list_from_server"@ {
        Some(("✓ Environment list retrieved from server"@, "✓ 从服务器获取环境列表"@))
    } else if key == "env_list_failed"@ {
        Some(("⚠ Failed to retrieve environment list from server: {}"@, "⚠ 无法从服务器获取环境列表: {}"@))
    } else if key == "using_default_env_list"@ {
        Some(("Using default environment list"@, "使用默认环境列表"@))
    } else if key == "no_available_envs"@ {
        Some(("No available development environments"@, "没有可用的开发环境"@))
    } else if key == "available_options"@ {
        Some(("Available options:"@, "可用选项:"@))
    } else if key == "enter_env_type"@ {
        Some(("Please enter development environment type: "@, "请输入开发环境类型: "@))
    } else if key == "env_type_empty"@ {
        Some(("Development environment type cannot be empty"@, "开发环境类型不能为空"@))
    } else if key == "invalid_env_type"@ {
        Some(("Invalid development environment type: '{}'. Please select a valid environment type"@, "无效的开发环境类型: '{}'. 请选择有效的环境类型"@))
    } else if key == "downloaded_compose"@ {
        Some(("✓ Downloaded docker-compose.yml"@, "✓ 已下载 docker-compose.yml"@))
    } else if key == "downloaded_dockerfile"@ {
        Some(("✓ Downloaded Dockerfile"@, "✓ 已下载 Dockerfile"@))
    } else if key == "dockerfile_not_exists"@ {
        Some(("ℹ Dockerfile does not exist, using default image"@, "ℹ Dockerfile 不存在，使用默认镜像"@))
    } else if key == "dockerfile_download_failed"@ {
        Some(("⚠ Failed to download Dockerfile: {}"@, "⚠ 下载 Dockerfile 失败: {}"@))
    } else {
        None
    }
}

pub open spec fn message_group_3(key: Seq<char>) -> Option<(Seq<char>, Seq<char>)> {
    if key == "env_created_success"@ {
        Some(("✓ Development environment created successfully"@, "✓ 开发环境创建成功"@))
    } else if key == "env_name_label"@ {
        Some(("Environment name: {}"@, "环境名称: {}"@))
    } else if key == "env_type_label"@ {
        Some(("Environment type: {}"@, "环境类型: {}"@))
    } else if key == "workspace_label"@ {
        Some(("Workspace: {}"@, "工作目录: {}"@))
    } else if key == "app_port_label"@ {
        Some(("Application port: {} (host port:{} -> container port:{})"@, "应用端口: {} (主机端口:{} -> 容器端口:{})"@))
    } else if key == "config_file_label"@ {
        Some(("Configuration file: .mdde/docker-compose.yml"@, "配置文件: .mdde/docker-compose.yml"@))
    } else if key == "env_file_label"@ {
        Some(("Environment file: .mdde/cfg.env"@, "环境变量文件: .mdde/cfg.env"@))
    } else if key == "custom_image_label"@ {
        Some(("Custom image: .mdde/Dockerfile"@, "自定义镜像: .mdde/Dockerfile"@))
    } else if key == "next_steps"@ {
        Some(("Next steps:"@, "下一步操作:"@))
    } else if key == "start_env_step"@ {
        Some(("1. Start environment: mdde start"@, "1. 启动环境: mdde start"@))
    } else if key == "check_status_step"@ {
        Some(("2. Check status: mdde status"@, "2. 查看状态: mdde status"@))
    } else if key == "view_logs_step"@ {
        Some(("3. View logs: mdde logs"@, "3. 查看日志: mdde logs"@))
    } else if key == "enter_env_name"@ {
        Some(("Please enter environment name:"@, "请输入环境名称:"@))
    } else if key == "env_name_prompt"@ {
        Some(("Environment name (for container identification): "@, "环境名称 (用于标识容器): "@))
    } else if key == "env_name_empty"@ {
        Some(("Environment name cannot be empty"@, "环境名称不能为空"@))
    } else if key == "env_name_invalid_chars"@ {
        Some(("Environment name can only contain letters, numbers, hyphens and underscores"@, "环境名称只能包含字母、数字、连字符和下划线"@))
    } else if key == "port_format_error"@ {
        Some(("Application port format error: '{}'. Should be host_port:container_port format, example: 8080:80"@, "应用端口格式错误: '{}'. 应为 host_port:container_port 格式，例如: 8080:80"@))
    } else if key == "invalid_host_port"@ {
        Some(("Invalid host port: '{}'. Must be a number between 1-65535"@, "无效的主机端口: '{}'. 必须是 1-65535 之间的数字"@))
    } else if key == "invalid_container_port"@ {
        Some(("Invalid container port: '{}'. Must be a number between 1-65535"@, "无效的容器端口: '{}'. 必须是 1-65535 之间的数字"@))
    } else if key == "port_cannot_be_zero"@ {
        Some(("Port number cannot be 0"@, "端口号不能为 0"@))
    } else if key == "dotnet9_desc"@ {
        Some((".NET 9 Development Environment"@, ".NET 9 开发环境"@))
    } else if key == "dotnet8_desc"@ {
        Some((".NET 8 Development Environment"@, ".NET 8 开发环境"@))
    } else if key == "dotnet6_desc"@ {
        Some((".NET 6 Development Environment"@, ".NET 6 开发环境"@))
    } else if key == "java21_desc"@ {
        Some(("Java 21 Development Environment"@, "Java 21 开发环境"@))
    } else if key == "java18_desc"@ {
        Some(("Java 18 Development Environment"@, "Java 18 开发环境"@))
    } else if key == "java11_desc"@ {
        Some(("Java 11 Development Environment"@, "Java 11 开发环境"@))
    } else {
        None
    }
}

pub open spec fn message_group_4(key: Seq<char>) -> Option<(Seq<char>, Seq<char>)> {
    if key == "node22_desc"@ {
        Some(("Node.js 22 Development Environment"@, "Node.js 22 开发环境"@))
    } else if key == "node20_desc"@ {
        Some(("Node.js 20 Development Environment"@, "Node.js 20 开发环境"@))
    } else if key == "node18_desc"@ {
        Some(("Node.js 18 Development Environment"@, "Node.js 18 开发环境"@))
    } else if key == "python312_desc"@ {
        Some(("Python 3.12 Development Environment"@, "Python 3.12 开发环境"@))
    } else if key == "python311_desc"@ {
        Some(("Python 3.11 Development Environment"@, "Python 3.11 开发环境"@))
    } else if key == "specify_operation"@ {
        Some(("Please specify at least one operation: --set, --ls, or --del"@, "请指定至少一个操作: --set, --ls, 或 --del"@))
    } else if key == "only_one_operation"@ {
        Some(("Only one operation option can be used at a time"@, "只能同时使用一个操作选项"@))
    } else if key == "display_env_vars"@ {
        Some(("Display environment variable configuration"@, "显示环境变量配置"@))
    } else if key == "env_file_empty"@ {
        Some(("Environment variable file is empty or does not exist"@, "环境变量文件为空或不存在"@))
    } else if key == "file_location"@ {
        Some(("File location: .mdde/cfg.env"@, "文件位置: .mdde/cfg.env"@))
    } else if key == "env_config_header"@ {
        Some(("Environment variable configuration (.mdde/cfg.env):"@, "环境变量配置 (.mdde/cfg.env):"@))
    } else if key == "total_env_vars"@ {
        Some(("Total {} environment variables"@, "总共 {} 个环境变量"@))
    } else if key == "set_env_var"@ {
        Some(("Set environment variable"@, "设置环境变量"@))
    } else if key == "env_var_updated"@ {
        Some(("✓ Environment variable updated"@, "✓ 环境变量已更新"@))
    } else if key == "env_var_added"@ {
        Some(("✓ Environment variable added"@, "✓ 环境变量已添加"@))
    } else if key == "delete_env_var"@ {
        Some(("Delete environment variable"@, "删除环境变量"@))
    } else if key == "env_var_not_exists"@ {
        Some(("Environment variable '{}' does not exist"@, "环境变量 '{}' 不存在"@))
    } else if key == "env_var_deleted"@ {
        Some(("✓ Environment variable deleted"@, "✓ 环境变量已删除"@))
    } else if key == "deleted_label"@ {
        Some(("Deleted: {}={}"@, "已删除: {}={}"@))
    } else if key == "invalid_format"@ {
        Some(("Invalid format: '{}'. Should be key=value format, example: host=http://localhost:3000"@, "无效的格式: '{}'. 应为 key=value 格式，例如: host=http://localhost:3000"@))
    } else if key == "env_var_name_empty"@ {
        Some(("Environment variable name cannot be empty"@, "环境变量名不能为空"@))
    } else if key == "env_var_name_chars"@ {
        Some(("Environment variable name can only contain letters, numbers and underscores"@, "环境变量名只能包含字母、数字和下划线"@))
    } else if key == "enter_container_interactive"@ {
        Some(("Enter container {} for interactive operation, using shell: {}"@, "进入容器 {} 进行交互式操作，使用 shell: {}"@))
    } else if key == "entering_container"@ {
        Some(("Entering container {} for interactive operation..."@, "正在进入容器 {} 进行交互式操作..."@))
    } else if key == "using_shell"@ {
        Some(("Using shell: {}"@, "使用 shell: {}"@))
    } else if key == "exit_hint"@ {
        Some(("Hint: Enter 'exit' or press Ctrl+D to exit container"@, "提示：输入 'exit' 或按 Ctrl+D 退出容器"@))
    } else {
        None
    }
}

pub open spec fn message_group_5(key: Seq<char>) -> Option<(Seq<char>, Seq<char>)> {
    if key == "exited_container"@ {
        Some(("✓ Exited container"@, "✓ 已退出容器"@))
    } else if key == "enter_container_failed"@ {
        Some(("✗ Failed to enter container: {}"@, "✗ 进入容器失败: {}"@))
    } else if key == "url_must_start_with"@ {
        Some(("Server address must start with http:// or https://"@, "服务器地址必须以 http:// 或 https:// 开头"@))
    } else if key == "invalid_url_format"@ {
        Some(("Invalid server address format"@, "无效的服务器地址格式"@))
    } else if key == "container_name_not_found"@ {
        Some(("Container name not found, please run 'mdde create' to create environment first or use 'mdde env --set container_name=your_name' to set container name"@, "未找到容器名称，请先运行 'mdde create' 创建环境或使用 'mdde env --set container_name=your_name' 设置容器名"@))
    } else if key == "view_container_logs"@ {
        Some(("View container logs: {}"@, "查看容器日志: {}"@))
    } else if key == "show_all_logs"@ {
        Some(("Showing all logs for container {}..."@, "显示容器 {} 的所有日志..."@))
    } else if key == "show_last_n_logs"@ {
        Some(("Showing last {} lines of logs for container {}..."@, "显示容器 {} 的最后 {} 行日志..."@))
    } else if key == "show_last_50_logs"@ {
        Some(("Showing last 50 lines of logs for container {}..."@, "显示容器 {} 的最后 50 行日志..."@))
    } else if key == "execute_command_label"@ {
        Some(("Execute command: {}"@, "执行命令: {}"@))
    } else if key == "follow_logs_realtime"@ {
        Some(("Following logs in real-time (press Ctrl+C to stop)..."@, "实时跟踪日志 (按 Ctrl+C 停止)..."@))
    } else if key == "get_logs_failed"@ {
        Some(("Failed to get logs, container '{}' may not exist or not running"@, "获取日志失败，容器 '{}' 可能不存在或未运行"@))
    } else if key == "no_log_output"@ {
        Some(("No log output"@, "暂无日志输出"@))
    } else if key == "container_not_running_hint"@ {
        Some(("Hint: Container may not be running or has no log output"@, "提示: 容器可能未运行或没有产生日志输出"@))
    } else if key == "container_not_exists"@ {
        Some(("Container '{}' does not exist. Please check container name or start container first"@, "容器 '{}' 不存在。请检查容器名称或先启动容器"@))
    } else if key == "get_logs_error"@ {
        Some(("Failed to get logs: {}"@, "获取日志失败: {}"@))
    } else if key == "provide_command"@ {
        Some(("Please provide a command to execute"@, "请提供要执行的命令"@))
    } else if key == "execute_command_in_container"@ {
        Some(("Execute command in container {}: {}"@, "在容器 {} 中执行命令: {}"@))
    } else if key == "command_success"@ {
        Some(("✓ Command executed successfully"@, "✓ 命令执行成功"@))
    } else if key == "command_failed"@ {
        Some(("✗ Command execution failed: {}"@, "✗ 命令执行失败: {}"@))
    } else if key == "start_env_name"@ {
        Some(("Start development environment: {}"@, "启动开发环境: {}"@))
    } else if key == "start_failed"@ {
        Some(("Start failed: {}"@, "启动失败: {}"@))
    } else if key == "stop_env_name"@ {
        Some(("Stop development environment: {}"@, "停止开发环境: {}"@))
    } else if key == "mdde_cfg_env_not_exists"@ {
        Some((".mdde/cfg.env file does not exist"@, ".mdde/cfg.env 文件不存在"@))
    } else if key == "stop_failed"@ {
        Some(("Stop failed: {}"@, "停止失败: {}"@))
    } else {
        None
    }
}

/// The English and Chinese text of a message key, if the key is known.
pub open spec fn message_pair(key: Seq<char>) -> Option<(Seq<char>, Seq<char>)> {
    if message_group_0(key) is Some {
        message_group_0(key)
    } else if message_group_1(key) is Some {
        message_group_1(key)
    } else if message_group_2(key) is Some {
        message_group_2(key)
    } else if message_group_3(key) is Some {
        message_group_3(key)
    } else if message_group_4(key) is Some {
        message_group_4(key)
    } else {
        message_group_5(key)
    }
}

fn lookup_group_0(key: &str) -> (r: Option<(&'static str, &'static str)>)
    ensures
        pair_view(r) == message_group_0(key@),
{
    if str_eq(key, "current_config") {
        Some(("Current config: {:#?}", "当前配置: {:#?}"))
    } else if str_eq(key, "clean_all_resources") {
        Some(("Cleaning all unused Docker resources...", "清理所有未使用的 Docker 资源..."))
    } else if str_eq(key, "clean_completed") {
        Some(("✓ Cleanup completed", "✓ 清理完成"))
    } else if str_eq(key, "clean_images") {
        Some(("Cleaning unused images...", "清理未使用的镜像..."))
    } else if str_eq(key, "images_clean_completed") {
        Some(("✓ Images cleanup completed", "✓ 镜像清理完成"))
    } else if str_eq(key, "clean_containers") {
        Some(("Cleaning unused containers...", "清理未使用的容器..."))
    } else if str_eq(key, "containers_clean_completed") {
        Some(("✓ Containers cleanup completed", "✓ 容器清理完成"))
    } else if str_eq(key, "clean_volumes") {
        Some(("Cleaning unused volumes...", "清理未使用的卷..."))
    } else if str_eq(key, "volumes_clean_completed") {
        Some(("✓ Volumes cleanup completed", "✓ 卷清理完成"))
    } else if str_eq(key, "specify_resource_type") {
        Some(("Please specify the resource type to clean", "请指定要清理的资源类型"))
    } else if str_eq(key, "use_all_flag") {
        Some(("Use --all to clean all resources", "使用 --all 清理所有资源"))
    } else if str_eq(key, "use_images_flag") {
        Some(("Use --images to clean images", "使用 --images 清理镜像"))
    } else if str_eq(key, "use_containers_flag") {
        Some(("Use --containers to clean containers", "使用 --containers 清理容器"))
    } else if str_eq(key, "use_volumes_flag") {
        Some(("Use --volumes to clean volumes", "使用 --volumes 清理卷"))
    } else if str_eq(key, "environment_status") {
        Some(("Development environment status:", "开发环境状态:"))
    } else if str_eq(key, "init_success") {
        Some(("✓ mdde configuration initialized successfully", "✓ mdde 配置初始化成功"))
    } else if str_eq(key, "server_address") {
        Some(("Server address: {}", "服务器地址: {}"))
    } else if str_eq(key, "env_file_created") {
        Some(("Environment file created: .mdde/cfg.env", "环境变量文件已创建: .mdde/cfg.env"))
    } else if str_eq(key, "enter_server_address") {
        Some(("Please enter MDDE server address:", "请输入 MDDE 服务器地址:"))
    } else if str_eq(key, "default_address") {
        Some(("Default address [https://raw.githubusercontent.com/luqizheng/mdde-dockerifle/refs/heads/main]: ", "默认地址 [https://raw.githubusercontent.com/luqizheng/mdde-dockerifle/refs/heads/main]: "))
    } else if str_eq(key, "system_diagnosis") {
        Some(("🔍 MDDE System Diagnosis", "🔍 MDDE 系统诊断"))
    } else if str_eq(key, "diagnosis_completed") {
        Some(("✓ Diagnosis completed", "✓ 诊断完成"))
    } else if str_eq(key, "check_docker") {
        Some(("🐳 Checking Docker...", "🐳 检查 Docker..."))
    } else if str_eq(key, "docker_installed") {
        Some(("✓ Docker is installed", "✓ Docker 已安装"))
    } else if str_eq(key, "docker_version") {
        Some(("  Version: {}", "  版本: {}"))
    } else if str_eq(key, "docker_not_installed") {
        Some(("✗ Docker is not installed or inaccessible", "✗ Docker 未安装或无法访问"))
    } else {
        None
    }
}

fn lookup_group_1(key: &str) -> (r: Option<(&'static str, &'static str)>)
    ensures
        pair_view(r) == message_group_1(key@),
{
    if str_eq(key, "install_docker") {
        Some(("  Please install Docker Desktop or Docker Engine", "  请安装 Docker Desktop 或 Docker Engine"))
    } else if str_eq(key, "docker_running") {
        Some(("✓ Docker service is running normally", "✓ Docker 服务运行正常"))
    } else if str_eq(key, "docker_not_running") {
        Some(("✗ Docker service is not running", "✗ Docker 服务未运行"))
    } else if str_eq(key, "start_docker") {
        Some(("  Please start Docker service", "  请启动 Docker 服务"))
    } else if str_eq(key, "check_docker_compose") {
        Some(("📦 Checking Docker Compose...", "📦 检查 Docker Compose..."))
    } else if str_eq(key, "docker_compose_installed") {
        Some(("✓ Docker Compose is installed", "✓ Docker Compose 已安装"))
    } else if str_eq(key, "docker_compose_not_installed") {
        Some(("✗ Docker Compose is not installed", "✗ Docker Compose 未安装"))
    } else if str_eq(key, "install_docker_compose") {
        Some(("  Please install Docker Compose", "  请安装 Docker Compose"))
    } else if str_eq(key, "check_network") {
        Some(("🌐 Checking network connection...", "🌐 检查网络连接..."))
    } else if str_eq(key, "network_ok") {
        Some(("✓ Network connection is normal", "✓ 网络连接正常"))
    } else if str_eq(key, "network_server") {
        Some(("  Server: {}", "  服务器: {}"))
    } else if str_eq(key, "server_response_error") {
        Some(("⚠ Server response error", "⚠ 服务器响应异常"))
    } else if str_eq(key, "status_code") {
        Some(("  Status code: {}", "  状态码: {}"))
    } else if str_eq(key, "network_failed") {
        Some(("✗ Network connection failed", "✗ 网络连接失败"))
    } else if str_eq(key, "error_msg") {
        Some(("  Error: {}", "  错误: {}"))
    } else if str_eq(key, "check_config_files") {
        Some(("📁 Checking configuration files...", "📁 检查配置文件..."))
    } else if str_eq(key, "docker_compose_exists") {
        Some(("✓ docker-compose.yml exists", "✓ docker-compose.yml 存在"))
    } else if str_eq(key, "docker_compose_not_exists") {
        Some(("docker-compose.yml file does not exist", "docker-compose.yml 文件不存在"))
    } else if str_eq(key, "current_dir") {
        Some(("  Current directory: {}", "  当前目录: {}"))
    } else if str_eq(key, "mdde_env_exists") {
        Some(("✓ .mdde/cfg.env exists", "✓ .mdde/cfg.env 存在"))
    } else if str_eq(key, "mdde_env_not_exists") {
        Some(("⚠ .mdde/cfg.env does not exist", "⚠ .mdde/cfg.env 不存在"))
    } else if str_eq(key, "starting_environment") {
        Some(("Starting development environment...", "启动开发环境..."))
    } else if str_eq(key, "command") {
        Some(("Command: {}", "命令: {}"))
    } else if str_eq(key, "environment_started") {
        Some(("✓ Development environment started successfully", "✓ 开发环境启动成功"))
    } else if str_eq(key, "running_in_background") {
        Some(("Environment is running in background", "环境已在后台运行"))
    } else if str_eq(key, "view_logs") {
        Some(("View logs: mdde logs", "查看日志: mdde logs"))
    } else {
        None
    }
}

fn lookup_group_2(key: &str) -> (r: Option<(&'static str, &'static str)>)
    ensures
        pair_view(r) == message_group_2(key@),
{
    if str_eq(key, "view_status") {
        Some(("View status: mdde status", "查看状态: mdde status"))
    } else if str_eq(key, "stopping_environment") {
        Some(("Stopping development environment...", "停止开发环境..."))
    } else if str_eq(key, "environment_stopped") {
        Some(("✓ Development environment stopped", "✓ 开发环境已停止"))
    } else if str_eq(key, "containers_volumes_removed") {
        Some(("Containers and volumes removed", "容器和卷已删除"))
    } else if str_eq(key, "restarting_environment") {
        Some(("Restarting development environment...", "重启开发环境..."))
    } else if str_eq(key, "restart_success") {
        Some(("✓ Development environment restarted successfully", "✓ 开发环境重启成功"))
    } else if str_eq(key, "environment_name") {
        Some(("Environment name: {}", "环境名称: {}"))
    } else if str_eq(key, "mdde_cli_tool") {
        Some(("MDDE Command Line Tool", "MDDE 命令行工具"))
    } else if str_eq(key, "version") {
        Some(("Version: {}", "版本: {}"))
    } else if str_eq(key, "author") {
        Some(("Author: {}", "作者: {}"))
    } else if str_eq(key, "description") {
        Some(("Description: {}", "描述: {}"))
    } else if str_eq(key, "license") {
        Some(("License: {}", "许可证: {}"))
    } else if str_eq(key, "repository") {
        Some(("Repository: {}", "仓库: {}"))
    } else if str_eq(key, "select_env_type") {
        Some(("Please select development environment type:", "请选择开发环境类型:"))
    } else if str_eq(key, "env_list_from_server") {
        Some(("✓ Environment list retrieved from server", "✓ 从服务器获取环境列表"))
    } else if str_eq(key, "env_list_failed") {
        Some(("⚠ Failed to retrieve environment list from server: {}", "⚠ 无法从服务器获取环境列表: {}"))
    } else if str_eq(key, "using_default_env_list") {
        Some(("Using default environment list", "使用默认环境列表"))
    } else if str_eq(key, "no_available_envs") {
        Some(("No available development environments", "没有可用的开发环境"))
    } else if str_eq(key, "available_options") {
        Some(("Available options:", "可用选项:"))
    } else if str_eq(key, "enter_env_type") {
        Some(("Please enter development environment type: ", "请输入开发环境类型: "))
    } else if str_eq(key, "env_type_empty") {
        Some(("Development environment type cannot be empty", "开发环境类型不能为空"))
    } else if str_eq(key, "invalid_env_type") {
        Some(("Invalid development environment type: '{}'. Please select a valid environment type", "无效的开发环境类型: '{}'. 请选择有效的环境类型"))
    } else if str_eq(key, "downloaded_compose") {
        Some(("✓ Downloaded docker-compose.yml", "✓ 已下载 docker-compose.yml"))
    } else if str_eq(key, "downloaded_dockerfile") {
        Some(("✓ Downloaded Dockerfile", "✓ 已下载 Dockerfile"))
    } else if str_eq(key, "dockerfile_not_exists") {
        Some(("ℹ Dockerfile does not exist, using default image", "ℹ Dockerfile 不存在，使用默认镜像"))
    } else if str_eq(key, "dockerfile_download_failed") {
        Some(("⚠ Failed to download Dockerfile: {}", "⚠ 下载 Dockerfile 失败: {}"))
    } else {
        None
    }
}

fn lookup_group_3(key: &str) -> (r: Option<(&'static str, &'static str)>)
    ensures
        pair_view(r) == message_group_3(key@),
{
    if str_eq(key, "env_created_success") {
        Some(("✓ Development environment created successfully", "✓ 开发环境创建成功"))
    } else if str_eq(key, "env_name_label") {
        Some(("Environment name: {}", "环境名称: {}"))
    } else if str_eq(key, "env_type_label") {
        Some(("Environment type: {}", "环境类型: {}"))
    } else if str_eq(key, "workspace_label") {
        Some(("Workspace: {}", "工作目录: {}"))
    } else if str_eq(key, "app_port_label") {
        Some(("Application port: {} (host port:{} -> container port:{})", "应用端口: {} (主机端口:{} -> 容器端口:{})"))
    } else if str_eq(key, "config_file_label") {
        Some(("Configuration file: .mdde/docker-compose.yml", "配置文件: .mdde/docker-compose.yml"))
    } else if str_eq(key, "env_file_label") {
        Some(("Environment file: .mdde/cfg.env", "环境变量文件: .mdde/cfg.env"))
    } else if str_eq(key, "custom_image_label") {
        Some(("Custom image: .mdde/Dockerfile", "自定义镜像: .mdde/Dockerfile"))
    } else if str_eq(key, "next_steps") {
        Some(("Next steps:", "下一步操作:"))
    } else if str_eq(key, "start_env_step") {
        Some(("1. Start environment: mdde start", "1. 启动环境: mdde start"))
    } else if str_eq(key, "check_status_step") {
        Some(("2. Check status: mdde status", "2. 查看状态: mdde status"))
    } else if str_eq(key, "view_logs_step") {
        Some(("3. View logs: mdde logs", "3. 查看日志: mdde logs"))
    } else if str_eq(key, "enter_env_name") {
        Some(("Please enter environment name:", "请输入环境名称:"))
    } else if str_eq(key, "env_name_prompt") {
        Some(("Environment name (for container identification): ", "环境名称 (用于标识容器): "))
    } else if str_eq(key, "env_name_empty") {
        Some(("Environment name cannot be empty", "环境名称不能为空"))
    } else if str_eq(key, "env_name_invalid_chars") {
        Some(("Environment name can only contain letters, numbers, hyphens and underscores", "环境名称只能包含字母、数字、连字符和下划线"))
    } else if str_eq(key, "port_format_error") {
        Some(("Application port format error: '{}'. Should be host_port:container_port format, example: 8080:80", "应用端口格式错误: '{}'. 应为 host_port:container_port 格式，例如: 8080:80"))
    } else if str_eq(key, "invalid_host_port") {
        Some(("Invalid host port: '{}'. Must be a number between 1-65535", "无效的主机端口: '{}'. 必须是 1-65535 之间的数字"))
    } else if str_eq(key, "invalid_container_port") {
        Some(("Invalid container port: '{}'. Must be a number between 1-65535", "无效的容器端口: '{}'. 必须是 1-65535 之间的数字"))
    } else if str_eq(key, "port_cannot_be_zero") {
        Some(("Port number cannot be 0", "端口号不能为 0"))
    } else if str_eq(key, "dotnet9_desc") {
        Some((".NET 9 Development Environment", ".NET 9 开发环境"))
    } else if str_eq(key, "dotnet8_desc") {
        Some((".NET 8 Development Environment", ".NET 8 开发环境"))
    } else if str_eq(key, "dotnet6_desc") {
        Some((".NET 6 Development Environment", ".NET 6 开发环境"))
    } else if str_eq(key, "java21_desc") {
        Some(("Java 21 Development Environment", "Java 21 开发环境"))
    } else if str_eq(key, "java18_desc") {
        Some(("Java 18 Development Environment", "Java 18 开发环境"))
    } else if str_eq(key, "java11_desc") {
        Some(("Java 11 Development Environment", "Java 11 开发环境"))
    } else {
        None
    }
}

fn lookup_group_4(key: &str) -> (r: Option<(&'static str, &'static str)>)
    ensures
        pair_view(r) == message_group_4(key@),
{
    if str_eq(key, "node22_desc") {
        Some(("Node.js 22 Development Environment", "Node.js 22 开发环境"))
    } else if str_eq(key, "node20_desc") {
        Some(("Node.js 20 Development Environment", "Node.js 20 开发环境"))
    } else if str_eq(key, "node18_desc") {
        Some(("Node.js 18 Development Environment", "Node.js 18 开发环境"))
    } else if str_eq(key, "python312_desc") {
        Some(("Python 3.12 Development Environment", "Python 3.12 开发环境"))
    } else if str_eq(key, "python311_desc") {
        Some(("Python 3.11 Development Environment", "Python 3.11 开发环境"))
    } else if str_eq(key, "specify_operation") {
        Some(("Please specify at least one operation: --set, --ls, or --del", "请指定至少一个操作: --set, --ls, 或 --del"))
    } else if str_eq(key, "only_one_operation") {
        Some(("Only one operation option can be used at a time", "只能同时使用一个操作选项"))
    } else if str_eq(key, "display_env_vars") {
        Some(("Display environment variable configuration", "显示环境变量配置"))
    } else if str_eq(key, "env_file_empty") {
        Some(("Environment variable file is empty or does not exist", "环境变量文件为空或不存在"))
    } else if str_eq(key, "file_location") {
        Some(("File location: .mdde/cfg.env", "文件位置: .mdde/cfg.env"))
    } else if str_eq(key, "env_config_header") {
        Some(("Environment variable configuration (.mdde/cfg.env):", "环境变量配置 (.mdde/cfg.env):"))
    } else if str_eq(key, "total_env_vars") {
        Some(("Total {} environment variables", "总共 {} 个环境变量"))
    } else if str_eq(key, "set_env_var") {
        Some(("Set environment variable", "设置环境变量"))
    } else if str_eq(key, "env_var_updated") {
        Some(("✓ Environment variable updated", "✓ 环境变量已更新"))
    } else if str_eq(key, "env_var_added") {
        Some(("✓ Environment variable added", "✓ 环境变量已添加"))
    } else if str_eq(key, "delete_env_var") {
        Some(("Delete environment variable", "删除环境变量"))
    } else if str_eq(key, "env_var_not_exists") {
        Some(("Environment variable '{}' does not exist", "环境变量 '{}' 不存在"))
    } else if str_eq(key, "env_var_deleted") {
        Some(("✓ Environment variable deleted", "✓ 环境变量已删除"))
    } else if str_eq(key, "deleted_label") {
        Some(("Deleted: {}={}", "已删除: {}={}"))
    } else if str_eq(key, "invalid_format") {
        Some(("Invalid format: '{}'. Should be key=value format, example: host=http://localhost:3000", "无效的格式: '{}'. 应为 key=value 格式，例如: host=http://localhost:3000"))
    } else if str_eq(key, "env_var_name_empty") {
        Some(("Environment variable name cannot be empty", "环境变量名不能为空"))
    } else if str_eq(key, "env_var_name_chars") {
        Some(("Environment variable name can only contain letters, numbers and underscores", "环境变量名只能包含字母、数字和下划线"))
    } else if str_eq(key, "enter_container_interactive") {
        Some(("Enter container {} for interactive operation, using shell: {}", "进入容器 {} 进行交互式操作，使用 shell: {}"))
    } else if str_eq(key, "entering_container") {
        Some(("Entering container {} for interactive operation...", "正在进入容器 {} 进行交互式操作..."))
    } else if str_eq(key, "using_shell") {
        Some(("Using shell: {}", "使用 shell: {}"))
    } else if str_eq(key, "exit_hint") {
        Some(("Hint: Enter 'exit' or press Ctrl+D to exit container", "提示：输入 'exit' 或按 Ctrl+D 退出容器"))
    } else {
        None
    }
}

fn lookup_group_5(key: &str) -> (r: Option<(&'static str, &'static str)>)
    ensures
        pair_view(r) == message_group_5(key@),
{
    if str_eq(key, "exited_container") {
        Some(("✓ Exited container", "✓ 已退出容器"))
    } else if str_eq(key, "enter_container_failed") {
        Some(("✗ Failed to enter container: {}", "✗ 进入容器失败: {}"))
    } else if str_eq(key, "url_must_start_with") {
        Some(("Server address must start with http:// or https://", "服务器地址必须以 http:// 或 https:// 开头"))
    } else if str_eq(key, "invalid_url_format") {
        Some(("Invalid server address format", "无效的服务器地址格式"))
    } else if str_eq(key, "container_name_not_found") {
        Some(("Container name not found, please run 'mdde create' to create environment first or use 'mdde env --set container_name=your_name' to set container name", "未找到容器名称，请先运行 'mdde create' 创建环境或使用 'mdde env --set container_name=your_name' 设置容器名"))
    } else if str_eq(key, "view_container_logs") {
        Some(("View container logs: {}", "查看容器日志: {}"))
    } else if str_eq(key, "show_all_logs") {
        Some(("Showing all logs for container {}...", "显示容器 {} 的所有日志..."))
    } else if str_eq(key, "show_last_n_logs") {
        Some(("Showing last {} lines of logs for container {}...", "显示容器 {} 的最后 {} 行日志..."))
    } else if str_eq(key, "show_last_50_logs") {
        Some(("Showing last 50 lines of logs for container {}...", "显示容器 {} 的最后 50 行日志..."))
    } else if str_eq(key, "execute_command_label") {
        Some(("Execute command: {}", "执行命令: {}"))
    } else if str_eq(key, "follow_logs_realtime") {
        Some(("Following logs in real-time (press Ctrl+C to stop)...", "实时跟踪日志 (按 Ctrl+C 停止)..."))
    } else if str_eq(key, "get_logs_failed") {
        Some(("Failed to get logs, container '{}' may not exist or not running", "获取日志失败，容器 '{}' 可能不存在或未运行"))
    } else if str_eq(key, "no_log_output") {
        Some(("No log output", "暂无日志输出"))
    } else if str_eq(key, "container_not_running_hint") {
        Some(("Hint: Container may not be running or has no log output", "提示: 容器可能未运行或没有产生日志输出"))
    } else if str_eq(key, "container_not_exists") {
        Some(("Container '{}' does not exist. Please check container name or start container first", "容器 '{}' 不存在。请检查容器名称或先启动容器"))
    } else if str_eq(key, "get_logs_error") {
        Some(("Failed to get logs: {}", "获取日志失败: {}"))
    } else if str_eq(key, "provide_command") {
        Some(("Please provide a command to execute", "请提供要执行的命令"))
    } else if str_eq(key, "execute_command_in_container") {
        Some(("Execute command in container {}: {}", "在容器 {} 中执行命令: {}"))
    } else if str_eq(key, "command_success") {
        Some(("✓ Command executed successfully", "✓ 命令执行成功"))
    } else if str_eq(key, "command_failed") {
        Some(("✗ Command execution failed: {}", "✗ 命令执行失败: {}"))
    } else if str_eq(key, "start_env_name") {
        Some(("Start development environment: {}", "启动开发环境: {}"))
    } else if str_eq(key, "start_failed") {
        Some(("Start failed: {}", "启动失败: {}"))
    } else if str_eq(key, "stop_env_name") {
        Some(("Stop development environment: {}", "停止开发环境: {}"))
    } else if str_eq(key, "mdde_cfg_env_not_exists") {
        Some((".mdde/cfg.env file does not exist", ".mdde/cfg.env 文件不存在"))
    } else if str_eq(key, "stop_failed") {
        Some(("Stop failed: {}", "停止失败: {}"))
    } else {
        None
    }
}

/// The English and Chinese text of a message key, if the key is known.
pub fn lookup_message(key: &str) -> (r: Option<(&'static str, &'static str)>)
    ensures
        pair_view(r) == message_pair(key@),
{
    let r = lookup_group_0(key);
    if r.is_some() {
        return r;
    }
    let r = lookup_group_1(key);
    if r.is_some() {
        return r;
    }
    let r = lookup_group_2(key);
    if r.is_some() {
        return r;
    }
    let r = lookup_group_3(key);
    if r.is_some() {
        return r;
    }
    let r = lookup_group_4(key);
    if r.is_some() {
        return r;
    }
    lookup_group_5(key)
}

/// The text of a message in a language; an unknown key stands for itself.
pub open spec fn translate(lang: Language, key: Seq<char>) -> Seq<char> {
    match message_pair(key) {
        Some((en, zh)) => match lang {
            Language::English => en,
            Language::Chinese => zh,
        },
        None => key,
    }
}

/// The message under `key` in the language in effect; the key itself where
/// no message has it.
pub fn t<'a>(setting: &LanguageSetting, key: &'a str) -> (r: &'a str)
    ensures
        r@ == translate(setting.current(), key@),
{
    match lookup_message(key) {
        Some((en, zh)) => match get_language(setting) {
            Language::English => en,
            Language::Chinese => zh,
        },
        None => key,
    }
}

/// The placeholder that the argument at `i` fills: `{}` for the first,
/// `{i}` for the others.
pub open spec fn placeholder(i: nat) -> Seq<char> {
    if i == 0 {
        "{}"@
    } else {
        "{"@ + decimal(i) + "}"@
    }
}

/// A template with its placeholders filled by the first `n` arguments, in
/// order: each argument replaces every occurrence of its placeholder left at
/// its turn.
pub open spec fn fill(template: Seq<char>, args: Seq<&str>, n: nat) -> Seq<char>
    decreases n,
{
    if n == 0 {
        template
    } else {
        replace_all(fill(template, args, (n - 1) as nat), placeholder((n - 1) as nat), args[n - 1]@)
    }
}

fn placeholder_string(i: usize) -> (r: String)
    ensures
        r@ == placeholder(i as nat),
        r@.len() > 0,
{
    proof {
        reveal_strlit("{}");
        reveal_strlit("{");
        reveal_strlit("}");
    }
    if i == 0 {
        String::from_str("{}")
    } else {
        let mut p = String::from_str("{");
        push_decimal(&mut p, i as u64);
        p.append("}");
        p
    }
}

/// The message under `key` in the language in effect, with its placeholders
/// filled by `args`.
pub fn tf(setting: &LanguageSetting, key: &str, args: &[&str]) -> (r: String)
    ensures
        r@ == fill(translate(setting.current(), key@), args@, args@.len()),
{
    let template = t(setting, key);
    let mut result = String::from_str(template);
    let mut i: usize = 0;
    while i < args.len()
        invariant
            i <= args@.len(),
            result@ == fill(template@, args@, i as nat),
        decreases args@.len() - i,
    {
        let p = placeholder_string(i);
        result = replace_str(result.as_str(), p.as_str(), args[i]);
        i = i + 1;
    }
    result
}

} // verus!
