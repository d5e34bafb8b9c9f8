use mdde::docker::DockerError;
use mdde::error::MddeError;

#[test]
fn test_error_conversions() {
    let error = MddeError::InvalidArgument("测试错误".to_string());
    assert_eq!(error.message(), "无效的参数: 测试错误");

    let string_error: MddeError = "字符串错误".to_string().into();
    assert_eq!(string_error.message(), "未知错误: 字符串错误");
}

#[test]
fn error_texts() {
    assert_eq!(MddeError::HttpStatus(404).message(), "HTTP 状态错误: 404");
    assert_eq!(MddeError::FileOperation("x".to_string()).message(), "文件操作失败: x");
    assert_eq!(
        DockerError::ContainerNotRunning("web".to_string()).message(),
        "容器未运行: web"
    );
    assert_eq!(DockerError::DockerNotInstalled.message(), "Docker未安装或不在PATH中");
}
