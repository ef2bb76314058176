use autologinguet::error::{
    classify_network_error, generate_login_error_message, generate_network_status_error_message,
    generate_user_friendly_message, AppError, FlowError, NetworkError,
};

#[test]
fn transport_errors_classify_by_their_text() {
    assert!(matches!(
        classify_network_error("connection timed out", false),
        NetworkError::ConnectionTimeout(m) if m == "请求超时"
    ));
    assert!(matches!(
        classify_network_error("dns lookup failed", false),
        NetworkError::DnsError(m) if m == "DNS解析失败: dns lookup failed"
    ));
    assert!(matches!(
        classify_network_error("bad TLS certificate", false),
        NetworkError::TlsError(m) if m == "TLS错误: bad TLS certificate"
    ));
    assert!(matches!(
        classify_network_error("refused", true),
        NetworkError::Other(m) if m == "连接失败: refused"
    ));
    assert!(matches!(
        classify_network_error("500 internal", false),
        NetworkError::HttpError(m) if m == "网络请求失败: 500 internal"
    ));
}

#[test]
fn credential_failures_are_reported_as_such() {
    let e = AppError::NetworkError {
        source: NetworkError::Other(String::from("reply: ldap auth error!")),
    };
    assert_eq!(generate_user_friendly_message(&e), "登录请求失败: 账号或密码错误");
    let e2 = AppError::NetworkError {
        source: NetworkError::HttpError(String::from("reply: Msg=01")),
    };
    assert_eq!(generate_user_friendly_message(&e2), "登录请求失败: 账号或密码错误");
}

#[test]
fn other_transport_failures_keep_their_text() {
    let e = AppError::NetworkError { source: NetworkError::Other(String::from("oops")) };
    assert_eq!(generate_user_friendly_message(&e), "登录请求失败: oops");
    let t = AppError::NetworkError {
        source: NetworkError::ConnectionTimeout(String::from("10s")),
    };
    assert_eq!(generate_user_friendly_message(&t), "连接超时: 10s");
}

#[test]
fn decryption_failure_shows_only_the_sanitised_text() {
    let e = AppError::PasswordDecryptionError {
        internal_msg: String::from("bad padding in block 3"),
        user_msg: String::from("密码解密失败，请重新输入密码"),
    };
    assert_eq!(generate_user_friendly_message(&e), "密码解密失败，请重新输入密码");
    assert_eq!(e.to_message(), "密码解密失败，请重新输入密码");
}

#[test]
fn login_error_messages_are_short() {
    let t = AppError::NetworkError {
        source: NetworkError::ConnectionTimeout(String::from("x")),
    };
    assert_eq!(generate_login_error_message(&t), "连接超时");
    let d = AppError::NetworkError { source: NetworkError::DnsError(String::from("x")) };
    assert_eq!(generate_login_error_message(&d), "DNS解析失败");
    let c = AppError::ConfigError(String::from("broken"));
    assert_eq!(generate_login_error_message(&c), "登录过程出错: 配置错误: broken");
}

#[test]
fn status_check_error_messages_name_the_check() {
    let t = AppError::NetworkError {
        source: NetworkError::ConnectionTimeout(String::from("x")),
    };
    assert_eq!(generate_network_status_error_message(&t), "网络状态检查超时");
    let d = AppError::NetworkError { source: NetworkError::DnsError(String::from("x")) };
    assert_eq!(generate_network_status_error_message(&d), "DNS解析失败，无法解析校园网地址");
    let o = AppError::SystemError(String::from("disk"));
    assert_eq!(
        generate_network_status_error_message(&o),
        "网络状态检查失败: 系统错误: disk"
    );
}

#[test]
fn error_texts_name_their_kind() {
    assert_eq!(
        AppError::ConfigError(String::from("x")).to_message(),
        "配置错误: x"
    );
    assert_eq!(
        AppError::NetworkError { source: NetworkError::HttpError(String::from("x")) }.to_message(),
        "网络错误: HTTP错误: x"
    );
    assert_eq!(FlowError::ParseError(String::from("y")).to_message(), "解析错误: y");
    assert_eq!(FlowError::LoginFailed(String::from("z")).to_message(), "登录失败: z");
}
