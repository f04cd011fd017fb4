use phone_lookup_rs::{
    AppConfig, BatchQueryResult, CacheConfig, Config, DatabaseConfig, ErrorKind, LoggingConfig,
    PhoneNoInfo, ServerConfig,
};
use phone_lookup_rs::batch::{count_batch_results, validate_batch_request};

fn sample_info() -> PhoneNoInfo {
    PhoneNoInfo {
        province: "广东".to_string(),
        city: "深圳".to_string(),
        zip_code: "518000".to_string(),
        area_code: "0755".to_string(),
        card_type: "中国移动".to_string(),
    }
}

#[test]
fn test_config_defaults() {
    let config = Config::default();
    assert_eq!(config.app.name, "phone-lookup-rs");
    assert_eq!(config.server.host, "0.0.0.0");
    assert_eq!(config.server.port, 8080);
    assert_eq!(config.server.workers, 0);
    assert_eq!(config.database.path, "phone.dat");
    assert!(config.cache.enabled);
    assert_eq!(config.cache.max_size, 1000);
    assert_eq!(config.logging.level, "info");
    assert_eq!(config.logging.format, "pretty");
}

#[test]
fn test_config_validate_default_ok() {
    assert!(Config::default().validate().is_ok());
}

#[test]
fn test_config_validate_rejects_zero_port() {
    let mut config = Config::default();
    config.server.port = 0;
    assert_eq!(config.validate().unwrap_err(), "服务器端口不能为0");
}

#[test]
fn test_config_validate_rejects_empty_path() {
    let mut config = Config::default();
    config.database.path = String::new();
    assert_eq!(config.validate().unwrap_err(), "数据库文件路径不能为空");
}

#[test]
fn test_config_validate_rejects_zero_cache_size() {
    let mut config = Config::default();
    config.cache.max_size = 0;
    assert_eq!(config.validate().unwrap_err(), "启用缓存时，缓存大小不能为0");
    // with the cache disabled a zero size is fine
    config.cache.enabled = false;
    assert!(config.validate().is_ok());
}

#[test]
fn test_config_validate_rejects_bad_logging() {
    let mut config = Config::default();
    config.logging.level = "verbose".to_string();
    assert_eq!(config.validate().unwrap_err(), "无效的日志级别");
    config.logging.level = "debug".to_string();
    config.logging.format = "xml".to_string();
    assert_eq!(config.validate().unwrap_err(), "无效的日志格式");
}

#[test]
fn test_config_parts() {
    let config = Config {
        app: AppConfig { name: "x".to_string(), version: "1".to_string() },
        server: ServerConfig { host: "127.0.0.1".to_string(), port: 9000, workers: 4 },
        database: DatabaseConfig { path: "db.dat".to_string() },
        cache: CacheConfig { enabled: false, max_size: 0 },
        logging: LoggingConfig { level: "trace".to_string(), format: "json".to_string() },
    };
    assert!(config.validate().is_ok());
}

#[test]
fn test_batch_result_from_success() {
    let r = BatchQueryResult::from_outcome("13800138000".to_string(), 3, Ok(sample_info()));
    assert_eq!(r.phone, "13800138000");
    assert_eq!(r.index, 3);
    assert_eq!(r.result.unwrap().province, "广东");
    assert!(r.error.is_none());
}

#[test]
fn test_batch_result_from_failure() {
    let r = BatchQueryResult::from_outcome("123".to_string(), 0, Err(ErrorKind::InvalidLength));
    assert_eq!(r.phone, "123");
    assert_eq!(r.index, 0);
    assert!(r.result.is_none());
    assert_eq!(r.error.unwrap(), "手机号码长度无效，有效长度为7-11位");
}

#[test]
fn test_count_batch_results() {
    let results = vec![
        BatchQueryResult::from_outcome("13800138000".to_string(), 0, Ok(sample_info())),
        BatchQueryResult::from_outcome("123".to_string(), 1, Err(ErrorKind::InvalidLength)),
        BatchQueryResult::from_outcome("13800138001".to_string(), 2, Ok(sample_info())),
    ];
    let (success, failed) = count_batch_results(&results);
    assert_eq!(success, 2);
    assert_eq!(failed, 1);
}

#[test]
fn test_validate_batch_request() {
    let empty: Vec<String> = Vec::new();
    assert_eq!(validate_batch_request(&empty).unwrap_err(), "手机号列表不能为空");

    let too_many: Vec<String> = (0..101).map(|i| format!("138{:08}", i)).collect();
    assert_eq!(
        validate_batch_request(&too_many).unwrap_err(),
        "批量查询最多支持100个手机号"
    );

    let bad_len = vec!["13800138000".to_string(), "123".to_string()];
    assert_eq!(validate_batch_request(&bad_len).unwrap_err(), "手机号格式无效");

    let ok = vec!["13800138000".to_string(), "1380013".to_string()];
    assert!(validate_batch_request(&ok).is_ok());
}

#[test]
fn test_error_messages() {
    assert_eq!(ErrorKind::InvalidPhoneDatabase.message(), "数据库文件格式无效");
    assert_eq!(ErrorKind::NotFound.message(), "在数据库中未找到此手机号码");
    assert_eq!(ErrorKind::InvalidOpNo.message(), "无效的运营商代码");
    assert_eq!(ErrorKind::ConfigError.message(), "缓存未启用");
    assert_eq!(
        ErrorKind::Io("missing".to_string()).message(),
        "I/O 错误: missing"
    );
}
