use device_gateway::config::{
    heartbeat_interval_of, log_init, redis_url, Config, HttpServiceConfig, LogConfig,
    PerceptionServiceConfig, RedisConfig, DEFAULT_HEARTBEAT_INTERVAL,
};
use device_gateway::device::ReadWriteErrorCode;
use device_gateway::polling::{readline_timeout, tries_for, write_line, Waited};

fn some(text: &str) -> Option<String> {
    Some(text.to_string())
}

#[test]
fn an_absent_heartbeat_is_two_minutes() {
    assert_eq!(DEFAULT_HEARTBEAT_INTERVAL, 120);
    assert_eq!(heartbeat_interval_of(None), 120);
    assert_eq!(heartbeat_interval_of(Some(-1)), 120);
    assert_eq!(heartbeat_interval_of(Some(i64::MIN)), 120);
    assert_eq!(heartbeat_interval_of(Some(0)), 0);
    assert_eq!(heartbeat_interval_of(Some(3)), 3);
    assert_eq!(heartbeat_interval_of(Some(i64::MAX)), i64::MAX as u64);
    let cfg = PerceptionServiceConfig { ip: some("0.0.0.0"), port: some("8900"), heartbeat_interval: None };
    assert_eq!(cfg.heartbeat_secs(), 120);
    assert_eq!(cfg.listen_addr(), some("0.0.0.0:8900"));
    let cfg = PerceptionServiceConfig { ip: None, port: some("8900"), heartbeat_interval: Some(0) };
    assert_eq!(cfg.heartbeat_secs(), 0);
    assert_eq!(cfg.listen_addr(), None);
}

#[test]
fn absent_settings_have_defaults() {
    let quiet = LogConfig { level: some("none"), outfile: some("x.log"), format: None };
    assert!(log_init(quiet).is_none());
    let plain = log_init(LogConfig { level: None, outfile: None, format: None }).unwrap();
    assert_eq!(plain.level, "trace");
    assert_eq!(plain.format, "fileline");
    assert_eq!(plain.outfile, None);
    let set = log_init(LogConfig { level: some("info"), outfile: some("temp.log"), format: some("json") }).unwrap();
    assert_eq!(set.level, "info");
    assert_eq!(set.format, "json");
    assert_eq!(set.outfile, some("temp.log"));
    let http = HttpServiceConfig { ip: None, port: None };
    assert_eq!(http.bind_addr(), "0.0.0.0:8000");
    let http = HttpServiceConfig { ip: some("10.0.0.1"), port: None };
    assert_eq!(http.bind_addr(), "10.0.0.1:8000");
    let redis = RedisConfig { ip: some("127.0.0.1"), port: some("6379") };
    assert_eq!(redis.url(), some("redis://127.0.0.1:6379/"));
    assert_eq!(RedisConfig { ip: None, port: some("6379") }.url(), None);
    assert_eq!(redis_url("h", "1"), "redis://h:1/");
    let config = Config {
        log: LogConfig { level: None, outfile: None, format: None },
        perception_service: PerceptionServiceConfig { ip: None, port: None, heartbeat_interval: Some(7) },
        redis,
        http_service: http,
    };
    assert_eq!(config.clone().perception_service.heartbeat_secs(), 7);
}

#[test]
fn a_line_is_closed_once() {
    assert_eq!(write_line("abc"), b"abc\n".to_vec());
    assert_eq!(write_line("abc\n"), b"abc\n".to_vec());
    assert_eq!(write_line("\n"), b"\n".to_vec());
    assert_eq!(write_line(" a "), b" a \n".to_vec());
}

#[test]
fn waiting_for_an_answer_passes_heartbeats_over() {
    assert_eq!(tries_for(5), 10);
    assert_eq!(tries_for(0), 0);
    assert_eq!(tries_for(usize::MAX), usize::MAX);
    assert!(matches!(readline_timeout(Ok("{\"type\":\"ping\",\"sn\":\"1\"}".to_string())), Waited::Pong));
    match readline_timeout(Ok("{\"type\":\"getack\"}".to_string())) {
        Waited::Answer(msg) => assert_eq!(msg, "{\"type\":\"getack\"}"),
        _ => assert!(false),
    }
    assert!(matches!(readline_timeout(Ok("{\"sn\":\"1\"}".to_string())), Waited::Skip));
    assert!(matches!(readline_timeout(Ok("junk".to_string())), Waited::Skip));
    match readline_timeout(Err(ReadWriteErrorCode::CONNECTIONBROKEN)) {
        Waited::Failed(e) => assert_eq!(e, ReadWriteErrorCode::CONNECTIONBROKEN),
        _ => assert!(false),
    }
}
