use news_mcp::cli::test_cmd::test_cache;
use news_mcp::cli::{create_config_from_cmd, test_command, ServeCommand, TestCommand, TestKind};

#[test]
fn test_types_choose_the_self_tests() {
    let run = |t: &str| test_command(&TestCommand { test_type: t.to_string() });
    assert_eq!(run("cache").unwrap(), vec![TestKind::Cache]);
    assert_eq!(run("poll").unwrap(), vec![TestKind::Poll]);
    assert_eq!(run("tools").unwrap(), vec![TestKind::Tools]);
    assert_eq!(run("all").unwrap(), vec![TestKind::Cache, TestKind::Poll, TestKind::Tools]);
    let err = run("network").unwrap_err();
    assert_eq!(err.to_string(), "[CONFIG_ERROR] test_type: Invalid test type: network");
}

#[test]
fn serve_options_become_the_configuration() {
    let cmd = ServeCommand {
        mode: "http".to_string(),
        host: "0.0.0.0".to_string(),
        port: 9000,
        poll: false,
        poll_interval: 600,
        max_articles: 25,
    };
    let config = create_config_from_cmd(&cmd);
    assert_eq!(config.server.name, "news-mcp");
    assert_eq!(config.server.version, "0.1.0");
    assert_eq!(config.server.host, "0.0.0.0");
    assert_eq!(config.server.port, 9000);
    assert_eq!(config.server.transport_mode, "http");
    assert_eq!(config.poller.interval_secs, 600);
    assert!(!config.poller.enabled);
    assert_eq!(config.cache.max_articles_per_category, 25);
    assert_eq!(config.logging.level, "info");
    assert!(config.logging.enable_console);
}

#[test]
fn cache_self_test_passes() {
    let report = test_cache().unwrap();
    assert_eq!(report.retrieved, 2);
    assert_eq!(report.search_results, 2);
    assert_eq!(report.categories, 34);
}
