use news_mcp::cache::{NewsArticle, NewsCache, NewsCategory};
use news_mcp::config::PollerConfig;
use news_mcp::poller::{apply_poll_results, NewsPoller, PollerAction, WaitStep};

fn art(title: &str, category: NewsCategory) -> NewsArticle {
    NewsArticle::new(title.to_string(), None, format!("https://x/{}", title), "S".to_string(), category, None, None)
}

#[test]
fn enabled_poller_polls_until_stopped() {
    let mut p = NewsPoller::new(PollerConfig { interval_secs: 60, enabled: true });
    assert!(!p.is_running());
    assert!(!p.is_initial_poll_completed());
    assert_eq!(p.interval_secs(), 60);
    assert_eq!(p.start(), PollerAction::Poll);
    assert!(p.is_running());
    p.mark_initial_poll_completed();
    assert!(p.is_initial_poll_completed());
    assert_eq!(p.on_tick(), PollerAction::Poll);
    p.stop();
    assert!(!p.is_running());
    assert_eq!(p.on_tick(), PollerAction::Finish);
    assert!(p.is_initial_poll_completed());
}

#[test]
fn disabled_poller_never_runs() {
    let mut p = NewsPoller::new(PollerConfig { interval_secs: 60, enabled: false });
    assert_eq!(p.start(), PollerAction::Disabled);
    assert!(!p.is_running());
    assert_eq!(p.on_tick(), PollerAction::Finish);
}

#[test]
fn waiting_for_the_first_poll() {
    let mut p = NewsPoller::new(PollerConfig { interval_secs: 60, enabled: true });
    p.start();
    assert_eq!(p.initial_wait_step(0, 0, 60), WaitStep::Sleep);
    assert_eq!(p.initial_wait_step(60, 0, 60), WaitStep::Sleep);
    assert_eq!(p.initial_wait_step(60, 1, 60), WaitStep::TimedOut);
    assert_eq!(p.initial_wait_step(61, 0, 60), WaitStep::TimedOut);
    p.mark_initial_poll_completed();
    assert_eq!(p.initial_wait_step(1000, 0, 60), WaitStep::Ready);
}

#[test]
fn poll_results_update_only_fetched_categories() {
    let mut cache = NewsCache::new(10);
    cache.set_category_news_at(NewsCategory::Science, vec![art("kept", NewsCategory::Science)], at(1));
    let results = vec![
        (NewsCategory::Technology, vec![art("t1", NewsCategory::Technology), art("t2", NewsCategory::Technology)]),
        (NewsCategory::Science, vec![]),
        (NewsCategory::HackerNews, vec![art("hn", NewsCategory::HackerNews)]),
    ];
    let summary = apply_poll_results(&mut cache, results, at(100));
    assert_eq!(summary.total_articles, 3);
    assert_eq!(summary.successful_categories, 2);
    assert_eq!(cache.get_category_news(&NewsCategory::Technology).unwrap().len(), 2);
    assert_eq!(cache.get_last_updated(&NewsCategory::Technology).unwrap(), Some(at(100)));
    let science = cache.get_category_news(&NewsCategory::Science).unwrap();
    assert_eq!(science.len(), 1);
    assert_eq!(science[0].title, "kept");
    assert_eq!(cache.get_last_updated(&NewsCategory::Science).unwrap(), Some(at(1)));
    assert_eq!(cache.get_category_news(&NewsCategory::HackerNews).unwrap()[0].title, "hn");
}

#[test]
fn a_run_of_steps_keeps_the_first_poll_completed() {
    let mut p = NewsPoller::new(PollerConfig { interval_secs: 5, enabled: true });
    p.start();
    p.mark_initial_poll_completed();
    p.stop();
    p.start();
    p.stop();
    assert!(p.is_initial_poll_completed());
    assert_eq!(p.on_tick(), PollerAction::Finish);
    assert_eq!(p.interval_secs(), 5);
}

fn at(secs: i64) -> news_mcp::time::Timestamp {
    news_mcp::time::Timestamp { secs, nanos: 0 }
}
