use portfolio_backend::admin::{
    block_confirmation, block_filter, filter_blocked_ips, page_of, page_window, security_stats, total_pages,
    BlockFilter,
};
use portfolio_backend::errors::AppError;
use portfolio_backend::limiter::LimiterConfig;
use portfolio_backend::store::CounterStore;

const T0: u64 = 1_700_000_000;

#[test]
fn filters_and_pages() {
    assert_eq!(block_filter(Some("active")), BlockFilter::Active);
    assert_eq!(block_filter(Some("expired")), BlockFilter::Expired);
    assert_eq!(block_filter(Some("whatever")), BlockFilter::All);
    assert_eq!(block_filter(None), BlockFilter::All);
    let w = page_window(None, None);
    assert_eq!((w.page, w.limit, w.offset), (1, 20, 0));
    let w = page_window(Some(0), Some(500));
    assert_eq!((w.page, w.limit, w.offset), (1, 100, 0));
    let w = page_window(Some(3), Some(10));
    assert_eq!(w.offset, 20);
    assert_eq!(total_pages(0, 20), 0);
    assert_eq!(total_pages(20, 20), 1);
    assert_eq!(total_pages(21, 20), 2);
}

#[test]
fn block_records_report() {
    let c = LimiterConfig::login_defaults();
    let mut s = CounterStore::new();
    s.block_ip(&c, "1.1.1.1", "a", true, T0).unwrap();
    s.block_ip(&c, "2.2.2.2", "b", false, T0).unwrap();
    s.block_ip(&c, "3.3.3.3", "c", false, T0 + 100_000).unwrap();
    let all = s.blocks.iter().map(|b| b.duplicate()).collect::<Vec<_>>();
    let later = T0 + 100_000;
    let active = filter_blocked_ips(&all, BlockFilter::Active, later);
    assert_eq!(active.iter().map(|b| b.ip.as_str()).collect::<Vec<_>>(), vec!["1.1.1.1", "3.3.3.3"]);
    let expired = filter_blocked_ips(&all, BlockFilter::Expired, later);
    assert_eq!(expired.len(), 1);
    assert_eq!(expired[0].ip, "2.2.2.2");
    let stats = security_stats(&all, later);
    assert_eq!(stats.total_blocked_ips, 3);
    assert_eq!(stats.active_blocks, 2);
    assert_eq!(stats.permanent_blocks, 1);
    assert_eq!(stats.temporary_blocks, 2);
    assert_eq!(stats.recent_blocks_24h, 1);
    let page = page_of(&all, page_window(Some(2), Some(2)));
    assert_eq!(page.len(), 1);
    assert_eq!(page[0].ip, "3.3.3.3");
    assert!(page_of(&all, page_window(Some(5), Some(2))).is_empty());
}

#[test]
fn confirmation_text() {
    assert_eq!(block_confirmation("1.2.3.4", true), "IP 1.2.3.4 has been permanently blocked");
    assert_eq!(block_confirmation("1.2.3.4", false), "IP 1.2.3.4 has been blocked");
}

#[test]
fn error_responses_hide_internals() {
    let (status, code, message) = AppError::Internal("db password leaked".to_string()).response_parts();
    assert_eq!((status, code.as_str(), message.as_str()), (500, "INTERNAL_ERROR", "Internal server error"));
    let (status, code, message) = AppError::Unauthorized("Invalid credentials".to_string()).response_parts();
    assert_eq!((status, code.as_str(), message.as_str()), (401, "UNAUTHORIZED", "Invalid credentials"));
    let e = AppError::TooManyRequests { message: "slow down".to_string(), retry_after: Some(300) };
    assert_eq!(e.response_parts().0, 429);
    assert_eq!(e.retry_after(), Some(300));
    assert_eq!(AppError::Redis("x".to_string()).response_parts().1, "CACHE_ERROR");
    assert_eq!(AppError::ExternalService("x".to_string()).response_parts().0, 502);
    assert!(AppError::Unauthorized(String::new()).is_unauthorized());
    assert!(e.is_too_many_requests());
}
