use plugkit::news::{afp_article, afp_format, ap_article, reuters_article, reuters_format, tass_article, HostContext};
use std::sync::Mutex;

struct TestHost {
    logs: Mutex<Vec<String>>,
}

impl HostContext for TestHost {
    fn server_name(&self) -> &str {
        "News Server"
    }
    fn server_version(&self) -> &str {
        "0.1.0"
    }
    fn article_count(&self) -> usize {
        7
    }
    fn log_message(&self, msg: &str) {
        self.logs.lock().unwrap().push(msg.to_string());
    }
    fn server_time(&self) -> String {
        "2024-01-02 03:04:05".to_string()
    }
    fn plugin_count(&self) -> usize {
        2
    }
}

const FOOTER: &str = "\n\n---\n[Host: News Server v0.1.0 | 2024-01-02 03:04:05 | 2 plugins loaded, 7 articles]";

#[test]
fn reuters_style() {
    let host = TestHost { logs: Mutex::new(vec![]) };
    let a = reuters_format(&host, "Global Markets Rally on Tech Earnings", "Stocks rose.");
    assert!(a.headline.starts_with("[REUTERS]"));
    assert_eq!(a.headline, "[REUTERS] Global Markets Rally on Tech Earnings");
    assert_eq!(a.dateline, "LONDON");
    assert_eq!(a.agency, "");
    assert_eq!(a.body, format!("Stocks rose. — Reporting by Reuters correspondents.{}", FOOTER));
    assert_eq!(host.logs.lock().unwrap()[0], "Reuters formatting news: Global Markets Rally on Tech Earnings");
}

#[test]
fn afp_style() {
    let host = TestHost { logs: Mutex::new(vec![]) };
    let a = afp_format(
        &host,
        "Climate Summit Reaches Historic Agreement",
        "World leaders have committed to binding emissions targets for the first time.",
    );
    assert!(a.headline.ends_with("— AFP"));
    assert_eq!(a.dateline, "PARIS");
    assert!(a.body.starts_with("World leaders have committed"));
}

#[test]
fn other_styles() {
    let a = ap_article("H", "B", "S", "1", "T", 0, 12);
    assert_eq!(a.headline, "AP News: H");
    assert_eq!(a.dateline, "NEW YORK");
    assert_eq!(a.body, "B (The Associated Press)\n\n---\n[Host: S v1 | T | 0 plugins loaded, 12 articles]");
    let t = tass_article("H", "B", "S", "1", "T", 3, 4);
    assert_eq!(t.headline, "H — TASS");
    assert_eq!(t.dateline, "MOSCOW");
    assert_eq!(t.body, "B, as reported by TASS.\n\n---\n[Host: S v1 | T | 3 plugins loaded, 4 articles]");
    assert_eq!(afp_article("H", "B", "S", "1", "T", 1, 1).headline, "H — AFP");
    assert_eq!(reuters_article("H", "B", "S", "1", "T", 1, 1).headline, "[REUTERS] H");
}
