use ttdash::debug::{route, which_log, DebugPage};
use ttdash::logging::{short_level, LogLevel};
use ttdash::weather::parse_time_and_duration;

#[test]
fn which_log_takes_first_log_parameter() {
    assert_eq!(which_log("/dumplog?log=ttdash.log").as_deref(), Some("ttdash.log"));
    assert_eq!(which_log("/dumplog?x=1&log=a.txt&log=b.log&log=c.log").as_deref(), Some("b.log"));
    assert_eq!(which_log("/dumplog?log=a.log=b.log").as_deref(), Some("a.log"));
    assert_eq!(which_log("/dumplog?log=.lo"), None);
    assert_eq!(which_log("/dumplog"), None);
    assert_eq!(which_log("/dumplog?logx=a.log&nolog"), None);
    assert_eq!(which_log("/dumplog?q?log=a.log").as_deref(), None);
    assert_eq!(which_log("/d?a=b?&log=a.log").as_deref(), Some("a.log"));
}

#[test]
fn routes_by_path() {
    assert_eq!(route("/"), DebugPage::Main);
    assert_eq!(route("/dumplog?log=a.log"), DebugPage::DumpLog);
    assert_eq!(route("/dumplog"), DebugPage::DumpLog);
    assert_eq!(route("/current_image"), DebugPage::CurrentImage);
    assert_eq!(route("/current_image?x"), DebugPage::Unknown);
    assert_eq!(route(""), DebugPage::Unknown);
    assert_eq!(route("/dump"), DebugPage::Unknown);
}

#[test]
fn level_tags() {
    assert_eq!(short_level(LogLevel::Error), "E");
    assert_eq!(short_level(LogLevel::Warn), "W");
    assert_eq!(short_level(LogLevel::Info), "I");
    assert_eq!(short_level(LogLevel::Debug), "D");
    assert_eq!(short_level(LogLevel::Trace), "TRACE");
}

#[test]
fn periods_have_start_and_length() {
    assert_eq!(parse_time_and_duration("2019-08-12T19:00:00+00:00/PT1H").unwrap(), (1565636400, 3600));
    assert_eq!(parse_time_and_duration("2019-08-12T15:00:00-04:00/P1DT12H").unwrap(), (1565636400, 129600));
    assert_eq!(parse_time_and_duration("2019-08-12T19:00:00Z/PT2H/extra").unwrap(), (1565636400, 7200));
    assert!(parse_time_and_duration("2019-08-12T19:00:00+00:00").is_err());
    assert!(parse_time_and_duration("yesterday/PT1H").is_err());
    assert!(parse_time_and_duration("2019-08-12T19:00:00+00:00/1H").is_err());
}
