use dns_bootstrap::logging::banner;
use dns_bootstrap::logging::format_event;
use dns_bootstrap::logging::format_event_at;
use dns_bootstrap::logging::SpanText;

#[test]
fn banner_frames_the_logo() {
    assert_eq!(banner("Name Server"), vec!["", " Name Server", ""]);
    assert_eq!(banner("a\r\n b\n"), vec!["", " a", "  b", ""]);
    assert_eq!(banner(""), vec!["", ""]);
}

#[test]
fn event_without_line_or_span() {
    assert_eq!(
        format_event_at(1707231612, "INFO", "named", None, &vec![], "server starting up"),
        "1707231612:INFO:named:server starting up\n"
    );
}

#[test]
fn event_with_line_and_spans() {
    let spans = vec![
        SpanText {
            name: "serve".to_string(),
            fields: "proto=udp".to_string(),
        },
        SpanText {
            name: "request".to_string(),
            fields: String::new(),
        },
    ];
    assert_eq!(
        format_event_at(0, "WARN", "named::server", Some(42), &spans, "slow"),
        "0:WARN:named::server:42:serve{proto=udp}:request:slow\n"
    );
}

#[test]
fn event_before_the_epoch() {
    assert_eq!(
        format_event_at(-1, "ERROR", "t", Some(0), &vec![], ""),
        "-1:ERROR:t:0:\n"
    );
    assert_eq!(
        format_event_at(i64::MIN, "DEBUG", "t", None, &vec![], "x"),
        "-9223372036854775808:DEBUG:t:x\n"
    );
    assert_eq!(
        format_event_at(i64::MAX, "DEBUG", "t", Some(u32::MAX), &vec![], "x"),
        "9223372036854775807:DEBUG:t:4294967295:x\n"
    );
}

#[test]
fn event_now_carries_the_clock() {
    let before = std::time::SystemTime::now()
        .duration_since(std::time::UNIX_EPOCH)
        .unwrap()
        .as_secs() as i64;
    let line = format_event("INFO", "named", Some(7), &vec![], "ready");
    let after = std::time::SystemTime::now()
        .duration_since(std::time::UNIX_EPOCH)
        .unwrap()
        .as_secs() as i64;
    let (secs, rest) = line.split_once(':').unwrap();
    let secs: i64 = secs.parse().unwrap();
    assert!(before <= secs && secs <= after);
    assert_eq!(rest, "INFO:named:7:ready\n");
    assert_eq!(
        line,
        format_event_at(secs, "INFO", "named", Some(7), &vec![], "ready")
    );
}
