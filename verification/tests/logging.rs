use env_logger::Builder;
use log::Log;
use wsforwarder::logging::{configure, format_record, from_verbosity, Level, LevelFilter};

fn enabled(builder: &mut Builder, queries: &[(&str, log::Level, bool)]) {
    let logger = builder.build();
    for (target, level, expected) in queries {
        let metadata = log::Metadata::builder()
            .target(target)
            .level(*level)
            .build();
        assert_eq!(logger.enabled(&metadata), *expected, "{} {}", target, level);
    }
}

#[test]
fn verbosity_sets_the_level() {
    let expected = [
        log::LevelFilter::Warn,
        log::LevelFilter::Info,
        log::LevelFilter::Debug,
        log::LevelFilter::Trace,
        log::LevelFilter::Trace,
    ];
    for (verbosity, level) in expected.iter().enumerate() {
        assert_eq!(
            from_verbosity(verbosity, None, None).build().filter(),
            *level
        );
    }
    assert_eq!(
        from_verbosity(usize::MAX, None, None).build().filter(),
        log::LevelFilter::Trace
    );
}

#[test]
fn blacklisted_modules_are_kept_at_warnings() {
    enabled(
        &mut from_verbosity(3, Some(vec!["mio", "hyper"]), None),
        &[
            ("app", log::Level::Trace, true),
            ("mio", log::Level::Warn, true),
            ("mio::poll", log::Level::Info, false),
            ("hyper", log::Level::Info, false),
        ],
    );
}

#[test]
fn filters_of_the_environment_come_last() {
    enabled(
        &mut configure(
            LevelFilter::Info,
            Some(vec!["mio"]),
            Some("mio=trace,app=error".to_string()),
        ),
        &[
            ("mio", log::Level::Trace, true),
            ("app", log::Level::Error, true),
            ("app", log::Level::Warn, false),
            ("other", log::Level::Info, true),
            ("other", log::Level::Debug, false),
        ],
    );
}

#[test]
fn every_level_can_be_configured() {
    for (level, expected) in [
        (LevelFilter::Off, log::LevelFilter::Off),
        (LevelFilter::Error, log::LevelFilter::Error),
        (LevelFilter::Warn, log::LevelFilter::Warn),
        (LevelFilter::Info, log::LevelFilter::Info),
        (LevelFilter::Debug, log::LevelFilter::Debug),
        (LevelFilter::Trace, log::LevelFilter::Trace),
    ] {
        assert_eq!(configure(level, None, None).build().filter(), expected);
    }
}

#[test]
fn a_pattern_of_the_environment_is_kept() {
    let patterned = configure(LevelFilter::Info, None, Some("info/needle".to_string())).build();
    assert!(format!("{:?}", patterned).contains("needle"));
    let plain = configure(LevelFilter::Info, None, Some("info".to_string())).build();
    assert!(format!("{:?}", plain).contains("filter: None"));
}

#[test]
fn a_line_shows_level_time_place_and_text() {
    assert_eq!(
        format_record(
            Level::Info,
            "2018-01-02 03:04:05.678",
            Some("src/main.rs"),
            Some(120),
            "hello"
        ),
        "\x1B[1;37m[INFO  2018-01-02 03:04:05.678 src/main.rs:120]\x1B[0m hello"
    );
    assert_eq!(
        format_record(Level::Error, "t", None, None, ""),
        "\x1B[1;31m[ERROR t unknown:0]\x1B[0m "
    );
    assert_eq!(
        format_record(Level::Warn, "t", Some("f"), Some(4294967295), "x"),
        "\x1B[1;33m[WARN  t f:4294967295]\x1B[0m x"
    );
    assert_eq!(
        format_record(Level::Debug, "t", Some("f"), Some(9), "x"),
        "\x1B[1;34m[DEBUG t f:9]\x1B[0m x"
    );
    assert_eq!(
        format_record(Level::Trace, "t", Some("f"), Some(10), "x"),
        "\x1B[1;35m[TRACE t f:10]\x1B[0m x"
    );
}
