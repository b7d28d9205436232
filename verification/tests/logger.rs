use arm_core::logger::{
    compose_line, debug, error, format_clock, info, line_at, print_c, print_c_helper, success,
    timestamp, warn, LogColor, Segment, DEBUG, ERROR, INFO, OK, WARN,
};

fn is_clock_shaped(t: &str) -> bool {
    let c: Vec<char> = t.chars().collect();
    c.len() == 12
        && c[2] == ':'
        && c[5] == ':'
        && c[8] == '.'
        && [0, 1, 3, 4, 6, 7, 9, 10, 11].iter().all(|&i| c[i].is_ascii_digit())
        && t[0..2].parse::<u32>().unwrap() < 24
        && t[3..5].parse::<u32>().unwrap() < 60
        && t[6..8].parse::<u32>().unwrap() < 60
}

#[test]
fn format_clock_epoch_is_midnight() {
    assert_eq!(format_clock(0), "00:00:00.000");
}

#[test]
fn format_clock_splits_hours_minutes_seconds_millis() {
    // 1 h 2 min 3 s 456 ms
    assert_eq!(format_clock(3_723_456), "01:02:03.456");
    // last millisecond of a day
    assert_eq!(format_clock(86_399_999), "23:59:59.999");
}

#[test]
fn format_clock_wraps_every_day() {
    let t = 1_700_000_123_456u128;
    assert_eq!(format_clock(t), format_clock(t % 86_400_000));
    assert_eq!(format_clock(86_400_000), "00:00:00.000");
    assert_eq!(format_clock(86_400_000 * 3 + 61_001), "00:01:01.001");
}

#[test]
fn timestamp_reads_the_clock_as_time_of_day() {
    let t = timestamp().expect("the system clock is after the Unix epoch");
    assert!(is_clock_shaped(&t), "bad timestamp {t}");
}

#[test]
fn category_colors() {
    assert_eq!(print_c_helper(INFO), LogColor::Blue);
    assert_eq!(print_c_helper(OK), LogColor::Green);
    assert_eq!(print_c_helper(WARN), LogColor::Yellow);
    assert_eq!(print_c_helper(ERROR), LogColor::Red);
    assert_eq!(print_c_helper(DEBUG), LogColor::Magenta);
    assert_eq!(print_c_helper("[info]"), LogColor::Unnamed);
    assert_eq!(print_c_helper(""), LogColor::Unnamed);
}

#[test]
fn compose_line_keeps_parts_and_drops_empty_subsystem() {
    let l = compose_line("12:00:00.000".to_string(), WARN, "", "careful");
    assert_eq!(l.timestamp, "12:00:00.000");
    assert_eq!(l.category, "[WARN]");
    assert_eq!(l.subsystem, None);
    assert_eq!(l.msg, "careful");
    assert_eq!(l.color, LogColor::Yellow);

    let l = compose_line("12:00:00.000".to_string(), INFO, "[Sim]", "hello");
    assert_eq!(l.subsystem.as_deref(), Some("[Sim]"));
}

#[test]
fn line_at_stamps_the_given_instant() {
    let l = line_at(Some(45_296_789), OK, "[Choreo]", "Sequence complete").unwrap();
    assert_eq!(l.timestamp, "12:34:56.789");
    assert_eq!(l.category, "[OK]");
    assert_eq!(l.color, LogColor::Green);
    assert_eq!(l.subsystem.as_deref(), Some("[Choreo]"));
    assert_eq!(l.msg, "Sequence complete");
    assert!(line_at(None, OK, "[Choreo]", "x").is_none());
}

#[test]
fn level_functions_pick_tag_and_color() {
    let cases = [
        (info("[Config]", "Loaded config.toml").unwrap(), "[INFO]", LogColor::Blue),
        (success("[Sim]", "Reached").unwrap(), "[OK]", LogColor::Green),
        (warn("[Config]", "missing").unwrap(), "[WARN]", LogColor::Yellow),
        (error("[Socket]", "bind").unwrap(), "[ERROR]", LogColor::Red),
        (debug("", "trace").unwrap(), "[DEBUG]", LogColor::Magenta),
    ];
    for (line, tag, color) in cases {
        assert_eq!(line.category, tag);
        assert_eq!(line.color, color);
        assert!(is_clock_shaped(&line.timestamp));
    }
}

#[test]
fn print_c_with_unknown_category() {
    let l = print_c("[TRACE]", "x", "y").unwrap();
    assert_eq!(l.color, LogColor::Unnamed);
    assert_eq!(l.category, "[TRACE]");
    assert_eq!(l.subsystem.as_deref(), Some("x"));
}

#[test]
fn painted_line_keeps_texts() {
    let l = line_at(Some(0), INFO, "[Sim]", "hello").unwrap();
    let p = l.paint();
    assert_eq!(p.timestamp.text, "00:00:00.000");
    assert_eq!(p.timestamp.color, LogColor::Blue);
    assert!(p.timestamp.dimmed);
    assert_eq!(p.category.text, "[INFO]");
    assert_eq!(p.category.color, LogColor::Blue);
    assert!(!p.category.dimmed);
    let sub = p.subsystem.as_ref().unwrap();
    assert_eq!(sub.text, "[Sim]");
    assert_eq!(sub.color, LogColor::Blue);
    assert!(!sub.dimmed);
    assert_eq!(p.msg, "hello");

    let ts = p.timestamp.to_colored();
    assert_eq!(&*ts, "00:00:00.000");
    assert_eq!(ts.fgcolor, Some(colored::Color::Blue));
    assert!(ts.style.contains(colored::Styles::Dimmed));
    let cat = p.category.to_colored();
    assert_eq!(&*cat, "[INFO]");
    assert_eq!(cat.fgcolor, Some(colored::Color::Blue));
    assert!(!cat.style.contains(colored::Styles::Dimmed));

    let l = line_at(Some(0), "[TRACE]", "", "x").unwrap();
    let p = l.paint();
    assert!(p.subsystem.is_none());
    assert_eq!(p.category.color, LogColor::Unnamed);
    assert_eq!(p.category.to_colored().fgcolor, Some(colored::Color::White));
}

#[test]
fn printed_line_text_and_segments() {
    // 1 d 1 h 1 min 1 s 7 ms after the epoch
    let l = line_at(Some(90_061_007), WARN, "[Arm]", "limit").unwrap();
    let p = l.paint();
    assert_eq!(p.plain_text(), "01:01:01.007 [WARN] [Arm] limit\n");
    let segs = p.segments();
    assert_eq!(segs.len(), 8);
    let texts: Vec<String> = segs
        .iter()
        .map(|s| match s {
            Segment::Plain(t) => t.clone(),
            Segment::Painted(pt) => pt.text.clone(),
        })
        .collect();
    assert_eq!(texts.concat(), p.plain_text());
    assert!(matches!(&segs[0], Segment::Painted(pt) if pt.dimmed && pt.color == LogColor::Yellow));
    assert!(matches!(&segs[1], Segment::Plain(t) if t == " "));
    assert!(matches!(&segs[6], Segment::Plain(t) if t == "limit"));

    let l = line_at(Some(0), ERROR, "", "boom").unwrap();
    let p = l.paint();
    assert_eq!(p.plain_text(), "00:00:00.000 [ERROR] boom\n");
    assert_eq!(p.segments().len(), 6);
}
