use impossible_bot::logging::{format_record, level_format, LogLevel};
use impossible_bot::models::{Guild, Member};

#[test]
fn level_styles() {
    assert_eq!(level_format(LogLevel::Error), "\u{001b}[1;4;31m");
    assert_eq!(level_format(LogLevel::Warn), "\u{001b}[1;4;33m");
    assert_eq!(level_format(LogLevel::Info), "\u{001b}[1;34m");
    assert_eq!(level_format(LogLevel::Debug), "\u{001b}");
    assert_eq!(level_format(LogLevel::Trace), "\u{001b}[2m");
}

#[test]
fn log_line_layout() {
    assert_eq!(
        format_record(LogLevel::Info, "impossible_bot", "Connected to database"),
        "\u{001b}[1;34mINFO [impossible_bot]\u{001b}[0m - Connected to database"
    );
    assert_eq!(
        format_record(LogLevel::Error, "db", "oops"),
        "\u{001b}[1;4;31mERROR [db]\u{001b}[0m - oops"
    );
    assert_eq!(format_record(LogLevel::Warn, "", ""), "\u{001b}[1;4;33mWARN []\u{001b}[0m - ");
    assert_eq!(format_record(LogLevel::Debug, "t", "m"), "\u{001b}DEBUG [t]\u{001b}[0m - m");
    assert_eq!(format_record(LogLevel::Trace, "t", "m"), "\u{001b}[2mTRACE [t]\u{001b}[0m - m");
}

#[test]
fn model_records() {
    let guild = Guild::new("42".to_string());
    assert_eq!(guild.id(), "42");
    let member = Member::new("42".to_string(), "7".to_string(), 3);
    assert_eq!(member.guild_id(), "42");
    assert_eq!(member.user_id(), "7");
    assert_eq!(member.points(), 3);
}
