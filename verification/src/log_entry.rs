use colored::Colorize;
use vstd::prelude::*;
use vstd::string::*;

verus! {

/// The level of a console log line.
#[derive(Clone, Copy, Debug, PartialEq, Eq, Structural)]
pub enum LogLevel {
    Info,
    Warning,
    Error,
    Critical,
}

/// The terminal colour of a level's label.
#[derive(Clone, Copy, Debug, PartialEq, Eq, Structural)]
pub enum LabelColor {
    Green,
    Yellow,
    Red,
    Magenta,
}

/// The four-letter label of a level.
pub open spec fn spec_level_label(level: LogLevel) -> Seq<char> {
    match level {
        LogLevel::Info => "INFO"@,
        LogLevel::Warning => "WARN"@,
        LogLevel::Error => "ERRO"@,
        LogLevel::Critical => "CRIT"@,
    }
}

/// The colour of a level's label.
pub open spec fn spec_level_color(level: LogLevel) -> LabelColor {
    match level {
        LogLevel::Info => LabelColor::Green,
        LogLevel::Warning => LabelColor::Yellow,
        LogLevel::Error => LabelColor::Red,
        LogLevel::Critical => LabelColor::Magenta,
    }
}

/// The four-letter label of a level.
pub fn level_label(level: LogLevel) -> (label: &'static str)
    ensures
        label@ == spec_level_label(level),
        level is Info ==> label@ == "INFO"@,
        level is Warning ==> label@ == "WARN"@,
        level is Error ==> label@ == "ERRO"@,
        level is Critical ==> label@ == "CRIT"@,
{
    proof {
        reveal_strlit("INFO");
        reveal_strlit("WARN");
        reveal_strlit("ERRO");
        reveal_strlit("CRIT");
    }
    match level {
        LogLevel::Info => "INFO",
        LogLevel::Warning => "WARN",
        LogLevel::Error => "ERRO",
        LogLevel::Critical => "CRIT",
    }
}

/// The colour of a level's label: green, yellow, red and magenta.
pub fn level_color(level: LogLevel) -> (color: LabelColor)
    ensures
        color == spec_level_color(level),
{
    match level {
        LogLevel::Info => LabelColor::Green,
        LogLevel::Warning => LabelColor::Yellow,
        LogLevel::Error => LabelColor::Red,
        LogLevel::Critical => LabelColor::Magenta,
    }
}

/// The ANSI foreground code of a colour.
pub open spec fn ansi_code(color: LabelColor) -> Seq<char> {
    match color {
        LabelColor::Green => "32"@,
        LabelColor::Yellow => "33"@,
        LabelColor::Red => "31"@,
        LabelColor::Magenta => "35"@,
    }
}

/// `text` wrapped in the escape sequences that colour it on a terminal.
pub open spec fn ansi_painted(text: Seq<char>, color: LabelColor) -> Seq<char> {
    "\x1B["@ + ansi_code(color) + "m"@ + text + "\x1B[0m"@
}

/// No escape character occurs in `text`.
pub open spec fn escape_free(text: Seq<char>) -> bool {
    forall|i: int| 0 <= i < text.len() ==> text[i] != '\x1B'
}

/// `Colorize::color` followed by `Display` of the coloured string: the
/// text as it is, or wrapped in the colour's escape sequences. Which of
/// the two depends on the environment (`CLICOLOR`, `NO_COLOR`,
/// `CLICOLOR_FORCE`) and on whether standard output is a terminal.
#[verifier::external_body]
fn paint(text: &str, color: LabelColor) -> (painted: String)
    requires
        escape_free(text@),
    ensures
        painted@ == text@ || painted@ == ansi_painted(text@, color),
{
    let c = match color {
        LabelColor::Green => colored::Color::Green,
        LabelColor::Yellow => colored::Color::Yellow,
        LabelColor::Red => colored::Color::Red,
        LabelColor::Magenta => colored::Color::Magenta,
    };
    format!("{}", text.color(c))
}

/// The pattern of the time in a log line: month-day, then
/// hours:minutes:seconds with milliseconds.
pub open spec fn spec_log_time_pattern() -> Seq<char> {
    "%m-%d|%H:%M:%S%.3f"@
}

/// The time of a log line is written with chrono's pattern
/// `%m-%d|%H:%M:%S%.3f`: month and day, the hour on the 24-hour clock,
/// minutes, seconds and milliseconds.
pub proof fn lemma_log_time_pattern()
    ensures
        spec_log_time_pattern() == "%m-%d|%H:%M:%S%.3f"@,
{
}

/// What chrono writes for the instant `secs` seconds and `nanos`
/// nanoseconds after the Unix epoch, seen at `offset_secs` east of UTC,
/// with the format `pattern`; none when chrono accepts no such instant or
/// offset.
pub uninterp spec fn chrono_log_time(secs: i64, nanos: u32, offset_secs: i32, pattern: Seq<char>) -> Option<Seq<char>>;

/// `FixedOffset::east_opt`, `DateTime::from_timestamp`,
/// `DateTime::with_timezone` and `DateTime::format` with `pattern`: the
/// text depends on these four values alone. The pattern is the log-line
/// pattern, whose every item chrono can write, so formatting cannot fail.
#[verifier::external_body]
fn format_log_time(secs: i64, nanos: u32, offset_secs: i32, pattern: &str) -> (text: Option<String>)
    requires
        pattern@ == spec_log_time_pattern(),
    ensures
        match text {
            Some(t) => chrono_log_time(secs, nanos, offset_secs, pattern@) == Some(t@),
            None => chrono_log_time(secs, nanos, offset_secs, pattern@) is None,
        },
{
    match (chrono::FixedOffset::east_opt(offset_secs), chrono::DateTime::from_timestamp(secs, nanos)) {
        (Some(offset), Some(utc)) => Some(format!("{}", utc.with_timezone(&offset).format(pattern))),
        _ => None,
    }
}

/// A console log line: when, how severe, and what.
#[derive(Debug)]
pub struct LogEntry {
    /// Seconds since the Unix epoch.
    pub secs: i64,
    /// Nanoseconds within that second.
    pub nanos: u32,
    /// The local time zone's offset east of UTC, in seconds.
    pub utc_offset_secs: i32,
    pub level: LogLevel,
    pub message: String,
}

/// `label [time] message`.
pub open spec fn spec_log_line(label: Seq<char>, time: Seq<char>, message: Seq<char>) -> Seq<char> {
    label + " ["@ + time + "] "@ + message
}

/// `label [time] message`.
pub fn log_line(label: &str, time: &str, message: &str) -> (line: String)
    ensures
        line@ == spec_log_line(label@, time@, message@),
{
    let mut line = label.to_owned();
    line.append(" [");
    line.append(time);
    line.append("] ");
    line.append(message);
    line
}

impl LogEntry {
    /// The entry as it is printed: the level's label (coloured where the
    /// terminal takes colour), the local time in brackets, and the message.
    /// None only when the time fields name no instant that chrono knows.
    pub fn render(&self) -> (line: Option<String>)
        ensures
            match chrono_log_time(self.secs, self.nanos, self.utc_offset_secs, "%m-%d|%H:%M:%S%.3f"@) {
                None => line is None,
                Some(t) => line matches Some(l) && {
                    ||| l@ == spec_log_line(spec_level_label(self.level), t, self.message@)
                    ||| l@ == spec_log_line(
                        ansi_painted(spec_level_label(self.level), spec_level_color(self.level)),
                        t,
                        self.message@,
                    )
                },
            },
    {
        let pattern = "%m-%d|%H:%M:%S%.3f";
        let time = match format_log_time(self.secs, self.nanos, self.utc_offset_secs, pattern) {
            Some(t) => t,
            None => return None,
        };
        let label = level_label(self.level);
        proof {
            reveal_strlit("INFO");
            reveal_strlit("WARN");
            reveal_strlit("ERRO");
            reveal_strlit("CRIT");
            assert(escape_free(label@));
        }
        let painted = paint(label, level_color(self.level));
        Some(log_line(painted.as_str(), time.as_str(), self.message.as_str()))
    }
}

} // verus!
