//! What is logged, and how a line of the log looks.

use crate::message::seen;
use crate::text::{append_decimal, decimal, views};
use env_logger::Builder;
use vstd::prelude::*;

verus! {

/// The most detailed level that is logged.
#[derive(Clone, Copy, PartialEq, Eq, Structural, Debug)]
pub enum LevelFilter {
    Off,
    Error,
    Warn,
    Info,
    Debug,
    Trace,
}

/// The level of a record.
#[derive(Clone, Copy, PartialEq, Eq, Structural, Debug)]
pub enum Level {
    Error,
    Warn,
    Info,
    Debug,
    Trace,
}

/// A builder of `env_logger`.
#[verifier::external_type_specification]
#[verifier::external_body]
pub struct ExBuilder(env_logger::Builder);

/// The directives that a builder holds, in the order in which they were added:
/// the modules whose path starts with the name, or all modules, are logged up
/// to the level.
pub uninterp spec fn builder_directives(builder: Builder) -> Seq<(Option<Seq<char>>, LevelFilter)>;

/// The pattern that a builder holds the texts of records against, if any.
pub uninterp spec fn builder_pattern(builder: Builder) -> Option<Seq<char>>;

/// The directives and the pattern that `Builder::parse` reads from a text.
pub uninterp spec fn parsed_filters(text: Seq<char>) -> (
    Seq<(Option<Seq<char>>, LevelFilter)>,
    Option<Seq<char>>,
);

/// `env_logger::Builder::new`. Claimed of it: the builder holds no directives
/// and no pattern.
#[verifier::external_body]
fn builder_new() -> (builder: Builder)
    ensures
        builder_directives(builder).len() == 0,
        builder_pattern(builder) is None,
{
    Builder::new()
}

/// `env_logger::Builder::filter`. Claimed of it: it adds one directive behind
/// those that are there.
#[verifier::external_body]
fn builder_filter(builder: &mut Builder, module: Option<&str>, level: LevelFilter)
    ensures
        builder_directives(*final(builder)) == builder_directives(*old(builder)).push(
            (seen(module), level),
        ),
        builder_pattern(*final(builder)) == builder_pattern(*old(builder)),
{
    let level = match level {
        LevelFilter::Off => log::LevelFilter::Off,
        LevelFilter::Error => log::LevelFilter::Error,
        LevelFilter::Warn => log::LevelFilter::Warn,
        LevelFilter::Info => log::LevelFilter::Info,
        LevelFilter::Debug => log::LevelFilter::Debug,
        LevelFilter::Trace => log::LevelFilter::Trace,
    };
    builder.filter(module, level);
}

/// `env_logger::Builder::parse`. Claimed of it: it adds the directives that the
/// text holds behind those that are there, and takes its pattern from the text;
/// both depend on the text alone. Parts that it cannot read are left out, with
/// a warning on the standard output.
#[verifier::external_body]
fn builder_parse(builder: &mut Builder, filters: &str)
    ensures
        builder_directives(*final(builder)) == builder_directives(*old(builder)) + parsed_filters(
            filters@,
        ).0,
        builder_pattern(*final(builder)) == parsed_filters(filters@).1,
{
    builder.parse(filters);
}

/// The level filter of a verbosity.
pub open spec fn verbosity_level(verbosity: nat) -> LevelFilter {
    if verbosity == 0 {
        LevelFilter::Warn
    } else if verbosity == 1 {
        LevelFilter::Info
    } else if verbosity == 2 {
        LevelFilter::Debug
    } else {
        LevelFilter::Trace
    }
}

/// The directives that keep modules down to warnings.
pub open spec fn quiet(modules: Seq<Seq<char>>) -> Seq<(Option<Seq<char>>, LevelFilter)> {
    modules.map_values(|module: Seq<char>| (Some(module), LevelFilter::Warn))
}

/// The names in a list of modules, if there is one.
pub open spec fn names(blacklist: Option<Vec<&'static str>>) -> Seq<Seq<char>> {
    match blacklist {
        Some(modules) => views(modules@),
        None => seq![],
    }
}

/// Whether a builder is set up for a level, with the given modules kept down
/// and the filters of the environment behind them.
pub open spec fn configured(
    builder: Builder,
    level: LevelFilter,
    modules: Seq<Seq<char>>,
    filters: Option<Seq<char>>,
) -> bool {
    let base = seq![(None::<Seq<char>>, level)] + quiet(modules);
    match filters {
        Some(text) => {
            &&& builder_directives(builder) == base + parsed_filters(text).0
            &&& builder_pattern(builder) == parsed_filters(text).1
        },
        None => {
            &&& builder_directives(builder) == base
            &&& builder_pattern(builder) is None
        },
    }
}

/// Configures the logging system given a numeric verbosity.
///
/// The filters are those that the environment asks for. The builder is ready to
/// be given a format and to be installed.
pub fn from_verbosity(
    verbosity: usize,
    blacklist: Option<Vec<&'static str>>,
    filters: Option<String>,
) -> (builder: Builder)
    ensures
        configured(
            builder,
            verbosity_level(verbosity as nat),
            names(blacklist),
            seen(filters),
        ),
{
    configure(
        match verbosity {
            0 => LevelFilter::Warn,
            1 => LevelFilter::Info,
            2 => LevelFilter::Debug,
            _ => LevelFilter::Trace,
        },
        blacklist,
        filters,
    )
}

/// Configures the logging system given a `LevelFilter`.
///
/// The modules of the blacklist are logged up to warnings only, unless the
/// filters of the environment say otherwise.
pub fn configure(
    level: LevelFilter,
    blacklist: Option<Vec<&'static str>>,
    filters: Option<String>,
) -> (builder: Builder)
    ensures
        configured(builder, level, names(blacklist), seen(filters)),
{
    let mut builder = builder_new();
    builder_filter(&mut builder, None, level);
    let ghost modules = names(blacklist);
    let ghost base = seq![(None::<Seq<char>>, level)];
    assert(builder_directives(builder) =~= base + quiet(modules.take(0)));
    if let Some(list) = blacklist {
        let mut i: usize = 0;
        while i < list.len()
            invariant
                i <= list@.len(),
                modules == views(list@),
                builder_directives(builder) == base + quiet(modules.take(i as int)),
                builder_pattern(builder) is None,
            decreases list@.len() - i,
        {
            builder_filter(&mut builder, Some(list[i]), LevelFilter::Warn);
            i = i + 1;
            assert(builder_directives(builder) =~= base + quiet(modules.take(i as int)));
        }
    }
    assert(modules.take(modules.len() as int) =~= modules);
    if let Some(text) = filters {
        builder_parse(&mut builder, text.as_str());
    }
    builder
}

/// Whatever the filters of the environment say, the first directive is the
/// level for all modules, and each module of the blacklist has a directive
/// that keeps it down to warnings, in the order of the list.
pub proof fn blacklisted_modules_are_kept_down(
    builder: Builder,
    level: LevelFilter,
    modules: Seq<Seq<char>>,
    filters: Option<Seq<char>>,
    i: int,
)
    requires
        configured(builder, level, modules, filters),
        0 <= i < modules.len(),
    ensures
        builder_directives(builder).len() > modules.len(),
        builder_directives(builder)[0] == (None::<Seq<char>>, level),
        builder_directives(builder)[i + 1] == (Some(modules[i]), LevelFilter::Warn),
{
}

/// How many levels a filter lets through.
pub open spec fn levels_logged(filter: LevelFilter) -> nat {
    match filter {
        LevelFilter::Off => 0,
        LevelFilter::Error => 1,
        LevelFilter::Warn => 2,
        LevelFilter::Info => 3,
        LevelFilter::Debug => 4,
        LevelFilter::Trace => 5,
    }
}

/// A higher verbosity never logs fewer levels.
pub proof fn verbosity_adds_levels(low: nat, high: nat)
    requires
        low <= high,
    ensures
        levels_logged(verbosity_level(low)) <= levels_logged(verbosity_level(high)),
{
}

/// The name of a level, five characters wide.
pub open spec fn level_label(level: Level) -> Seq<char> {
    match level {
        Level::Error => "ERROR"@,
        Level::Warn => "WARN "@,
        Level::Info => "INFO "@,
        Level::Debug => "DEBUG"@,
        Level::Trace => "TRACE"@,
    }
}

/// The terminal color of a level.
pub open spec fn level_color(level: Level) -> nat {
    match level {
        Level::Error => 1,
        Level::Warn => 3,
        Level::Info => 7,
        Level::Debug => 4,
        Level::Trace => 5,
    }
}

/// A line of the log: in the color of the level, the level, the time and the
/// place, then the text.
pub open spec fn log_line(
    level: Level,
    timestamp: Seq<char>,
    file: Option<Seq<char>>,
    line: Option<u32>,
    text: Seq<char>,
) -> Seq<char> {
    let place = match file {
        Some(name) => name,
        None => "unknown"@,
    };
    let number = match line {
        Some(n) => n as nat,
        None => 0,
    };
    "\x1B[1;3"@ + decimal(level_color(level)) + "m["@ + level_label(level) + " "@ + timestamp
        + " "@ + place + ":"@ + decimal(number) + "]\x1B[0m "@ + text
}

/// The label and the color of a level.
fn level_style(level: Level) -> (style: (&'static str, u64))
    ensures
        style.0@ == level_label(level),
        style.1 == level_color(level),
{
    match level {
        Level::Error => ("ERROR", 1),
        Level::Warn => ("WARN ", 3),
        Level::Info => ("INFO ", 7),
        Level::Debug => ("DEBUG", 4),
        Level::Trace => ("TRACE", 5),
    }
}

/// Writes a line of the log, without its end.
pub fn format_record(
    level: Level,
    timestamp: &str,
    file: Option<&str>,
    line: Option<u32>,
    text: &str,
) -> (out: String)
    ensures
        out@ == log_line(level, timestamp@, seen(file), line, text@),
{
    let (label, color): (&'static str, u64) = level_style(level);
    let mut out: String = "\x1B[1;3".to_owned();
    append_decimal(&mut out, color);
    out.append("m[");
    out.append(label);
    out.append(" ");
    out.append(timestamp);
    out.append(" ");
    out.append(
        match file {
            Some(name) => name,
            None => "unknown",
        },
    );
    out.append(":");
    append_decimal(
        &mut out,
        match line {
            Some(n) => n as u64,
            None => 0,
        },
    );
    out.append("]\x1B[0m ");
    out.append(text);
    out
}

/// Verbosity starts at warnings; each of the next three steps adds a level, and
/// no further one adds any.
pub proof fn verbosity_counts_up_from_warnings(verbosity: nat)
    ensures
        verbosity_level(0) == LevelFilter::Warn,
        verbosity_level(1) == LevelFilter::Info,
        verbosity_level(2) == LevelFilter::Debug,
        verbosity >= 3 ==> verbosity_level(verbosity) == LevelFilter::Trace,
        levels_logged(verbosity_level(verbosity)) == if verbosity < 3 {
            2 + verbosity
        } else {
            5
        },
{
}

/// A builder that is set up holds the level for all modules, then one directive
/// for each module of the list, then what the filters of the environment say,
/// and nothing else; its pattern is that of the filters.
pub proof fn directives_are_in_order(
    builder: Builder,
    level: LevelFilter,
    modules: Seq<Seq<char>>,
    filters: Option<Seq<char>>,
)
    requires
        configured(builder, level, modules, filters),
    ensures
        ({
            let directives = builder_directives(builder);
            let own = modules.len() as int + 1;
            &&& directives.len() >= own
            &&& directives[0] == (None::<Seq<char>>, level)
            &&& forall|i: int|
                0 <= i < modules.len() ==> directives[i + 1] == (
                    Some(#[trigger] modules[i]),
                    LevelFilter::Warn,
                )
            &&& filters matches Some(text) ==> {
                &&& directives.len() == own + parsed_filters(text).0.len()
                &&& forall|i: int|
                    0 <= i < parsed_filters(text).0.len() ==> directives[own + i]
                        == #[trigger] parsed_filters(text).0[i]
                &&& builder_pattern(builder) == parsed_filters(text).1
            }
            &&& filters is None ==> {
                &&& directives.len() == own
                &&& builder_pattern(builder) is None
            }
        }),
{
}

/// The names in a list of modules are those of its members, in order.
pub proof fn names_are_those_of_the_members(modules: Vec<&'static str>)
    ensures
        names(Some(modules)).len() == modules@.len(),
        forall|i: int|
            0 <= i < modules@.len() ==> #[trigger] names(Some(modules))[i] == modules@[i]@,
        names(None).len() == 0,
{
}

proof fn lemma_line_start(
    level: Level,
    timestamp: Seq<char>,
    file: Seq<char>,
    line: u32,
    text: Seq<char>,
)
    ensures
        log_line(level, timestamp, Some(file), Some(line), text) == "\x1B[1;3"@ + decimal(
            level_color(level),
        ) + "m["@ + level_label(level) + (" "@ + timestamp + " "@ + file + ":"@ + decimal(
            line as nat,
        ) + "]\x1B[0m "@ + text),
{
    let start = "\x1B[1;3"@ + decimal(level_color(level)) + "m["@ + level_label(level);
    let rest = " "@ + timestamp + " "@ + file + ":"@ + decimal(line as nat) + "]\x1B[0m "@ + text;
    assert(log_line(level, timestamp, Some(file), Some(line), text) =~= start + rest);
}

/// How a line of each level looks.
pub proof fn lines_show_the_level(
    timestamp: Seq<char>,
    file: Seq<char>,
    line: u32,
    text: Seq<char>,
)
    ensures
        ({
            let rest = " "@ + timestamp + " "@ + file + ":"@ + decimal(line as nat)
                + "]\x1B[0m "@ + text;
            let (f, n) = (Some(file), Some(line));
            &&& log_line(Level::Error, timestamp, f, n, text) == "\x1B[1;31m[ERROR"@ + rest
            &&& log_line(Level::Warn, timestamp, f, n, text) == "\x1B[1;33m[WARN "@ + rest
            &&& log_line(Level::Info, timestamp, f, n, text) == "\x1B[1;37m[INFO "@ + rest
            &&& log_line(Level::Debug, timestamp, f, n, text) == "\x1B[1;34m[DEBUG"@ + rest
            &&& log_line(Level::Trace, timestamp, f, n, text) == "\x1B[1;35m[TRACE"@ + rest
        }),
{
    reveal_strlit("\x1B[1;3");
    reveal_strlit("m[");
    reveal_strlit("ERROR");
    reveal_strlit("\x1B[1;31m[ERROR");
    reveal_strlit("WARN ");
    reveal_strlit("\x1B[1;33m[WARN ");
    reveal_strlit("INFO ");
    reveal_strlit("\x1B[1;37m[INFO ");
    reveal_strlit("DEBUG");
    reveal_strlit("\x1B[1;34m[DEBUG");
    reveal_strlit("TRACE");
    reveal_strlit("\x1B[1;35m[TRACE");
    lemma_line_start(Level::Error, timestamp, file, line, text);
    assert("\x1B[1;3"@ + decimal(level_color(Level::Error)) + "m["@ + level_label(Level::Error)
        =~= "\x1B[1;31m[ERROR"@);
    lemma_line_start(Level::Warn, timestamp, file, line, text);
    assert("\x1B[1;3"@ + decimal(level_color(Level::Warn)) + "m["@ + level_label(Level::Warn)
        =~= "\x1B[1;33m[WARN "@);
    lemma_line_start(Level::Info, timestamp, file, line, text);
    assert("\x1B[1;3"@ + decimal(level_color(Level::Info)) + "m["@ + level_label(Level::Info)
        =~= "\x1B[1;37m[INFO "@);
    lemma_line_start(Level::Debug, timestamp, file, line, text);
    assert("\x1B[1;3"@ + decimal(level_color(Level::Debug)) + "m["@ + level_label(Level::Debug)
        =~= "\x1B[1;34m[DEBUG"@);
    lemma_line_start(Level::Trace, timestamp, file, line, text);
    assert("\x1B[1;3"@ + decimal(level_color(Level::Trace)) + "m["@ + level_label(Level::Trace)
        =~= "\x1B[1;35m[TRACE"@);
}

/// A record without a place is logged as one of line 0 of an unknown file.
pub proof fn unknown_places_are_filled_in(
    level: Level,
    timestamp: Seq<char>,
    file: Option<Seq<char>>,
    line: Option<u32>,
    text: Seq<char>,
)
    ensures
        log_line(level, timestamp, None, line, text) == log_line(
            level,
            timestamp,
            Some("unknown"@),
            line,
            text,
        ),
        log_line(level, timestamp, file, None, text) == log_line(
            level,
            timestamp,
            file,
            Some(0),
            text,
        ),
{
}

} // verus!
