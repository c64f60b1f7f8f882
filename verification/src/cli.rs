//! The `warpctrl` command line: its grammar and a parser for it.
//!
//! ```text
//! warpctrl [--output-format pretty|text|json|ndjson] <command>
//!   instance list
//!   instance inspect        [--instance <id> | --pid <pid>]
//!   app ping|version|active|focus [--instance <id> | --pid <pid>]
//!   tab create              [--instance <id> | --pid <pid>]
//!   action list             [--implemented-only] [--stubs-only]
//!   action inspect <action>
//!   capability list         [--implemented-only] [--stubs-only]
//!   capability inspect <action>
//!   completions [bash|zsh|fish|powershell|elvish]
//! ```
//! Options take their value as the next argument, each option at most once.
use crate::text::{decimal_value, owned, parse_decimal, str_eq};
use vstd::prelude::*;

verus! {

/// How command output is rendered.
#[derive(Clone, Copy, PartialEq, Eq, Structural, Debug)]
pub enum OutputFormat {
    Pretty,
    Text,
    Json,
    Ndjson,
}

/// Which Warp instance a request goes to.
#[derive(Clone, PartialEq, Eq, Debug)]
pub struct TargetArgs<S> {
    pub instance: Option<S>,
    pub pid: Option<u32>,
}

#[derive(Clone, Copy, PartialEq, Eq, Structural, Debug)]
pub struct CatalogFilterArgs {
    pub implemented_only: bool,
    pub stubs_only: bool,
}

#[derive(Clone, PartialEq, Eq, Debug)]
pub enum InstanceCommand<S> {
    List,
    Inspect(TargetArgs<S>),
}

#[derive(Clone, PartialEq, Eq, Debug)]
pub enum AppCommand<S> {
    Ping(TargetArgs<S>),
    Version(TargetArgs<S>),
    Active(TargetArgs<S>),
    Focus(TargetArgs<S>),
}

#[derive(Clone, PartialEq, Eq, Debug)]
pub enum TabCommand<S> {
    Create(TargetArgs<S>),
}

#[derive(Clone, PartialEq, Eq, Debug)]
pub enum ActionCatalogCommand<S> {
    List(CatalogFilterArgs),
    Inspect { action: S },
}

#[derive(Clone, PartialEq, Eq, Debug)]
pub enum CapabilityCommand<S> {
    List(CatalogFilterArgs),
    Inspect { action: S },
}

#[derive(Clone, Copy, PartialEq, Eq, Structural, Debug)]
pub enum CompletionShell {
    Bash,
    Zsh,
    Fish,
    PowerShell,
    Elvish,
}

#[derive(Clone, PartialEq, Eq, Debug)]
pub enum ControlCommand<S> {
    Instance(InstanceCommand<S>),
    App(AppCommand<S>),
    Tab(TabCommand<S>),
    Action(ActionCatalogCommand<S>),
    Capability(CapabilityCommand<S>),
    Completions { shell: Option<CompletionShell> },
}

/// A parsed `warpctrl` invocation.
#[derive(Clone, PartialEq, Eq, Debug)]
pub struct ControlArgs<S> {
    pub output_format: OutputFormat,
    pub command: ControlCommand<S>,
}

/// Why a command line is rejected.
#[derive(Clone, Copy, PartialEq, Eq, Structural, Debug)]
pub enum ParseError {
    MissingCommand,
    UnknownCommand,
    MissingSubcommand,
    UnknownSubcommand,
    UnexpectedArgument,
    MissingValue,
    InvalidValue,
    DuplicateArgument,
    ConflictingArguments,
}

// ---------------------------------------------------------------------------
// The grammar, over the arguments' character sequences.

pub open spec fn format_named(s: Seq<char>) -> Option<OutputFormat> {
    if s == "pretty"@ {
        Some(OutputFormat::Pretty)
    } else if s == "text"@ {
        Some(OutputFormat::Text)
    } else if s == "json"@ {
        Some(OutputFormat::Json)
    } else if s == "ndjson"@ {
        Some(OutputFormat::Ndjson)
    } else {
        None
    }
}

pub open spec fn shell_named(s: Seq<char>) -> Option<CompletionShell> {
    if s == "bash"@ {
        Some(CompletionShell::Bash)
    } else if s == "zsh"@ {
        Some(CompletionShell::Zsh)
    } else if s == "fish"@ {
        Some(CompletionShell::Fish)
    } else if s == "powershell"@ {
        Some(CompletionShell::PowerShell)
    } else if s == "elvish"@ {
        Some(CompletionShell::Elvish)
    } else {
        None
    }
}

/// A process id: one or more decimal digits whose value fits in 32 bits.
pub open spec fn pid_named(s: Seq<char>) -> Option<u32> {
    match decimal_value(s) {
        Some(v) => if v <= u32::MAX {
            Some(v as u32)
        } else {
            None
        },
        None => None,
    }
}

/// Target options, each at most once, `--instance` and `--pid` not together.
pub open spec fn parse_target(t: Seq<Seq<char>>, acc: TargetArgs<Seq<char>>) -> Result<TargetArgs<Seq<char>>, ParseError>
    decreases t.len(),
{
    if t.len() == 0 {
        if acc.instance is Some && acc.pid is Some {
            Err(ParseError::ConflictingArguments)
        } else {
            Ok(acc)
        }
    } else if t[0] == "--instance"@ {
        if t.len() < 2 {
            Err(ParseError::MissingValue)
        } else if acc.instance is Some {
            Err(ParseError::DuplicateArgument)
        } else {
            parse_target(t.skip(2), TargetArgs { instance: Some(t[1]), pid: acc.pid })
        }
    } else if t[0] == "--pid"@ {
        if t.len() < 2 {
            Err(ParseError::MissingValue)
        } else if acc.pid is Some {
            Err(ParseError::DuplicateArgument)
        } else {
            match pid_named(t[1]) {
                Some(p) => parse_target(t.skip(2), TargetArgs { instance: acc.instance, pid: Some(p) }),
                None => Err(ParseError::InvalidValue),
            }
        }
    } else {
        Err(ParseError::UnexpectedArgument)
    }
}

pub open spec fn no_target() -> TargetArgs<Seq<char>> {
    TargetArgs { instance: None, pid: None }
}

/// Catalog filter flags, each at most once.
pub open spec fn parse_filter(t: Seq<Seq<char>>, acc: CatalogFilterArgs) -> Result<CatalogFilterArgs, ParseError>
    decreases t.len(),
{
    if t.len() == 0 {
        Ok(acc)
    } else if t[0] == "--implemented-only"@ {
        if acc.implemented_only {
            Err(ParseError::DuplicateArgument)
        } else {
            parse_filter(t.drop_first(), CatalogFilterArgs { implemented_only: true, stubs_only: acc.stubs_only })
        }
    } else if t[0] == "--stubs-only"@ {
        if acc.stubs_only {
            Err(ParseError::DuplicateArgument)
        } else {
            parse_filter(t.drop_first(), CatalogFilterArgs { implemented_only: acc.implemented_only, stubs_only: true })
        }
    } else {
        Err(ParseError::UnexpectedArgument)
    }
}

pub open spec fn no_filter() -> CatalogFilterArgs {
    CatalogFilterArgs { implemented_only: false, stubs_only: false }
}

/// The two catalog subcommands: `list` with filters, `inspect` with one
/// action name that is not an option.
pub open spec fn parse_catalog(t: Seq<Seq<char>>) -> Result<(bool, CatalogFilterArgs, Seq<char>), ParseError> {
    if t.len() == 0 {
        Err(ParseError::MissingSubcommand)
    } else if t[0] == "list"@ {
        match parse_filter(t.drop_first(), no_filter()) {
            Ok(f) => Ok((true, f, Seq::empty())),
            Err(e) => Err(e),
        }
    } else if t[0] == "inspect"@ {
        if t.len() < 2 {
            Err(ParseError::MissingValue)
        } else if t.len() > 2 || (t[1].len() > 0 && t[1][0] == '-') {
            Err(ParseError::UnexpectedArgument)
        } else {
            Ok((false, no_filter(), t[1]))
        }
    } else {
        Err(ParseError::UnknownSubcommand)
    }
}

pub open spec fn parse_command(t: Seq<Seq<char>>) -> Result<ControlCommand<Seq<char>>, ParseError> {
    if t.len() == 0 {
        Err(ParseError::MissingCommand)
    } else if t[0] == "instance"@ {
        if t.len() < 2 {
            Err(ParseError::MissingSubcommand)
        } else if t[1] == "list"@ {
            if t.len() == 2 {
                Ok(ControlCommand::Instance(InstanceCommand::List))
            } else {
                Err(ParseError::UnexpectedArgument)
            }
        } else if t[1] == "inspect"@ {
            match parse_target(t.skip(2), no_target()) {
                Ok(a) => Ok(ControlCommand::Instance(InstanceCommand::Inspect(a))),
                Err(e) => Err(e),
            }
        } else {
            Err(ParseError::UnknownSubcommand)
        }
    } else if t[0] == "app"@ {
        if t.len() < 2 {
            Err(ParseError::MissingSubcommand)
        } else if t[1] == "ping"@ || t[1] == "version"@ || t[1] == "active"@ || t[1] == "focus"@ {
            match parse_target(t.skip(2), no_target()) {
                Ok(a) => Ok(ControlCommand::App(
                    if t[1] == "ping"@ {
                        AppCommand::Ping(a)
                    } else if t[1] == "version"@ {
                        AppCommand::Version(a)
                    } else if t[1] == "active"@ {
                        AppCommand::Active(a)
                    } else {
                        AppCommand::Focus(a)
                    },
                )),
                Err(e) => Err(e),
            }
        } else {
            Err(ParseError::UnknownSubcommand)
        }
    } else if t[0] == "tab"@ {
        if t.len() < 2 {
            Err(ParseError::MissingSubcommand)
        } else if t[1] == "create"@ {
            match parse_target(t.skip(2), no_target()) {
                Ok(a) => Ok(ControlCommand::Tab(TabCommand::Create(a))),
                Err(e) => Err(e),
            }
        } else {
            Err(ParseError::UnknownSubcommand)
        }
    } else if t[0] == "action"@ {
        match parse_catalog(t.drop_first()) {
            Ok(c) => Ok(ControlCommand::Action(
                if c.0 {
                    ActionCatalogCommand::List(c.1)
                } else {
                    ActionCatalogCommand::Inspect { action: c.2 }
                },
            )),
            Err(e) => Err(e),
        }
    } else if t[0] == "capability"@ {
        match parse_catalog(t.drop_first()) {
            Ok(c) => Ok(ControlCommand::Capability(
                if c.0 {
                    CapabilityCommand::List(c.1)
                } else {
                    CapabilityCommand::Inspect { action: c.2 }
                },
            )),
            Err(e) => Err(e),
        }
    } else if t[0] == "completions"@ {
        if t.len() == 1 {
            Ok(ControlCommand::Completions { shell: None })
        } else if t.len() > 2 {
            Err(ParseError::UnexpectedArgument)
        } else {
            match shell_named(t[1]) {
                Some(s) => Ok(ControlCommand::Completions { shell: Some(s) }),
                None => Err(ParseError::InvalidValue),
            }
        }
    } else {
        Err(ParseError::UnknownCommand)
    }
}

/// Leading `--output-format` options, then the command.
pub open spec fn parse_globals(t: Seq<Seq<char>>, format: Option<OutputFormat>) -> Result<ControlArgs<Seq<char>>, ParseError>
    decreases t.len(),
{
    if t.len() > 0 && t[0] == "--output-format"@ {
        if t.len() < 2 {
            Err(ParseError::MissingValue)
        } else if format is Some {
            Err(ParseError::DuplicateArgument)
        } else {
            match format_named(t[1]) {
                Some(f) => parse_globals(t.skip(2), Some(f)),
                None => Err(ParseError::InvalidValue),
            }
        }
    } else {
        match parse_command(t) {
            Ok(c) => Ok(ControlArgs {
                output_format: match format {
                    Some(f) => f,
                    None => OutputFormat::Pretty,
                },
                command: c,
            }),
            Err(e) => Err(e),
        }
    }
}

/// The meaning of a whole command line; the first argument is the program
/// name.
pub open spec fn parse_command_line(args: Seq<Seq<char>>) -> Result<ControlArgs<Seq<char>>, ParseError> {
    if args.len() == 0 {
        Err(ParseError::MissingCommand)
    } else {
        parse_globals(args.drop_first(), None)
    }
}

// ---------------------------------------------------------------------------
// Views of parsed values.

pub open spec fn opt_str_view(o: Option<String>) -> Option<Seq<char>> {
    match o {
        Some(s) => Some(s@),
        None => None,
    }
}

pub open spec fn target_view(a: TargetArgs<String>) -> TargetArgs<Seq<char>> {
    TargetArgs { instance: opt_str_view(a.instance), pid: a.pid }
}

pub open spec fn command_view(c: ControlCommand<String>) -> ControlCommand<Seq<char>> {
    match c {
        ControlCommand::Instance(InstanceCommand::List) => ControlCommand::Instance(InstanceCommand::List),
        ControlCommand::Instance(InstanceCommand::Inspect(a)) => ControlCommand::Instance(InstanceCommand::Inspect(target_view(a))),
        ControlCommand::App(AppCommand::Ping(a)) => ControlCommand::App(AppCommand::Ping(target_view(a))),
        ControlCommand::App(AppCommand::Version(a)) => ControlCommand::App(AppCommand::Version(target_view(a))),
        ControlCommand::App(AppCommand::Active(a)) => ControlCommand::App(AppCommand::Active(target_view(a))),
        ControlCommand::App(AppCommand::Focus(a)) => ControlCommand::App(AppCommand::Focus(target_view(a))),
        ControlCommand::Tab(TabCommand::Create(a)) => ControlCommand::Tab(TabCommand::Create(target_view(a))),
        ControlCommand::Action(ActionCatalogCommand::List(f)) => ControlCommand::Action(ActionCatalogCommand::List(f)),
        ControlCommand::Action(ActionCatalogCommand::Inspect { action }) => ControlCommand::Action(ActionCatalogCommand::Inspect { action: action@ }),
        ControlCommand::Capability(CapabilityCommand::List(f)) => ControlCommand::Capability(CapabilityCommand::List(f)),
        ControlCommand::Capability(CapabilityCommand::Inspect { action }) => ControlCommand::Capability(CapabilityCommand::Inspect { action: action@ }),
        ControlCommand::Completions { shell } => ControlCommand::Completions { shell },
    }
}

pub open spec fn args_view(a: ControlArgs<String>) -> ControlArgs<Seq<char>> {
    ControlArgs { output_format: a.output_format, command: command_view(a.command) }
}

pub open spec fn parse_result_view(r: Result<ControlArgs<String>, ParseError>) -> Result<ControlArgs<Seq<char>>, ParseError> {
    match r {
        Ok(a) => Ok(args_view(a)),
        Err(e) => Err(e),
    }
}

pub open spec fn tokens(args: &[&str]) -> Seq<Seq<char>> {
    args@.map_values(|s: &str| s@)
}

} // verus!

verus! {

fn parse_pid(s: &str) -> (r: Option<u32>)
    ensures
        r == pid_named(s@),
{
    let x = crate::text::chars_of(s);
    assert(x@.skip(0) =~= s@);
    match parse_decimal(&x, 0) {
        Some(v) => if v <= 0xFFFF_FFFF {
            Some(v as u32)
        } else {
            None
        },
        None => None,
    }
}

fn parse_format(s: &str) -> (r: Option<OutputFormat>)
    ensures
        r == format_named(s@),
{
    if str_eq(s, "pretty") {
        Some(OutputFormat::Pretty)
    } else if str_eq(s, "text") {
        Some(OutputFormat::Text)
    } else if str_eq(s, "json") {
        Some(OutputFormat::Json)
    } else if str_eq(s, "ndjson") {
        Some(OutputFormat::Ndjson)
    } else {
        None
    }
}

fn parse_shell(s: &str) -> (r: Option<CompletionShell>)
    ensures
        r == shell_named(s@),
{
    if str_eq(s, "bash") {
        Some(CompletionShell::Bash)
    } else if str_eq(s, "zsh") {
        Some(CompletionShell::Zsh)
    } else if str_eq(s, "fish") {
        Some(CompletionShell::Fish)
    } else if str_eq(s, "powershell") {
        Some(CompletionShell::PowerShell)
    } else if str_eq(s, "elvish") {
        Some(CompletionShell::Elvish)
    } else {
        None
    }
}

pub open spec fn target_result_view(r: Result<TargetArgs<String>, ParseError>) -> Result<TargetArgs<Seq<char>>, ParseError> {
    match r {
        Ok(a) => Ok(target_view(a)),
        Err(e) => Err(e),
    }
}

fn parse_target_args(args: &[&str], pos: usize) -> (r: Result<TargetArgs<String>, ParseError>)
    requires
        pos <= args@.len(),
    ensures
        target_result_view(r) == parse_target(tokens(args).skip(pos as int), no_target()),
{
    let ghost t = tokens(args);
    let mut instance: Option<String> = None;
    let mut pid: Option<u32> = None;
    let mut p = pos;
    while p < args.len()
        invariant
            t == tokens(args),
            t.len() == args@.len(),
            pos <= p <= args@.len(),
            parse_target(t.skip(pos as int), no_target()) == parse_target(
                t.skip(p as int),
                TargetArgs { instance: opt_str_view(instance), pid },
            ),
        decreases args@.len() - p,
    {
        let ghost rest = t.skip(p as int);
        assert(rest[0] == args@[p as int]@);
        if str_eq(args[p], "--instance") {
            if p + 1 >= args.len() {
                return Err(ParseError::MissingValue);
            }
            if instance.is_some() {
                return Err(ParseError::DuplicateArgument);
            }
            assert(rest[1] == args@[p + 1]@);
            assert(rest.skip(2) =~= t.skip(p + 2));
            instance = Some(owned(args[p + 1]));
            p = p + 2;
        } else if str_eq(args[p], "--pid") {
            if p + 1 >= args.len() {
                return Err(ParseError::MissingValue);
            }
            if pid.is_some() {
                return Err(ParseError::DuplicateArgument);
            }
            assert(rest[1] == args@[p + 1]@);
            assert(rest.skip(2) =~= t.skip(p + 2));
            match parse_pid(args[p + 1]) {
                Some(v) => {
                    pid = Some(v);
                },
                None => {
                    return Err(ParseError::InvalidValue);
                },
            }
            p = p + 2;
        } else {
            return Err(ParseError::UnexpectedArgument);
        }
    }
    assert(t.skip(p as int).len() == 0);
    if instance.is_some() && pid.is_some() {
        return Err(ParseError::ConflictingArguments);
    }
    Ok(TargetArgs { instance, pid })
}

fn parse_filter_args(args: &[&str], pos: usize) -> (r: Result<CatalogFilterArgs, ParseError>)
    requires
        pos <= args@.len(),
    ensures
        r == parse_filter(tokens(args).skip(pos as int), no_filter()),
{
    let ghost t = tokens(args);
    let mut acc = CatalogFilterArgs { implemented_only: false, stubs_only: false };
    let mut p = pos;
    while p < args.len()
        invariant
            t == tokens(args),
            t.len() == args@.len(),
            pos <= p <= args@.len(),
            parse_filter(t.skip(pos as int), no_filter()) == parse_filter(t.skip(p as int), acc),
        decreases args@.len() - p,
    {
        let ghost rest = t.skip(p as int);
        assert(rest[0] == args@[p as int]@);
        assert(rest.drop_first() =~= t.skip(p + 1));
        if str_eq(args[p], "--implemented-only") {
            if acc.implemented_only {
                return Err(ParseError::DuplicateArgument);
            }
            acc = CatalogFilterArgs { implemented_only: true, stubs_only: acc.stubs_only };
        } else if str_eq(args[p], "--stubs-only") {
            if acc.stubs_only {
                return Err(ParseError::DuplicateArgument);
            }
            acc = CatalogFilterArgs { implemented_only: acc.implemented_only, stubs_only: true };
        } else {
            return Err(ParseError::UnexpectedArgument);
        }
        p = p + 1;
    }
    assert(t.skip(p as int).len() == 0);
    Ok(acc)
}

pub open spec fn catalog_result_view(r: Result<(bool, CatalogFilterArgs, String), ParseError>) -> Result<(bool, CatalogFilterArgs, Seq<char>), ParseError> {
    match r {
        Ok(c) => Ok((c.0, c.1, if c.0 { Seq::empty() } else { c.2@ })),
        Err(e) => Err(e),
    }
}

fn parse_catalog_args(args: &[&str], pos: usize) -> (r: Result<(bool, CatalogFilterArgs, String), ParseError>)
    requires
        pos <= args@.len(),
    ensures
        catalog_result_view(r) == parse_catalog(tokens(args).skip(pos as int)),
{
    let ghost t = tokens(args).skip(pos as int);
    if pos >= args.len() {
        return Err(ParseError::MissingSubcommand);
    }
    assert(t[0] == args@[pos as int]@);
    if str_eq(args[pos], "list") {
        assert(t.drop_first() =~= tokens(args).skip(pos + 1));
        let f = parse_filter_args(args, pos + 1)?;
        return Ok((true, f, String::new()));
    }
    if str_eq(args[pos], "inspect") {
        if pos + 1 >= args.len() {
            return Err(ParseError::MissingValue);
        }
        assert(t[1] == args@[pos + 1]@);
        let name = args[pos + 1];
        let n = name.unicode_len();
        if pos + 2 < args.len() || (n > 0 && name.get_char(0) == '-') {
            return Err(ParseError::UnexpectedArgument);
        }
        return Ok((false, CatalogFilterArgs { implemented_only: false, stubs_only: false }, owned(name)));
    }
    Err(ParseError::UnknownSubcommand)
}

pub open spec fn command_result_view(r: Result<ControlCommand<String>, ParseError>) -> Result<ControlCommand<Seq<char>>, ParseError> {
    match r {
        Ok(c) => Ok(command_view(c)),
        Err(e) => Err(e),
    }
}

fn parse_command_args(args: &[&str], pos: usize) -> (r: Result<ControlCommand<String>, ParseError>)
    requires
        pos <= args@.len(),
    ensures
        command_result_view(r) == parse_command(tokens(args).skip(pos as int)),
{
    let ghost t = tokens(args).skip(pos as int);
    if pos >= args.len() {
        return Err(ParseError::MissingCommand);
    }
    assert(t[0] == args@[pos as int]@);
    let group = args[pos];
    if str_eq(group, "instance") || str_eq(group, "app") || str_eq(group, "tab") {
        if pos + 1 >= args.len() {
            return Err(ParseError::MissingSubcommand);
        }
        assert(t[1] == args@[pos + 1]@);
        assert(t.skip(2) =~= tokens(args).skip(pos + 2));
        let sub = args[pos + 1];
        if str_eq(group, "instance") {
            if str_eq(sub, "list") {
                if pos + 2 == args.len() {
                    return Ok(ControlCommand::Instance(InstanceCommand::List));
                }
                return Err(ParseError::UnexpectedArgument);
            }
            if str_eq(sub, "inspect") {
                let a = parse_target_args(args, pos + 2)?;
                return Ok(ControlCommand::Instance(InstanceCommand::Inspect(a)));
            }
            return Err(ParseError::UnknownSubcommand);
        }
        if str_eq(group, "app") {
            if str_eq(sub, "ping") {
                let a = parse_target_args(args, pos + 2)?;
                return Ok(ControlCommand::App(AppCommand::Ping(a)));
            }
            if str_eq(sub, "version") {
                let a = parse_target_args(args, pos + 2)?;
                return Ok(ControlCommand::App(AppCommand::Version(a)));
            }
            if str_eq(sub, "active") {
                let a = parse_target_args(args, pos + 2)?;
                return Ok(ControlCommand::App(AppCommand::Active(a)));
            }
            if str_eq(sub, "focus") {
                let a = parse_target_args(args, pos + 2)?;
                return Ok(ControlCommand::App(AppCommand::Focus(a)));
            }
            return Err(ParseError::UnknownSubcommand);
        }
        if str_eq(sub, "create") {
            let a = parse_target_args(args, pos + 2)?;
            return Ok(ControlCommand::Tab(TabCommand::Create(a)));
        }
        return Err(ParseError::UnknownSubcommand);
    }
    if str_eq(group, "action") || str_eq(group, "capability") {
        assert(t.drop_first() =~= tokens(args).skip(pos + 1));
        let c = parse_catalog_args(args, pos + 1)?;
        if str_eq(group, "action") {
            if c.0 {
                return Ok(ControlCommand::Action(ActionCatalogCommand::List(c.1)));
            }
            return Ok(ControlCommand::Action(ActionCatalogCommand::Inspect { action: c.2 }));
        }
        if c.0 {
            return Ok(ControlCommand::Capability(CapabilityCommand::List(c.1)));
        }
        return Ok(ControlCommand::Capability(CapabilityCommand::Inspect { action: c.2 }));
    }
    if str_eq(group, "completions") {
        if pos + 1 == args.len() {
            return Ok(ControlCommand::Completions { shell: None });
        }
        if pos + 2 < args.len() {
            return Err(ParseError::UnexpectedArgument);
        }
        assert(t[1] == args@[pos + 1]@);
        return match parse_shell(args[pos + 1]) {
            Some(s) => Ok(ControlCommand::Completions { shell: Some(s) }),
            None => Err(ParseError::InvalidValue),
        };
    }
    Err(ParseError::UnknownCommand)
}

impl ControlArgs<String> {
    /// Parses a `warpctrl` command line; the first argument is the program
    /// name.
    pub fn try_parse_from(args: &[&str]) -> (r: Result<ControlArgs<String>, ParseError>)
        ensures
            parse_result_view(r) == parse_command_line(tokens(args)),
    {
        let ghost all = tokens(args);
        if args.len() == 0 {
            return Err(ParseError::MissingCommand);
        }
        let mut format: Option<OutputFormat> = None;
        let mut p: usize = 1;
        assert(all.drop_first() =~= all.skip(1));
        while p < args.len() && str_eq(args[p], "--output-format")
            invariant
                all == tokens(args),
                all.len() == args@.len(),
                1 <= p <= args@.len(),
                parse_command_line(all) == parse_globals(all.skip(p as int), format),
            decreases args@.len() - p,
        {
            let ghost rest = all.skip(p as int);
            assert(rest[0] == args@[p as int]@);
            if p + 1 >= args.len() {
                return Err(ParseError::MissingValue);
            }
            if format.is_some() {
                return Err(ParseError::DuplicateArgument);
            }
            assert(rest[1] == args@[p + 1]@);
            assert(rest.skip(2) =~= all.skip(p + 2));
            match parse_format(args[p + 1]) {
                Some(f) => {
                    format = Some(f);
                },
                None => {
                    return Err(ParseError::InvalidValue);
                },
            }
            p = p + 2;
        }
        proof {
            let rest = all.skip(p as int);
            if p < args.len() {
                assert(rest[0] == args@[p as int]@);
            }
        }
        let command = parse_command_args(args, p)?;
        let output_format = match format {
            Some(f) => f,
            None => OutputFormat::Pretty,
        };
        Ok(ControlArgs { output_format, command })
    }
}

} // verus!

verus! {

/// A catalog filter flag.
pub open spec fn is_filter_flag(f: Seq<char>) -> bool {
    f == "--implemented-only"@ || f == "--stubs-only"@
}

proof fn lemma_parse_filter_flags(t: Seq<Seq<char>>, acc: CatalogFilterArgs)
    requires
        forall|i: int| 0 <= i < t.len() ==> is_filter_flag(#[trigger] t[i]),
        t.no_duplicates(),
        acc.implemented_only ==> !t.contains("--implemented-only"@),
        acc.stubs_only ==> !t.contains("--stubs-only"@),
    ensures
        parse_filter(t, acc) == Ok::<CatalogFilterArgs, ParseError>(CatalogFilterArgs {
            implemented_only: acc.implemented_only || t.contains("--implemented-only"@),
            stubs_only: acc.stubs_only || t.contains("--stubs-only"@),
        }),
    decreases t.len(),
{
    reveal_strlit("--implemented-only");
    reveal_strlit("--stubs-only");
    assert("--implemented-only"@ != "--stubs-only"@) by {
        assert("--implemented-only"@[2] != "--stubs-only"@[2]);
    }
    if t.len() > 0 {
        let r = t.drop_first();
        assert forall|x: Seq<char>| t.contains(x) <==> (t[0] == x || r.contains(x)) by {
            if t.contains(x) {
                let j = choose|j: int| 0 <= j < t.len() && t[j] == x;
                if j > 0 {
                    assert(r[j - 1] == x);
                }
            }
            if r.contains(x) {
                let j = choose|j: int| 0 <= j < r.len() && r[j] == x;
                assert(t[j + 1] == x);
            }
        }
        assert(!r.contains(t[0])) by {
            if r.contains(t[0]) {
                let j = choose|j: int| 0 <= j < r.len() && r[j] == t[0];
                assert(t[j + 1] == t[0]);
            }
        }
        assert forall|i: int, j: int| 0 <= i < j < r.len() implies r[i] != r[j] by {
            assert(r[i] == t[i + 1] && r[j] == t[j + 1]);
        }
        assert forall|i: int| 0 <= i < r.len() implies is_filter_flag(#[trigger] r[i]) by {
            assert(r[i] == t[i + 1]);
        }
        assert(is_filter_flag(t[0]));
        if t[0] == "--implemented-only"@ {
            lemma_parse_filter_flags(r, CatalogFilterArgs { implemented_only: true, stubs_only: acc.stubs_only });
        } else {
            lemma_parse_filter_flags(r, CatalogFilterArgs { implemented_only: acc.implemented_only, stubs_only: true });
        }
    }
}

/// `action list` and `capability list` take the two filter flags in any
/// order, each at most once, and each flag sets exactly its own field of the
/// filter: `--implemented-only` the implemented-only field, `--stubs-only`
/// the stubs-only field.
pub proof fn lemma_list_filter_flags(program: Seq<char>, flags: Seq<Seq<char>>)
    requires
        forall|i: int| 0 <= i < flags.len() ==> is_filter_flag(#[trigger] flags[i]),
        flags.no_duplicates(),
    ensures
        parse_command_line(seq![program, "action"@, "list"@] + flags) == Ok::<ControlArgs<Seq<char>>, ParseError>(ControlArgs {
            output_format: OutputFormat::Pretty,
            command: ControlCommand::Action(ActionCatalogCommand::List(CatalogFilterArgs {
                implemented_only: flags.contains("--implemented-only"@),
                stubs_only: flags.contains("--stubs-only"@),
            })),
        }),
        parse_command_line(seq![program, "capability"@, "list"@] + flags) == Ok::<ControlArgs<Seq<char>>, ParseError>(ControlArgs {
            output_format: OutputFormat::Pretty,
            command: ControlCommand::Capability(CapabilityCommand::List(CatalogFilterArgs {
                implemented_only: flags.contains("--implemented-only"@),
                stubs_only: flags.contains("--stubs-only"@),
            })),
        }),
{
    reveal_strlit("action");
    reveal_strlit("capability");
    reveal_strlit("list");
    reveal_strlit("instance");
    reveal_strlit("app");
    reveal_strlit("tab");
    reveal_strlit("--output-format");
    lemma_parse_filter_flags(flags, no_filter());
    let f = CatalogFilterArgs {
        implemented_only: flags.contains("--implemented-only"@),
        stubs_only: flags.contains("--stubs-only"@),
    };
    let a = seq![program, "action"@, "list"@] + flags;
    let ta = a.drop_first();
    assert(ta =~= seq!["action"@, "list"@] + flags);
    assert(ta[0] == "action"@);
    assert(ta[0] != "--output-format"@) by {
        assert(ta[0].len() != "--output-format"@.len());
    }
    assert(ta[0] != "instance"@) by {
        assert(ta[0].len() != "instance"@.len());
    }
    assert(ta[0] != "app"@) by {
        assert(ta[0].len() != "app"@.len());
    }
    assert(ta[0] != "tab"@) by {
        assert(ta[0].len() != "tab"@.len());
    }
    let la = ta.drop_first();
    assert(la =~= seq!["list"@] + flags);
    assert(la[0] == "list"@);
    assert(la.drop_first() =~= flags);
    assert(parse_catalog(la) == Ok::<(bool, CatalogFilterArgs, Seq<char>), ParseError>((true, f, Seq::empty())));

    let c = seq![program, "capability"@, "list"@] + flags;
    let tc = c.drop_first();
    assert(tc =~= seq!["capability"@, "list"@] + flags);
    assert(tc[0] == "capability"@);
    assert(tc[0] != "--output-format"@) by {
        assert(tc[0][0] != "--output-format"@[0]);
    }
    assert(tc[0] != "instance"@) by {
        assert(tc[0].len() != "instance"@.len());
    }
    assert(tc[0] != "app"@) by {
        assert(tc[0].len() != "app"@.len());
    }
    assert(tc[0] != "tab"@) by {
        assert(tc[0].len() != "tab"@.len());
    }
    assert(tc[0] != "action"@) by {
        assert(tc[0].len() != "action"@.len());
    }
    let lc = tc.drop_first();
    assert(lc =~= seq!["list"@] + flags);
    assert(lc[0] == "list"@);
    assert(lc.drop_first() =~= flags);
}

} // verus!
