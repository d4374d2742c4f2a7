//! Resolved command-line options and the decisions taken from them before
//! any sampling: what to collect, and how to run.
use vstd::prelude::*;

use crate::format::{join_spaced, joined, strings_view};
use crate::report::OutputFormat;

verus! {

/// The switches and values that the argument parser found.
pub struct CliFlags {
    pub help: bool,
    pub cpu: bool,
    pub memory: bool,
    pub system: bool,
    pub battery: bool,
    pub disk: bool,
    pub network: bool,
    pub temp: bool,
    pub process: bool,
    pub hosts: bool,
    pub json: bool,
    pub watch: bool,
    pub interval: Option<u64>,
    pub top: Option<usize>,
    pub sort_cpu: bool,
    pub show_comments: bool,
    /// Arguments that matched no option.
    pub unknown: Vec<String>,
}

/// The options a run is made with.
pub struct CliArgs {
    pub show_cpu: bool,
    pub show_memory: bool,
    pub show_system: bool,
    pub show_battery: bool,
    pub show_disk: bool,
    pub show_network: bool,
    pub show_temp: bool,
    pub show_process: bool,
    pub show_hosts: bool,
    pub show_all: bool,
    pub json: bool,
    pub watch: bool,
    pub interval: u64,
    pub process_top: Option<usize>,
    pub process_sort_cpu: bool,
    pub hosts_filter_comments: bool,
    pub help: bool,
}

/// A fatal configuration error, found before any sampling.
pub enum CliError {
    /// Arguments that matched no option.
    UnknownArguments(Vec<String>),
    /// Watch mode was asked for together with JSON output.
    JsonWithWatch,
}

/// How the program is to run.
pub enum RunMode {
    /// Print the usage text.
    Help,
    /// Sample and render once.
    Once(OutputFormat),
    /// Sample and render as a table every `interval` seconds.
    Watch(u64),
}

/// The subsystems to sample.
pub struct Selection {
    pub cpu: bool,
    pub memory: bool,
    pub system: bool,
    pub battery: bool,
    pub disk: bool,
    pub network: bool,
    pub temp: bool,
    pub process: bool,
    pub hosts: bool,
}

/// Seconds between two refreshes when none is given.
pub const DEFAULT_INTERVAL: u64 = 2;

/// No subsystem switch was given.
pub open spec fn none_selected(f: CliFlags) -> bool {
    !f.cpu && !f.memory && !f.system && !f.battery && !f.disk && !f.network && !f.temp
        && !f.process && !f.hosts
}

/// The options of a help request: everything else is off.
pub open spec fn is_help_args(a: CliArgs) -> bool {
    &&& a.help
    &&& !a.show_cpu && !a.show_memory && !a.show_system && !a.show_battery && !a.show_disk
    &&& !a.show_network && !a.show_temp && !a.show_process && !a.show_hosts && !a.show_all
    &&& !a.json && !a.watch && a.interval == DEFAULT_INTERVAL && a.process_top is None
    &&& !a.process_sort_cpu && a.hosts_filter_comments
}

/// The options that the flags give, when no argument was unknown.
pub open spec fn args_of_flags(a: CliArgs, f: CliFlags) -> bool {
    &&& !a.help
    &&& a.show_cpu == f.cpu && a.show_memory == f.memory && a.show_system == f.system
    &&& a.show_battery == f.battery && a.show_disk == f.disk && a.show_network == f.network
    &&& a.show_temp == f.temp && a.show_process == f.process && a.show_hosts == f.hosts
    &&& a.show_all == none_selected(f)
    &&& a.json == f.json && a.watch == f.watch
    &&& a.interval == match f.interval {
        Some(i) => i,
        None => DEFAULT_INTERVAL,
    }
    &&& a.process_top == f.top && a.process_sort_cpu == f.sort_cpu
    &&& a.hosts_filter_comments == !f.show_comments
}

/// The text of a configuration error.
pub open spec fn error_text(e: CliError) -> Seq<char> {
    match e {
        CliError::UnknownArguments(v) => "Unknown arguments: "@ + joined(strings_view(v@)),
        CliError::JsonWithWatch => "Watch mode is not compatible with JSON output"@,
    }
}

impl CliError {
    /// A sentence that describes the error.
    pub fn message(&self) -> (r: String)
        ensures
            r@ == error_text(*self),
    {
        match self {
            CliError::UnknownArguments(v) => {
                let s = String::from_str("Unknown arguments: ");
                s.concat(join_spaced(v).as_str())
            },
            CliError::JsonWithWatch => String::from_str("Watch mode is not compatible with JSON output"),
        }
    }
}

impl CliArgs {
    /// Resolves the parsed flags. A help request wins over everything else;
    /// otherwise any unknown argument is an error. With no subsystem switch,
    /// every subsystem is shown; the interval defaults to two seconds and
    /// comment filtering of the hosts file is on unless `--show-comments`.
    pub fn parse(flags: CliFlags) -> (r: Result<CliArgs, CliError>)
        ensures
            flags.help ==> (r matches Ok(a) && is_help_args(a)),
            !flags.help && flags.unknown@.len() > 0 ==> (r matches Err(
                CliError::UnknownArguments(v),
            ) && v@ == flags.unknown@),
            !flags.help && flags.unknown@.len() == 0 ==> (r matches Ok(a) && args_of_flags(
                a,
                flags,
            )),
    {
        if flags.help {
            return Ok(
                CliArgs {
                    show_cpu: false,
                    show_memory: false,
                    show_system: false,
                    show_battery: false,
                    show_disk: false,
                    show_network: false,
                    show_temp: false,
                    show_process: false,
                    show_hosts: false,
                    show_all: false,
                    json: false,
                    watch: false,
                    interval: DEFAULT_INTERVAL,
                    process_top: None,
                    process_sort_cpu: false,
                    hosts_filter_comments: true,
                    help: true,
                },
            );
        }
        if flags.unknown.len() > 0 {
            return Err(CliError::UnknownArguments(flags.unknown));
        }
        let show_all = !flags.cpu && !flags.memory && !flags.system && !flags.battery
            && !flags.disk && !flags.network && !flags.temp && !flags.process && !flags.hosts;
        Ok(
            CliArgs {
                show_cpu: flags.cpu,
                show_memory: flags.memory,
                show_system: flags.system,
                show_battery: flags.battery,
                show_disk: flags.disk,
                show_network: flags.network,
                show_temp: flags.temp,
                show_process: flags.process,
                show_hosts: flags.hosts,
                show_all,
                json: flags.json,
                watch: flags.watch,
                interval: match flags.interval {
                    Some(i) => i,
                    None => DEFAULT_INTERVAL,
                },
                process_top: flags.top,
                process_sort_cpu: flags.sort_cpu,
                hosts_filter_comments: !flags.show_comments,
                help: false,
            },
        )
    }

    /// How to run: help first; watch mode together with JSON output is
    /// refused before anything is sampled; otherwise watch mode renders
    /// tables, a single run the chosen format.
    pub fn run_mode(&self) -> (r: Result<RunMode, CliError>)
        ensures
            self.help ==> r matches Ok(RunMode::Help),
            !self.help && self.json && self.watch ==> r matches Err(CliError::JsonWithWatch),
            !self.help && !self.json && self.watch ==> (r matches Ok(RunMode::Watch(i))
                && i == self.interval),
            !self.help && !self.watch ==> (r matches Ok(RunMode::Once(f)) && (f
                == OutputFormat::Json <==> self.json)),
    {
        if self.help {
            Ok(RunMode::Help)
        } else if self.watch {
            if self.json {
                Err(CliError::JsonWithWatch)
            } else {
                Ok(RunMode::Watch(self.interval))
            }
        } else if self.json {
            Ok(RunMode::Once(OutputFormat::Json))
        } else {
            Ok(RunMode::Once(OutputFormat::Text))
        }
    }

    /// The subsystems to sample: those switched on, or all of them.
    pub fn selection(&self) -> (r: Selection)
        ensures
            r.cpu == (self.show_all || self.show_cpu),
            r.memory == (self.show_all || self.show_memory),
            r.system == (self.show_all || self.show_system),
            r.battery == (self.show_all || self.show_battery),
            r.disk == (self.show_all || self.show_disk),
            r.network == (self.show_all || self.show_network),
            r.temp == (self.show_all || self.show_temp),
            r.process == (self.show_all || self.show_process),
            r.hosts == (self.show_all || self.show_hosts),
    {
        Selection {
            cpu: self.show_all || self.show_cpu,
            memory: self.show_all || self.show_memory,
            system: self.show_all || self.show_system,
            battery: self.show_all || self.show_battery,
            disk: self.show_all || self.show_disk,
            network: self.show_all || self.show_network,
            temp: self.show_all || self.show_temp,
            process: self.show_all || self.show_process,
            hosts: self.show_all || self.show_hosts,
        }
    }

    /// Resolves the flags and the run mode together, before anything is
    /// sampled: unknown arguments and watch mode with JSON output are
    /// refused unless help was asked for.
    pub fn resolve(flags: CliFlags) -> (r: Result<(CliArgs, RunMode), CliError>)
        ensures
            flags.help ==> (r matches Ok((a, m)) && is_help_args(a) && m is Help),
            !flags.help && flags.unknown@.len() > 0 ==> (r matches Err(
                CliError::UnknownArguments(v),
            ) && v@ == flags.unknown@),
            !flags.help && flags.unknown@.len() == 0 && flags.json && flags.watch ==> (r matches Err(
                CliError::JsonWithWatch,
            )),
            !flags.help && flags.unknown@.len() == 0 && !(flags.json && flags.watch) ==> (r matches Ok(
                (a, m),
            ) && args_of_flags(a, flags) && (flags.watch ==> (m matches RunMode::Watch(i)
                && i == a.interval)) && (!flags.watch ==> (m matches RunMode::Once(f) && (f
                == OutputFormat::Json <==> flags.json)))),
    {
        let args = match CliArgs::parse(flags) {
            Ok(a) => a,
            Err(e) => return Err(e),
        };
        match args.run_mode() {
            Ok(m) => Ok((args, m)),
            Err(e) => Err(e),
        }
    }
}

} // verus!
