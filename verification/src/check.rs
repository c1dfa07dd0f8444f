//! The check of a test whose condition is judged when the test runs: from
//! the kind of the condition, its argument text and what was probed to what
//! the check hands back.

use vstd::prelude::*;
use crate::env::{check_env_condition, check_no_env_condition, env_verdict, no_env_verdict};
use crate::error::ConfigError;
use crate::executable::{executable_verdict, judge_executables, probe_executables};
use crate::file::{file_verdict, judge_files, judge_paths, path_verdict, probe_files, probe_paths};
use crate::net::{
    check_http_condition, check_https_condition, check_tcp_condition, echo_verdict, judge_pings,
    link_verdict, tcp_verdict, Ping,
};
use crate::reason::is_outcome;
use crate::report::{after_body, gate, gate_result};
use crate::resource::{
    byte_quantity, cores_verdict, judge_cores, judge_report, logical_cores, physical_cores,
    read_memory, size_verdict, MemoryReport, Metric,
};
use crate::text::string_views;
use crate::timezone::{host_offset_minutes, judge_timezone, tz_verdict};
use crate::user::{
    current_username, group_verdict, host_groups, judge_group, judge_root, judge_user,
    option_view, root_verdict, user_verdict,
};

verus! {

/// The kind of a condition.
#[derive(Debug, Clone, Copy, PartialEq, Eq, Structural)]
pub enum Condition {
    /// Every named variable is set.
    Env,
    /// Every named variable is unset.
    NoEnv,
    /// Every listed path is a regular file.
    File,
    /// Every listed path exists.
    Path,
    /// Every listed web server responds over `http`.
    Http,
    /// Every listed web server responds over `https`.
    Https,
    /// Every listed address answers an echo request.
    Echo,
    /// Every listed socket accepts a connection.
    Tcp,
    /// The superuser runs the process.
    Root,
    /// The user who runs the process is in the named group.
    Group,
    /// The user who runs the process has the given name.
    User,
    /// The host has as much of the metric as the text asks for.
    Size(Metric),
    /// The host has as many logical cores as the text asks for.
    CpuCore,
    /// The host has as many physical cores as the text asks for.
    PhyCore,
    /// The executables that the text asks for are found.
    Executable,
    /// The host is in one of the listed time zones.
    Timezone,
    /// The named function gives no reason to skip the test.
    IgnoreIf,
}

/// What was probed for a check. Each kind of condition reads the readings
/// that it is judged by, and no other.
#[derive(Debug, Clone, PartialEq, Eq)]
pub struct Probed {
    /// The names of the variables that are set.
    pub set_vars: Vec<String>,
    /// For each entry of a list of files, paths, web servers, sockets or
    /// executables, whether the probe of the entry succeeded.
    pub each: Vec<bool>,
    /// For each entry of a list of addresses, what came of the echo request.
    pub pings: Vec<Ping>,
    /// The number of the user who runs the process.
    pub uid: u32,
    /// The names of the groups of that user.
    pub groups: Vec<String>,
    /// The name of that user, where the host knows it.
    pub user: Option<String>,
    /// What the host reports of its memory and its swap space.
    pub memory: MemoryReport,
    /// The number of logical cores.
    pub logical_cores: usize,
    /// The number of physical cores.
    pub physical_cores: usize,
    /// The offset of the host from UTC, in minutes.
    pub offset_minutes: i32,
    /// The reason that the function named by an `IgnoreIf` condition gave,
    /// if it gave one.
    pub skip: Option<String>,
}

/// The verdict of the condition of the kind `kind` with the argument text
/// `text`, where `probed` holds what was probed: the verdict of that kind,
/// judged by the readings that the kind reads.
pub open spec fn kind_verdict(kind: Condition, text: Seq<char>, probed: Probed) -> Result<
    (bool, Seq<char>),
    ConfigError,
> {
    match kind {
        Condition::Env => Ok(env_verdict(text, string_views(probed.set_vars@))),
        Condition::NoEnv => Ok(no_env_verdict(text, string_views(probed.set_vars@))),
        Condition::File => Ok(file_verdict(text, probed.each@)),
        Condition::Path => Ok(path_verdict(text, probed.each@)),
        Condition::Http => Ok(link_verdict("http"@, text, probed.each@)),
        Condition::Https => Ok(link_verdict("https"@, text, probed.each@)),
        Condition::Echo => echo_verdict(text, probed.pings@),
        Condition::Tcp => Ok(tcp_verdict(text, probed.each@)),
        Condition::Root => Ok(root_verdict(probed.uid)),
        Condition::Group => Ok(group_verdict(text, string_views(probed.groups@))),
        Condition::User => Ok(user_verdict(text, option_view(probed.user))),
        Condition::Size(metric) => size_verdict(
            metric,
            text,
            byte_quantity(text, true),
            probed.memory.amount(metric),
        ),
        Condition::CpuCore => cores_verdict(false, text, probed.logical_cores),
        Condition::PhyCore => cores_verdict(true, text, probed.physical_cores),
        Condition::Executable => executable_verdict(text, probed.each@),
        Condition::Timezone => tz_verdict(text, probed.offset_minutes as int),
        Condition::IgnoreIf => match probed.skip {
            Some(reason) => Ok((false, reason@)),
            None => Ok((true, Seq::empty())),
        },
    }
}

/// Whether the check lets the body of the test run: whether the condition
/// is satisfied.
pub open spec fn body_runs(kind: Condition, text: Seq<char>, probed: Probed) -> bool {
    kind_verdict(kind, text, probed) matches Ok(v) && v.0
}

/// What the check hands back, where `body_error` is the error that the body
/// of the test handed back, if it ran and handed one back. A condition that
/// is not satisfied gives the reason behind the mark of a skipped test, and
/// the body does not count. A satisfied condition gives the error of the
/// body as a failure, or nothing. A faulty argument text gives the message
/// of the fault as a failure.
pub open spec fn check_result(
    kind: Condition,
    text: Seq<char>,
    probed: Probed,
    body_error: Option<Seq<char>>,
) -> Result<(), Seq<char>> {
    match kind_verdict(kind, text, probed) {
        Err(fault) => Err(fault.text()),
        Ok(v) => match gate_result(v.0, v.1) {
            Err(skip) => Err(skip),
            Ok(_) => match body_error {
                Some(error) => Err(error),
                None => Ok(()),
            },
        },
    }
}

/// Whether what a check handed back is `v`, strings taken by their
/// characters.
pub open spec fn is_handed_back(r: Result<(), String>, v: Result<(), Seq<char>>) -> bool {
    match (r, v) {
        (Ok(_), Ok(_)) => true,
        (Err(a), Err(b)) => a@ == b,
        _ => false,
    }
}

/// The readings of a check for which nothing was probed: no variable is
/// set, no probe of an entry is recorded, the user is nobody, the host has
/// nothing, and no reason to skip was given.
pub fn nothing_probed() -> (probed: Probed)
    ensures
        probed.set_vars@.len() == 0,
        probed.each@.len() == 0,
        probed.pings@.len() == 0,
        probed.uid == u32::MAX,
        probed.groups@.len() == 0,
        probed.user is None,
        probed.memory == (MemoryReport {
            total_memory: 0,
            free_memory: 0,
            available_memory: 0,
            total_swap: 0,
            free_swap: 0,
        }),
        probed.logical_cores == 0,
        probed.physical_cores == 0,
        probed.offset_minutes == i32::MIN,
        probed.skip is None,
{
    Probed {
        set_vars: Vec::new(),
        each: Vec::new(),
        pings: Vec::new(),
        uid: u32::MAX,
        groups: Vec::new(),
        user: None,
        memory: MemoryReport {
            total_memory: 0,
            free_memory: 0,
            available_memory: 0,
            total_swap: 0,
            free_swap: 0,
        },
        logical_cores: 0,
        physical_cores: 0,
        offset_minutes: i32::MIN,
        skip: None,
    }
}

/// What the library can probe of the host for a condition of the kind
/// `kind` with the argument text `text`: the readings that the kind reads,
/// taken now. The environment, the network and the function of an
/// `IgnoreIf` condition are left to the caller: for these kinds, and in
/// every reading that the kind does not read, nothing is probed.
pub fn probe_host(kind: Condition, text: &str) -> (probed: Probed)
    ensures
        probed.set_vars@.len() == 0,
        probed.pings@.len() == 0,
        probed.skip is None,
        kind is File || kind is Path ==> probed.each@.len() == crate::reason::targets(
            text@,
        ).len(),
        kind is Executable && !crate::executable::is_mixed(text@) ==> probed.each@.len()
            == crate::executable::executable_names(text@).len(),
        !(kind is File || kind is Path || kind is Executable) ==> probed.each@.len() == 0,
        kind is CpuCore ==> probed.logical_cores >= 1,
        kind is PhyCore ==> probed.physical_cores >= 1,
        kind is Timezone ==> -1440 < probed.offset_minutes < 1440,
        !(kind is Root) ==> probed.uid == u32::MAX,
        !(kind is Group) ==> probed.groups@.len() == 0,
        !(kind is User) ==> probed.user is None,
        !(kind is CpuCore) ==> probed.logical_cores == 0,
        !(kind is PhyCore) ==> probed.physical_cores == 0,
        !(kind is Timezone) ==> probed.offset_minutes == i32::MIN,
{
    let mut probed = nothing_probed();
    match kind {
        Condition::File => {
            probed.each = probe_files(text);
        },
        Condition::Path => {
            probed.each = probe_paths(text);
        },
        Condition::Executable => {
            probed.each = probe_executables(text);
        },
        Condition::Root => {
            probed.uid = uzers::get_current_uid();
        },
        Condition::Group => {
            probed.groups = host_groups();
        },
        Condition::User => {
            probed.user = current_username();
        },
        Condition::Size(_) => {
            probed.memory = read_memory();
        },
        Condition::CpuCore => {
            probed.logical_cores = logical_cores();
        },
        Condition::PhyCore => {
            probed.physical_cores = physical_cores();
        },
        Condition::Timezone => {
            probed.offset_minutes = host_offset_minutes();
        },
        _ => {},
    }
    probed
}

/// The verdict of the condition of the kind `kind` with the argument text
/// `text`, where `probed` holds what was probed.
pub fn judge_kind(kind: Condition, text: &str, probed: &Probed) -> (r: Result<
    (bool, String),
    ConfigError,
>)
    ensures
        is_outcome(r, kind_verdict(kind, text@, *probed)),
        !(kind is IgnoreIf) ==> (r matches Ok(v) ==> (v.0 <==> v.1@.len() == 0)),
{
    match kind {
        Condition::Env => Ok(check_env_condition(text.to_owned(), &probed.set_vars)),
        Condition::NoEnv => Ok(check_no_env_condition(text.to_owned(), &probed.set_vars)),
        Condition::File => Ok(judge_files(text, &probed.each)),
        Condition::Path => Ok(judge_paths(text, &probed.each)),
        Condition::Http => Ok(check_http_condition(text.to_owned(), &probed.each)),
        Condition::Https => Ok(check_https_condition(text.to_owned(), &probed.each)),
        Condition::Echo => judge_pings(text, &probed.pings),
        Condition::Tcp => Ok(check_tcp_condition(text.to_owned(), &probed.each)),
        Condition::Root => Ok(judge_root(probed.uid)),
        Condition::Group => Ok(judge_group(text, &probed.groups)),
        Condition::User => Ok(judge_user(text, &probed.user)),
        Condition::Size(metric) => judge_report(metric, text, &probed.memory),
        Condition::CpuCore => judge_cores(false, text, probed.logical_cores),
        Condition::PhyCore => judge_cores(true, text, probed.physical_cores),
        Condition::Executable => judge_executables(text, &probed.each),
        Condition::Timezone => judge_timezone(text, probed.offset_minutes),
        Condition::IgnoreIf => match &probed.skip {
            Some(reason) => Ok((false, reason.clone())),
            None => Ok((true, String::new())),
        },
    }
}

/// Whether the check lets the body of the test run.
pub fn lets_body_run(kind: Condition, text: &str, probed: &Probed) -> (r: bool)
    ensures
        r == body_runs(kind, text@, *probed),
{
    match judge_kind(kind, text, probed) {
        Ok(v) => v.0,
        Err(_) => false,
    }
}

/// What the check of a condition of the kind `kind` with the argument text
/// `text` hands back, where `probed` holds what was probed and `body_error`
/// is the error of the body of the test, if it ran and handed one back.
pub fn hand_back(kind: Condition, text: &str, probed: &Probed, body_error: Option<String>) -> (r:
    Result<(), String>)
    ensures
        is_handed_back(r, check_result(kind, text@, *probed, option_view(body_error))),
{
    match judge_kind(kind, text, probed) {
        Err(fault) => Err(fault.message()),
        Ok(v) => match gate(v.0, v.1.as_str()) {
            Err(skip) => Err(skip),
            Ok(_) => after_body(body_error),
        },
    }
}

} // verus!
