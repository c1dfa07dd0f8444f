//! Conditions under which a test runs, and the rewriting of tests that
//! carry them.
//!
//! A condition is written as an annotation on a test function or on a
//! module of tests. Its argument text is judged: the condition is satisfied,
//! or it is not and a reason says why, or the text itself is faulty. From
//! that the rewrite of the annotated item follows: a satisfied test runs as
//! it is, an unsatisfied one is skipped with the reason, and a fault stops
//! the build.

pub mod check;
pub mod env;
pub mod error;
pub mod executable;
pub mod file;
pub mod item;
pub mod lock;
pub mod net;
pub mod number;
pub mod reason;
pub mod report;
pub mod resource;
pub mod runtime;
pub mod schedule;
pub mod split;
pub mod text;
pub mod timezone;
pub mod trim;
pub mod user;
pub mod utils;

use vstd::prelude::*;
use crate::env::{env_verdict, no_env_verdict};
use crate::check::Condition;
use crate::error::ConfigError;
use crate::executable::{executable_verdict, is_mixed};
use crate::file::{file_verdict, path_verdict};
use crate::item::{marked_serial, marked_test, marked_test_cfg, Attribute, FnDecl, Item};
use crate::lock::{lock_entries, lock_wait, LockPlan};
use crate::net::{any_not_address, echo_verdict, link_verdict, tcp_verdict, Ping};
use crate::number::count_value;
use crate::resource::{byte_quantity, cores_verdict, size_verdict, Metric};
use crate::runtime::{
    declares_fixture, first_fault, is_check_of, runtime_check, test_names, RuntimeCheck,
    RuntimeModule,
};
use crate::split::entries;
use crate::text::string_views;
use crate::timezone::{first_ambiguous, tz_verdict};
use crate::trim::{trimmed_entries, without};
use crate::user::{group_verdict, root_verdict, user_verdict};
use crate::utils::{
    has_no_body, is_rewrite_for, lacks_body, rewrite, rewrite_for, strip_blanks, Annotated,
    Rewrite,
};

verus! {

/// Lets the annotated test or module of tests run where every variable that
/// `attr` names is set; `set_vars` holds the names of the variables that are
/// set.
pub fn env(
    attr: &str,
    item: &Annotated,
    set_vars: &Vec<String>,
    tell_reason: bool,
) -> (r: Result<Rewrite, ConfigError>)
    ensures
        is_rewrite_for(
            r,
            *item,
            Ok(env_verdict(without(attr@, ' '), string_views(set_vars@))),
            tell_reason,
        ),
{
    if lacks_body(item) {
        return Err(ConfigError::ModuleWithoutBody);
    }
    let text = strip_blanks(attr);
    let verdict = crate::env::check_env_condition(text, set_vars);
    rewrite(item, verdict.0, verdict.1.as_str(), tell_reason)
}

/// The check of a function that runs where every variable that `attr` names
/// is set. The condition is judged when the test runs.
pub fn runtime_env(attr: &str, decl: &FnDecl) -> (check: RuntimeCheck)
    ensures
        is_check_of(check, Condition::Env, attr@, *decl),
{
    runtime_check(Condition::Env, attr, decl)
}

/// Lets the annotated test or module of tests run where every variable that
/// `attr` names is unset; `set_vars` holds the names of the variables that
/// are set.
pub fn no_env(
    attr: &str,
    item: &Annotated,
    set_vars: &Vec<String>,
    tell_reason: bool,
) -> (r: Result<Rewrite, ConfigError>)
    ensures
        is_rewrite_for(
            r,
            *item,
            Ok(no_env_verdict(without(attr@, ' '), string_views(set_vars@))),
            tell_reason,
        ),
{
    if lacks_body(item) {
        return Err(ConfigError::ModuleWithoutBody);
    }
    let text = strip_blanks(attr);
    let verdict = crate::env::check_no_env_condition(text, set_vars);
    rewrite(item, verdict.0, verdict.1.as_str(), tell_reason)
}

/// The check of a function that runs where every variable that `attr` names
/// is unset. The condition is judged when the test runs.
pub fn runtime_no_env(attr: &str, decl: &FnDecl) -> (check: RuntimeCheck)
    ensures
        is_check_of(check, Condition::NoEnv, attr@, *decl),
{
    runtime_check(Condition::NoEnv, attr, decl)
}

/// Lets the annotated test or module of tests run where every path that
/// `attr` lists is a regular file. The paths are probed at the call.
pub fn file(
    attr: &str,
    item: &Annotated,
    tell_reason: bool,
) -> (r: Result<Rewrite, ConfigError>)
    ensures
        has_no_body(*item) ==> r == Err::<Rewrite, ConfigError>(ConfigError::ModuleWithoutBody),
        !has_no_body(*item) ==> exists|ok: Seq<bool>|
            is_rewrite_for(
                r,
                *item,
                Ok(#[trigger] file_verdict(without(attr@, ' '), ok)),
                tell_reason,
            ),
{
    if lacks_body(item) {
        return Err(ConfigError::ModuleWithoutBody);
    }
    let text = strip_blanks(attr);
    let verdict = crate::file::check_file_condition(text);
    rewrite(item, verdict.0, verdict.1.as_str(), tell_reason)
}

/// The check of a function that runs where every path that `attr` lists is a
/// regular file. The condition is judged when the test runs.
pub fn runtime_file(attr: &str, decl: &FnDecl) -> (check: RuntimeCheck)
    ensures
        is_check_of(check, Condition::File, attr@, *decl),
{
    runtime_check(Condition::File, attr, decl)
}

/// Lets the annotated test or module of tests run where every path that
/// `attr` lists exists. The paths are probed at the call.
pub fn path(
    attr: &str,
    item: &Annotated,
    tell_reason: bool,
) -> (r: Result<Rewrite, ConfigError>)
    ensures
        has_no_body(*item) ==> r == Err::<Rewrite, ConfigError>(ConfigError::ModuleWithoutBody),
        !has_no_body(*item) ==> exists|ok: Seq<bool>|
            is_rewrite_for(
                r,
                *item,
                Ok(#[trigger] path_verdict(without(attr@, ' '), ok)),
                tell_reason,
            ),
{
    if lacks_body(item) {
        return Err(ConfigError::ModuleWithoutBody);
    }
    let text = strip_blanks(attr);
    let verdict = crate::file::check_path_condition(text);
    rewrite(item, verdict.0, verdict.1.as_str(), tell_reason)
}

/// The check of a function that runs where every path that `attr` lists
/// exists. The condition is judged when the test runs.
pub fn runtime_path(attr: &str, decl: &FnDecl) -> (check: RuntimeCheck)
    ensures
        is_check_of(check, Condition::Path, attr@, *decl),
{
    runtime_check(Condition::Path, attr, decl)
}

/// Lets the annotated test or module of tests run where every web server that
/// `attr` lists responds over `http`, as `responded` says of each.
pub fn http(
    attr: &str,
    item: &Annotated,
    responded: &Vec<bool>,
    tell_reason: bool,
) -> (r: Result<Rewrite, ConfigError>)
    ensures
        is_rewrite_for(
            r,
            *item,
            Ok(link_verdict("http"@, without(attr@, ' '), responded@)),
            tell_reason,
        ),
{
    if lacks_body(item) {
        return Err(ConfigError::ModuleWithoutBody);
    }
    let text = strip_blanks(attr);
    let verdict = crate::net::check_http_condition(text, responded);
    rewrite(item, verdict.0, verdict.1.as_str(), tell_reason)
}

/// The check of a function that runs where every web server that `attr` lists
/// responds over `http`. The condition is judged when the test runs.
pub fn runtime_http(attr: &str, decl: &FnDecl) -> (check: RuntimeCheck)
    ensures
        is_check_of(check, Condition::Http, attr@, *decl),
{
    runtime_check(Condition::Http, attr, decl)
}

/// Lets the annotated test or module of tests run where every web server that
/// `attr` lists responds over `https`, as `responded` says of each.
pub fn https(
    attr: &str,
    item: &Annotated,
    responded: &Vec<bool>,
    tell_reason: bool,
) -> (r: Result<Rewrite, ConfigError>)
    ensures
        is_rewrite_for(
            r,
            *item,
            Ok(link_verdict("https"@, without(attr@, ' '), responded@)),
            tell_reason,
        ),
{
    if lacks_body(item) {
        return Err(ConfigError::ModuleWithoutBody);
    }
    let text = strip_blanks(attr);
    let verdict = crate::net::check_https_condition(text, responded);
    rewrite(item, verdict.0, verdict.1.as_str(), tell_reason)
}

/// The check of a function that runs where every web server that `attr` lists
/// responds over `https`. The condition is judged when the test runs.
pub fn runtime_https(attr: &str, decl: &FnDecl) -> (check: RuntimeCheck)
    ensures
        is_check_of(check, Condition::Https, attr@, *decl),
{
    runtime_check(Condition::Https, attr, decl)
}

/// Lets the annotated test or module of tests run where every address that
/// `attr` lists answers an echo request, as `pings` tells of each. An entry
/// that is no IP address is a fault.
pub fn icmp(
    attr: &str,
    item: &Annotated,
    pings: &Vec<Ping>,
    tell_reason: bool,
) -> (r: Result<Rewrite, ConfigError>)
    ensures
        is_rewrite_for(
            r,
            *item,
            echo_verdict(without(attr@, ' '), pings@),
            tell_reason,
        ),
{
    if lacks_body(item) {
        return Err(ConfigError::ModuleWithoutBody);
    }
    let text = strip_blanks(attr);
    rewrite_for(item, crate::net::check_icmp_condition(text, pings), tell_reason)
}

/// The check of a function that runs where every address that `attr` lists
/// answers an echo request. The requests are made when the test runs;
/// `is_address` says of each entry whether it is an IP address, and an entry
/// that is none is a fault now.
pub fn runtime_icmp(attr: &str, decl: &FnDecl, is_address: &Vec<bool>) -> (r: Result<
    RuntimeCheck,
    ConfigError,
>)
    ensures
        match r {
            Ok(check) => !any_not_address(
                is_address@,
                trimmed_entries(without(attr@, ' ')).len(),
            ) && is_check_of(check, Condition::Echo, attr@, *decl),
            Err(fault) => any_not_address(
                is_address@,
                trimmed_entries(without(attr@, ' ')).len(),
            ) && fault == ConfigError::BadIpAddress,
        },
{
    let check = runtime_check(Condition::Echo, attr, decl);
    match crate::net::check_addresses(check.attr.as_str(), is_address) {
        Ok(_) => Ok(check),
        Err(fault) => Err(fault),
    }
}

/// Lets the annotated test or module of tests run where every socket that
/// `attr` lists accepts a connection, as `connected` says of each.
pub fn tcp(
    attr: &str,
    item: &Annotated,
    connected: &Vec<bool>,
    tell_reason: bool,
) -> (r: Result<Rewrite, ConfigError>)
    ensures
        is_rewrite_for(
            r,
            *item,
            Ok(tcp_verdict(without(attr@, ' '), connected@)),
            tell_reason,
        ),
{
    if lacks_body(item) {
        return Err(ConfigError::ModuleWithoutBody);
    }
    let text = strip_blanks(attr);
    let verdict = crate::net::check_tcp_condition(text, connected);
    rewrite(item, verdict.0, verdict.1.as_str(), tell_reason)
}

/// The check of a function that runs where every socket that `attr` lists
/// accepts a connection. The condition is judged when the test runs.
pub fn runtime_tcp(attr: &str, decl: &FnDecl) -> (check: RuntimeCheck)
    ensures
        is_check_of(check, Condition::Tcp, attr@, *decl),
{
    runtime_check(Condition::Tcp, attr, decl)
}

/// Lets the annotated test or module of tests run where the superuser runs
/// the process. The argument text is not read.
pub fn root(
    attr: &str,
    item: &Annotated,
    tell_reason: bool,
) -> (r: Result<Rewrite, ConfigError>)
    ensures
        has_no_body(*item) ==> r == Err::<Rewrite, ConfigError>(ConfigError::ModuleWithoutBody),
        !has_no_body(*item) ==> exists|uid: u32|
            is_rewrite_for(
                r,
                *item,
                Ok(#[trigger] root_verdict(uid)),
                tell_reason,
            ),
{
    if lacks_body(item) {
        return Err(ConfigError::ModuleWithoutBody);
    }
    let text = strip_blanks(attr);
    let verdict = crate::user::check_root_condition(text);
    rewrite(item, verdict.0, verdict.1.as_str(), tell_reason)
}

/// The check of a function that runs where the superuser runs the process.
/// The condition is judged when the test runs.
pub fn runtime_root(attr: &str, decl: &FnDecl) -> (check: RuntimeCheck)
    ensures
        is_check_of(check, Condition::Root, attr@, *decl),
{
    runtime_check(Condition::Root, attr, decl)
}

/// Lets the annotated test or module of tests run where the user who runs the
/// process is in the group that `attr` names.
pub fn group(
    attr: &str,
    item: &Annotated,
    tell_reason: bool,
) -> (r: Result<Rewrite, ConfigError>)
    ensures
        has_no_body(*item) ==> r == Err::<Rewrite, ConfigError>(ConfigError::ModuleWithoutBody),
        !has_no_body(*item) ==> exists|groups: Seq<Seq<char>>|
            is_rewrite_for(
                r,
                *item,
                Ok(#[trigger] group_verdict(without(attr@, ' '), groups)),
                tell_reason,
            ),
{
    if lacks_body(item) {
        return Err(ConfigError::ModuleWithoutBody);
    }
    let text = strip_blanks(attr);
    let verdict = crate::user::check_group_condition(text);
    rewrite(item, verdict.0, verdict.1.as_str(), tell_reason)
}

/// The check of a function that runs where the user who runs the process is
/// in the group that `attr` names. The condition is judged when the test
/// runs.
pub fn runtime_group(attr: &str, decl: &FnDecl) -> (check: RuntimeCheck)
    ensures
        is_check_of(check, Condition::Group, attr@, *decl),
{
    runtime_check(Condition::Group, attr, decl)
}

/// Lets the annotated test or module of tests run where the user who runs the
/// process has the name that `attr` gives.
pub fn user(
    attr: &str,
    item: &Annotated,
    tell_reason: bool,
) -> (r: Result<Rewrite, ConfigError>)
    ensures
        has_no_body(*item) ==> r == Err::<Rewrite, ConfigError>(ConfigError::ModuleWithoutBody),
        !has_no_body(*item) ==> exists|current: Option<Seq<char>>|
            is_rewrite_for(
                r,
                *item,
                Ok(#[trigger] user_verdict(without(attr@, ' '), current)),
                tell_reason,
            ),
{
    if lacks_body(item) {
        return Err(ConfigError::ModuleWithoutBody);
    }
    let text = strip_blanks(attr);
    let verdict = crate::user::check_user_condition(text);
    rewrite(item, verdict.0, verdict.1.as_str(), tell_reason)
}

/// The check of a function that runs where the user who runs the process has
/// the name that `attr` gives. The condition is judged when the test runs.
pub fn runtime_user(attr: &str, decl: &FnDecl) -> (check: RuntimeCheck)
    ensures
        is_check_of(check, Condition::User, attr@, *decl),
{
    runtime_check(Condition::User, attr, decl)
}

/// Lets the annotated test or module of tests run where the host has as much
/// memory installed as `attr` asks for. A text that is no byte quantity is a
/// fault.
pub fn mem(
    attr: &str,
    item: &Annotated,
    tell_reason: bool,
) -> (r: Result<Rewrite, ConfigError>)
    ensures
        has_no_body(*item) ==> r == Err::<Rewrite, ConfigError>(ConfigError::ModuleWithoutBody),
        !has_no_body(*item) ==> exists|amount: u64|
            is_rewrite_for(
                r,
                *item,
                #[trigger] size_verdict(
                    Metric::TotalMemory,
                    without(attr@, ' '),
                    byte_quantity(without(attr@, ' '), true),
                    amount,
                ),
                tell_reason,
            ),
{
    if lacks_body(item) {
        return Err(ConfigError::ModuleWithoutBody);
    }
    let text = strip_blanks(attr);
    rewrite_for(item, crate::resource::check_mem_condition(text), tell_reason)
}

/// The check of a function that runs where the host has as much memory
/// installed as `attr` asks for. The amount is read when the test runs; a
/// text that is no byte quantity is a fault now.
pub fn runtime_mem(attr: &str, decl: &FnDecl) -> (r: Result<RuntimeCheck, ConfigError>)
    ensures
        match r {
            Ok(check) => byte_quantity(without(attr@, ' '), true) is Some && is_check_of(
                check,
                Condition::Size(Metric::TotalMemory),
                attr@,
                *decl,
            ),
            Err(fault) => byte_quantity(without(attr@, ' '), true) is None && fault
                == ConfigError::BadMemorySize,
        },
{
    let check = runtime_check(Condition::Size(Metric::TotalMemory), attr, decl);
    match crate::resource::check_size_text(Metric::TotalMemory, check.attr.as_str()) {
        Ok(_) => Ok(check),
        Err(fault) => Err(fault),
    }
}

/// The check of a function that runs where the host has as much memory in no
/// use as `attr` asks for. The amount is read when the test runs; a text that
/// is no byte quantity is a fault now.
pub fn runtime_free_mem(attr: &str, decl: &FnDecl) -> (r: Result<RuntimeCheck, ConfigError>)
    ensures
        match r {
            Ok(check) => byte_quantity(without(attr@, ' '), true) is Some && is_check_of(
                check,
                Condition::Size(Metric::FreeMemory),
                attr@,
                *decl,
            ),
            Err(fault) => byte_quantity(without(attr@, ' '), true) is None && fault
                == ConfigError::BadMemorySize,
        },
{
    let check = runtime_check(Condition::Size(Metric::FreeMemory), attr, decl);
    match crate::resource::check_size_text(Metric::FreeMemory, check.attr.as_str()) {
        Ok(_) => Ok(check),
        Err(fault) => Err(fault),
    }
}

/// The check of a function that runs where the host has as much memory to be
/// had as `attr` asks for. The amount is read when the test runs; a text that
/// is no byte quantity is a fault now.
pub fn runtime_available_mem(attr: &str, decl: &FnDecl) -> (r: Result<RuntimeCheck, ConfigError>)
    ensures
        match r {
            Ok(check) => byte_quantity(without(attr@, ' '), true) is Some && is_check_of(
                check,
                Condition::Size(Metric::AvailableMemory),
                attr@,
                *decl,
            ),
            Err(fault) => byte_quantity(without(attr@, ' '), true) is None && fault
                == ConfigError::BadMemorySize,
        },
{
    let check = runtime_check(Condition::Size(Metric::AvailableMemory), attr, decl);
    match crate::resource::check_size_text(Metric::AvailableMemory, check.attr.as_str()) {
        Ok(_) => Ok(check),
        Err(fault) => Err(fault),
    }
}

/// Lets the annotated test or module of tests run where the host has as much
/// swap space as `attr` asks for. A text that is no byte quantity is a fault.
pub fn swap(
    attr: &str,
    item: &Annotated,
    tell_reason: bool,
) -> (r: Result<Rewrite, ConfigError>)
    ensures
        has_no_body(*item) ==> r == Err::<Rewrite, ConfigError>(ConfigError::ModuleWithoutBody),
        !has_no_body(*item) ==> exists|amount: u64|
            is_rewrite_for(
                r,
                *item,
                #[trigger] size_verdict(
                    Metric::TotalSwap,
                    without(attr@, ' '),
                    byte_quantity(without(attr@, ' '), true),
                    amount,
                ),
                tell_reason,
            ),
{
    if lacks_body(item) {
        return Err(ConfigError::ModuleWithoutBody);
    }
    let text = strip_blanks(attr);
    rewrite_for(item, crate::resource::check_swap_condition(text), tell_reason)
}

/// The check of a function that runs where the host has as much swap space as
/// `attr` asks for. The amount is read when the test runs; a text that is no
/// byte quantity is a fault now.
pub fn runtime_swap(attr: &str, decl: &FnDecl) -> (r: Result<RuntimeCheck, ConfigError>)
    ensures
        match r {
            Ok(check) => byte_quantity(without(attr@, ' '), true) is Some && is_check_of(
                check,
                Condition::Size(Metric::TotalSwap),
                attr@,
                *decl,
            ),
            Err(fault) => byte_quantity(without(attr@, ' '), true) is None && fault
                == ConfigError::BadSwapSize,
        },
{
    let check = runtime_check(Condition::Size(Metric::TotalSwap), attr, decl);
    match crate::resource::check_size_text(Metric::TotalSwap, check.attr.as_str()) {
        Ok(_) => Ok(check),
        Err(fault) => Err(fault),
    }
}

/// The check of a function that runs where the host has as much swap space in
/// no use as `attr` asks for. The amount is read when the test runs; a text
/// that is no byte quantity is a fault now.
pub fn runtime_free_swap(attr: &str, decl: &FnDecl) -> (r: Result<RuntimeCheck, ConfigError>)
    ensures
        match r {
            Ok(check) => byte_quantity(without(attr@, ' '), true) is Some && is_check_of(
                check,
                Condition::Size(Metric::FreeSwap),
                attr@,
                *decl,
            ),
            Err(fault) => byte_quantity(without(attr@, ' '), true) is None && fault
                == ConfigError::BadSwapSize,
        },
{
    let check = runtime_check(Condition::Size(Metric::FreeSwap), attr, decl);
    match crate::resource::check_size_text(Metric::FreeSwap, check.attr.as_str()) {
        Ok(_) => Ok(check),
        Err(fault) => Err(fault),
    }
}

/// Lets the annotated test or module of tests run where the host has as many
/// logical cores as `attr` asks for. A text that is no count is a fault.
pub fn cpu_core(
    attr: &str,
    item: &Annotated,
    tell_reason: bool,
) -> (r: Result<Rewrite, ConfigError>)
    ensures
        has_no_body(*item) ==> r == Err::<Rewrite, ConfigError>(ConfigError::ModuleWithoutBody),
        !has_no_body(*item) ==> exists|cores: usize|
            is_rewrite_for(
                r,
                *item,
                #[trigger] cores_verdict(false, without(attr@, ' '), cores),
                tell_reason,
            ),
{
    if lacks_body(item) {
        return Err(ConfigError::ModuleWithoutBody);
    }
    let text = strip_blanks(attr);
    rewrite_for(item, crate::resource::check_cpu_core_condition(text), tell_reason)
}

/// The check of a function that runs where the host has as many logical cores
/// as `attr` asks for. The cores are counted when the test runs; a text that
/// is no count is a fault now.
pub fn runtime_cpu_core(attr: &str, decl: &FnDecl) -> (r: Result<RuntimeCheck, ConfigError>)
    ensures
        match r {
            Ok(check) => count_value(without(attr@, ' ')) is Some && is_check_of(
                check,
                Condition::CpuCore,
                attr@,
                *decl,
            ),
            Err(fault) => count_value(without(attr@, ' ')) is None && fault
                == ConfigError::BadCoreCount,
        },
{
    let check = runtime_check(Condition::CpuCore, attr, decl);
    match count_text_ok(check.attr.as_str(), false) {
        Ok(_) => Ok(check),
        Err(fault) => Err(fault),
    }
}

/// Lets the annotated test or module of tests run where the host has as many
/// physical cores as `attr` asks for. A text that is no count is a fault.
pub fn phy_core(
    attr: &str,
    item: &Annotated,
    tell_reason: bool,
) -> (r: Result<Rewrite, ConfigError>)
    ensures
        has_no_body(*item) ==> r == Err::<Rewrite, ConfigError>(ConfigError::ModuleWithoutBody),
        !has_no_body(*item) ==> exists|cores: usize|
            is_rewrite_for(
                r,
                *item,
                #[trigger] cores_verdict(true, without(attr@, ' '), cores),
                tell_reason,
            ),
{
    if lacks_body(item) {
        return Err(ConfigError::ModuleWithoutBody);
    }
    let text = strip_blanks(attr);
    rewrite_for(item, crate::resource::check_phy_core_condition(text), tell_reason)
}

/// The check of a function that runs where the host has as many physical
/// cores as `attr` asks for. The cores are counted when the test runs; a text
/// that is no count is a fault now.
pub fn runtime_phy_cpu_core(attr: &str, decl: &FnDecl) -> (r: Result<RuntimeCheck, ConfigError>)
    ensures
        match r {
            Ok(check) => count_value(without(attr@, ' ')) is Some && is_check_of(
                check,
                Condition::PhyCore,
                attr@,
                *decl,
            ),
            Err(fault) => count_value(without(attr@, ' ')) is None && fault
                == ConfigError::BadPhysicalCoreCount,
        },
{
    let check = runtime_check(Condition::PhyCore, attr, decl);
    match count_text_ok(check.attr.as_str(), true) {
        Ok(_) => Ok(check),
        Err(fault) => Err(fault),
    }
}

/// Lets the annotated test or module of tests run where the executables that
/// `attr` asks for are found: all of a list with commas, one of a list with
/// `||`. A list with both is a fault.
pub fn executable(
    attr: &str,
    item: &Annotated,
    tell_reason: bool,
) -> (r: Result<Rewrite, ConfigError>)
    ensures
        has_no_body(*item) ==> r == Err::<Rewrite, ConfigError>(ConfigError::ModuleWithoutBody),
        !has_no_body(*item) ==> exists|found: Seq<bool>|
            is_rewrite_for(
                r,
                *item,
                #[trigger] executable_verdict(without(attr@, ' '), found),
                tell_reason,
            ),
{
    if lacks_body(item) {
        return Err(ConfigError::ModuleWithoutBody);
    }
    let text = strip_blanks(attr);
    rewrite_for(item, crate::executable::check_executable_condition(text), tell_reason)
}

/// The check of a function that runs where the executables that `attr` asks
/// for are found. They are looked up when the test runs; a list with both `,`
/// and `||` is a fault now.
pub fn runtime_executable(attr: &str, decl: &FnDecl) -> (r: Result<RuntimeCheck, ConfigError>)
    ensures
        match r {
            Ok(check) => !is_mixed(without(attr@, ' ')) && is_check_of(
                check,
                Condition::Executable,
                attr@,
                *decl,
            ),
            Err(fault) => is_mixed(without(attr@, ' ')) && fault == ConfigError::MixedCombinators,
        },
{
    let check = runtime_check(Condition::Executable, attr, decl);
    match crate::executable::parse_executables(check.attr.as_str()) {
        Ok(_) => Ok(check),
        Err(fault) => Err(fault),
    }
}

/// The check of a function that runs unless the function that `attr` names
/// gives a reason to skip it. That function is called when the test runs.
pub fn runtime_ignore_if(attr: &str, decl: &FnDecl) -> (check: RuntimeCheck)
    ensures
        is_check_of(check, Condition::IgnoreIf, attr@, *decl),
{
    runtime_check(Condition::IgnoreIf, attr, decl)
}

/// Lets the annotated test or module of tests run where the host is in one of
/// the time zones that `attr` lists. An ambiguous abbreviation is a fault.
pub fn timezone(
    attr: &str,
    item: &Annotated,
    tell_reason: bool,
) -> (r: Result<Rewrite, ConfigError>)
    ensures
        has_no_body(*item) ==> r == Err::<Rewrite, ConfigError>(ConfigError::ModuleWithoutBody),
        !has_no_body(*item) ==> exists|minutes: int|
            is_rewrite_for(
                r,
                *item,
                #[trigger] tz_verdict(without(attr@, ' '), minutes),
                tell_reason,
            ),
{
    if lacks_body(item) {
        return Err(ConfigError::ModuleWithoutBody);
    }
    let text = strip_blanks(attr);
    rewrite_for(item, crate::timezone::check_tz_condition(text), tell_reason)
}

/// The check of a function that runs where the host is in one of the time
/// zones that `attr` lists. The zone of the host is read when the test runs;
/// an ambiguous abbreviation is a fault now.
pub fn runtime_timezone(attr: &str, decl: &FnDecl) -> (r: Result<RuntimeCheck, ConfigError>)
    ensures
        match r {
            Ok(check) => first_ambiguous(entries(without(attr@, ' '))) is None && is_check_of(
                check,
                Condition::Timezone,
                attr@,
                *decl,
            ),
            Err(fault) => first_ambiguous(entries(without(attr@, ' '))) == Some(fault),
        },
{
    let check = runtime_check(Condition::Timezone, attr, decl);
    match crate::timezone::check_tz_text(check.attr.as_str()) {
        Ok(_) => Ok(check),
        Err(fault) => Err(fault),
    }
}

fn count_text_ok(text: &str, physical: bool) -> (r: Result<(), ConfigError>)
    ensures
        r is Err <==> count_value(text@) is None,
        r matches Err(fault) ==> fault == (if physical {
            ConfigError::BadPhysicalCoreCount
        } else {
            ConfigError::BadCoreCount
        }),
{
    let digits = crate::text::chars_of(text);
    match crate::number::parse_count(&digits) {
        Some(_) => Ok(()),
        None => if physical {
            Err(ConfigError::BadPhysicalCoreCount)
        } else {
            Err(ConfigError::BadCoreCount)
        },
    }
}

/// Guards the annotated test by the lock that `attr` names. A lock stands
/// on a function only: on a module it is a fault.
pub fn lock(attr: &str, item: &Annotated) -> (r: Result<LockPlan, ConfigError>)
    ensures
        match *item {
            Annotated::Mod { .. } => r == Err::<LockPlan, ConfigError>(ConfigError::LockOnModule),
            Annotated::Fn(decl) => match r {
                Err(fault) => fault == (if lock_wait(attr@) is None {
                    ConfigError::BadLockWait
                } else {
                    ConfigError::BeforeSerial
                }) && (lock_wait(attr@) is None || marked_serial(decl.attrs@)),
                Ok(plan) => {
                    &&& !marked_serial(decl.attrs@)
                    &&& plan.name@ == lock_entries(attr@)[0]
                    &&& lock_wait(attr@) == Some(plan.wait_seconds)
                    &&& plan.add_test == !marked_test(decl.attrs@)
                },
            },
        },
{
    match item {
        Annotated::Mod { .. } => Err(ConfigError::LockOnModule),
        Annotated::Fn(decl) => crate::lock::lock_macro(&decl.attrs, attr),
    }
}

/// The names of the modules whose tests a runner takes, as `input` lists
/// them.
pub fn runner(input: &str) -> (names: Vec<String>)
    ensures
        string_views(names@) == trimmed_entries(input@),
{
    crate::runtime::runner(input)
}

/// The names of the modules whose tests a runner of asynchronous tests
/// takes, as `input` lists them.
pub fn tokio_runner(input: &str) -> (names: Vec<String>)
    ensures
        string_views(names@) == trimmed_entries(input@),
{
    crate::runtime::tokio_runner(input)
}

/// What the annotated module holds, as a module of tests that are checked
/// when they run: whether it has a fixture, and the names of its tests. It
/// is a fault where the module has no body, where it is marked to build for
/// tests only, and where an item is faulty.
pub fn module(attrs: &Vec<Attribute>, items: Option<&Vec<Item>>) -> (r: Result<
    RuntimeModule,
    ConfigError,
>)
    ensures
        match r {
            Err(fault) => fault == (if items is None {
                ConfigError::ModuleWithoutBody
            } else if marked_test_cfg(attrs@) {
                ConfigError::TestCfgOnRuntimeModule
            } else {
                first_fault(items->0@)->0
            }) && (items is None || marked_test_cfg(attrs@) || first_fault(items->0@) is Some),
            Ok(found) => {
                &&& items is Some
                &&& !marked_test_cfg(attrs@)
                &&& first_fault(items->0@) is None
                &&& found.has_fixture == declares_fixture(items->0@)
                &&& string_views(found.async_tests@) == test_names(items->0@, true)
                &&& string_views(found.sync_tests@) == test_names(items->0@, false)
            },
        },
{
    crate::runtime::module(attrs, items)
}

} // verus!
