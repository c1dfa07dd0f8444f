//! Conditions on what the host has: memory, swap space and processor cores,
//! each held against a floor.

use vstd::prelude::*;
use crate::error::ConfigError;
use crate::number::{count_value, parse_count};
use crate::reason::is_outcome;
use crate::text::{append_str, chars_of, string_of};

verus! {

/// What is measured in bytes.
#[derive(Debug, Clone, Copy, PartialEq, Eq, Structural)]
pub enum Metric {
    /// The memory that is installed.
    TotalMemory,
    /// The memory that is in no use.
    FreeMemory,
    /// The memory that can be had for use.
    AvailableMemory,
    /// The swap space that is set up.
    TotalSwap,
    /// The swap space that is in no use.
    FreeSwap,
}

impl Metric {
    /// Whether the metric is one of swap space.
    pub open spec fn is_swap(self) -> bool {
        self is TotalSwap || self is FreeSwap
    }
}

/// What the host reports of its memory and its swap space, in bytes.
#[derive(Debug, Clone, Copy, PartialEq, Eq, Structural)]
pub struct MemoryReport {
    /// The memory that is installed.
    pub total_memory: u64,
    /// The memory that is in no use.
    pub free_memory: u64,
    /// The memory that can be had for use.
    pub available_memory: u64,
    /// The swap space that is set up.
    pub total_swap: u64,
    /// The swap space that is in no use.
    pub free_swap: u64,
}

impl MemoryReport {
    /// What the report holds of `metric`.
    pub open spec fn amount(self, metric: Metric) -> u64 {
        match metric {
            Metric::TotalMemory => self.total_memory,
            Metric::FreeMemory => self.free_memory,
            Metric::AvailableMemory => self.available_memory,
            Metric::TotalSwap => self.total_swap,
            Metric::FreeSwap => self.free_swap,
        }
    }
}

/// The number of bytes that `text` stands for as a byte quantity such as
/// `100GB`, as the crate byte_unit reads it, where `ignore_case` lets a small
/// `b` stand for bytes too; nothing where it is none.
pub uninterp spec fn byte_quantity(text: Seq<char>, ignore_case: bool) -> Option<u128>;

/// `byte_unit::Byte::parse_str` with `Byte::as_u128`: the number of bytes
/// that `text` stands for. The answer is a function of the two arguments
/// alone and is only named.
#[verifier::external_body]
fn parse_byte_quantity(text: &str, ignore_case: bool) -> (r: Option<u128>)
    ensures
        r == byte_quantity(text@, ignore_case),
{
    match byte_unit::Byte::parse_str(text, ignore_case) {
        Ok(bytes) => Some(bytes.as_u128()),
        Err(_) => None,
    }
}

/// `sysinfo::System::new_with_specifics`, asking for memory and swap space
/// and nothing else, and the readings `total_memory`, `free_memory`,
/// `available_memory`, `total_swap` and `free_swap` of what it hands back:
/// what the host reports of them now. The numbers depend on the host, so
/// nothing is claimed of them.
#[verifier::external_body]
pub(crate) fn read_memory() -> MemoryReport {
    let system = sysinfo::System::new_with_specifics(
        sysinfo::RefreshKind::nothing().with_memory(sysinfo::MemoryRefreshKind::everything()),
    );
    MemoryReport {
        total_memory: system.total_memory(),
        free_memory: system.free_memory(),
        available_memory: system.available_memory(),
        total_swap: system.total_swap(),
        free_swap: system.free_swap(),
    }
}

/// `num_cpus::get`: the number of logical cores that this process can use.
/// The crate promises at least one.
#[verifier::external_body]
pub(crate) fn logical_cores() -> (n: usize)
    ensures
        n >= 1,
{
    num_cpus::get()
}

/// `num_cpus::get_physical`: the number of physical cores of the host. The
/// crate promises at least one.
#[verifier::external_body]
pub(crate) fn physical_cores() -> (n: usize)
    ensures
        n >= 1,
{
    num_cpus::get_physical()
}

/// The verdict of a floor on `metric`, written as `text`, where the text
/// stands for `floor` bytes and the host has `amount`: a fault where the
/// text is no byte quantity, else satisfied where the host has no less.
pub open spec fn size_verdict(metric: Metric, text: Seq<char>, floor: Option<u128>, amount: u64)
    -> Result<(bool, Seq<char>), ConfigError> {
    match floor {
        None => Err(
            if metric.is_swap() {
                ConfigError::BadSwapSize
            } else {
                ConfigError::BadMemorySize
            },
        ),
        Some(least) => if amount >= least {
            Ok((true, Seq::empty()))
        } else if metric.is_swap() {
            Ok((false, "because the swap less than "@ + text))
        } else {
            Ok((false, "because the memory less than "@ + text))
        },
    }
}

/// The verdict of a floor on the cores, written as `text`, on a host with
/// `cores` of them, physical ones where `physical` holds: a fault where the
/// text is no count, else satisfied where the host has no less.
pub open spec fn cores_verdict(physical: bool, text: Seq<char>, cores: usize) -> Result<
    (bool, Seq<char>),
    ConfigError,
> {
    match count_value(text) {
        None => Err(
            if physical {
                ConfigError::BadPhysicalCoreCount
            } else {
                ConfigError::BadCoreCount
            },
        ),
        Some(least) => if cores >= least {
            Ok((true, Seq::empty()))
        } else if physical {
            Ok((false, "because the physical cpu core less than "@ + text))
        } else {
            Ok((false, "because the cpu core less than "@ + text))
        },
    }
}

/// The verdict of a floor on `metric`, written as `text`, where the text
/// stands for `floor` bytes and the host has `amount`.
pub fn judge_size(metric: Metric, text: &str, floor: Option<u128>, amount: u64) -> (r: Result<
    (bool, String),
    ConfigError,
>)
    ensures
        is_outcome(r, size_verdict(metric, text@, floor, amount)),
        r matches Ok(v) ==> (v.0 <==> v.1@.len() == 0),
{
    let swap = match metric {
        Metric::TotalSwap => true,
        Metric::FreeSwap => true,
        _ => false,
    };
    let least = match floor {
        None => {
            return Err(
                if swap {
                    ConfigError::BadSwapSize
                } else {
                    ConfigError::BadMemorySize
                },
            );
        },
        Some(least) => least,
    };
    if amount as u128 >= least {
        return Ok((true, String::new()));
    }
    let mut reason: Vec<char> = Vec::new();
    if swap {
        append_str(&mut reason, "because the swap less than ");
    } else {
        append_str(&mut reason, "because the memory less than ");
    }
    append_str(&mut reason, text);
    proof {
        reveal_strlit("because the swap less than ");
        reveal_strlit("because the memory less than ");
    }
    Ok((false, string_of(&reason)))
}

/// The verdict of a floor on the cores, written as `text`, on a host with
/// `cores` of them.
pub fn judge_cores(physical: bool, text: &str, cores: usize) -> (r: Result<
    (bool, String),
    ConfigError,
>)
    ensures
        is_outcome(r, cores_verdict(physical, text@, cores)),
        r matches Ok(v) ==> (v.0 <==> v.1@.len() == 0),
{
    let digits = chars_of(text);
    let least = match parse_count(&digits) {
        None => {
            return Err(
                if physical {
                    ConfigError::BadPhysicalCoreCount
                } else {
                    ConfigError::BadCoreCount
                },
            );
        },
        Some(least) => least,
    };
    if cores >= least {
        return Ok((true, String::new()));
    }
    let mut reason: Vec<char> = Vec::new();
    if physical {
        append_str(&mut reason, "because the physical cpu core less than ");
    } else {
        append_str(&mut reason, "because the cpu core less than ");
    }
    append_str(&mut reason, text);
    proof {
        reveal_strlit("because the physical cpu core less than ");
        reveal_strlit("because the cpu core less than ");
    }
    Ok((false, string_of(&reason)))
}

/// What the host has of `metric`, in bytes, as `report` tells it: the
/// reading that the metric names, and no other.
pub fn measure(report: &MemoryReport, metric: Metric) -> (amount: u64)
    ensures
        amount == report.amount(metric),
{
    match metric {
        Metric::TotalMemory => report.total_memory,
        Metric::FreeMemory => report.free_memory,
        Metric::AvailableMemory => report.available_memory,
        Metric::TotalSwap => report.total_swap,
        Metric::FreeSwap => report.free_swap,
    }
}

/// Whether the text of a floor in bytes is well formed: a fault where it
/// is no byte quantity. This is all that is checked of a floor before the
/// test runs.
pub fn check_size_text(metric: Metric, text: &str) -> (r: Result<(), ConfigError>)
    ensures
        r is Err <==> byte_quantity(text@, true) is None,
        r matches Err(fault) ==> fault == (if metric.is_swap() {
            ConfigError::BadSwapSize
        } else {
            ConfigError::BadMemorySize
        }),
{
    match parse_byte_quantity(text, true) {
        Some(_) => Ok(()),
        None => match metric {
            Metric::TotalSwap => Err(ConfigError::BadSwapSize),
            Metric::FreeSwap => Err(ConfigError::BadSwapSize),
            _ => Err(ConfigError::BadMemorySize),
        },
    }
}

/// The verdict of a floor on `metric`, written as `text`, on a host that
/// reports `report`: a fault where the text is no byte quantity, else
/// satisfied where the reading that the metric names is no less than the
/// bytes that the text stands for.
pub fn judge_report(metric: Metric, text: &str, report: &MemoryReport) -> (r: Result<
    (bool, String),
    ConfigError,
>)
    ensures
        is_outcome(
            r,
            size_verdict(metric, text@, byte_quantity(text@, true), report.amount(metric)),
        ),
        r is Err <==> byte_quantity(text@, true) is None,
        r matches Ok(v) ==> (v.0 <==> v.1@.len() == 0),
{
    let floor = parse_byte_quantity(text, true);
    judge_size(metric, text, floor, measure(report, metric))
}

/// Whether the host has as much of `metric` as `text` asks for. The amount
/// is read at the call; the outcome is the verdict for that amount and for
/// the number of bytes that the text stands for.
pub fn check_size_condition(metric: Metric, text: &str) -> (r: Result<(bool, String), ConfigError>)
    ensures
        r is Err <==> byte_quantity(text@, true) is None,
        exists|amount: u64|
            is_outcome(r, #[trigger] size_verdict(metric, text@, byte_quantity(text@, true), amount)),
        r matches Ok(v) ==> (v.0 <==> v.1@.len() == 0),
{
    let report = read_memory();
    judge_report(metric, text, &report)
}

/// Whether the installed memory of the host is no less than
/// `mem_size_str` asks for.
pub fn check_mem_condition(mem_size_str: String) -> (r: Result<(bool, String), ConfigError>)
    ensures
        r is Err <==> byte_quantity(mem_size_str@, true) is None,
        exists|amount: u64|
            is_outcome(
                r,
                #[trigger] size_verdict(
                    Metric::TotalMemory,
                    mem_size_str@,
                    byte_quantity(mem_size_str@, true),
                    amount,
                ),
            ),
        r matches Ok(v) ==> (v.0 <==> v.1@.len() == 0),
{
    check_size_condition(Metric::TotalMemory, mem_size_str.as_str())
}

/// Whether the swap space of the host is no less than `swap_size_str` asks
/// for.
pub fn check_swap_condition(swap_size_str: String) -> (r: Result<(bool, String), ConfigError>)
    ensures
        r is Err <==> byte_quantity(swap_size_str@, true) is None,
        exists|amount: u64|
            is_outcome(
                r,
                #[trigger] size_verdict(
                    Metric::TotalSwap,
                    swap_size_str@,
                    byte_quantity(swap_size_str@, true),
                    amount,
                ),
            ),
        r matches Ok(v) ==> (v.0 <==> v.1@.len() == 0),
{
    check_size_condition(Metric::TotalSwap, swap_size_str.as_str())
}

/// Whether the host has as many logical cores as `core_limitation_str` asks
/// for. The host has at least one.
pub fn check_cpu_core_condition(core_limitation_str: String) -> (r: Result<
    (bool, String),
    ConfigError,
>)
    ensures
        exists|cores: usize|
            cores >= 1 && is_outcome(
                r,
                #[trigger] cores_verdict(false, core_limitation_str@, cores),
            ),
        r matches Ok(v) ==> (v.0 <==> v.1@.len() == 0),
{
    judge_cores(false, core_limitation_str.as_str(), logical_cores())
}

/// Whether the host has as many physical cores as `core_limitation_str`
/// asks for. The host has at least one.
pub fn check_phy_core_condition(core_limitation_str: String) -> (r: Result<
    (bool, String),
    ConfigError,
>)
    ensures
        exists|cores: usize|
            cores >= 1 && is_outcome(r, #[trigger] cores_verdict(true, core_limitation_str@, cores)),
        r matches Ok(v) ==> (v.0 <==> v.1@.len() == 0),
{
    judge_cores(true, core_limitation_str.as_str(), physical_cores())
}

/// A floor of one core is met on every host with a core.
pub proof fn law_one_core_is_enough(physical: bool, cores: usize)
    requires
        cores >= 1,
    ensures
        cores_verdict(physical, seq!['1'], cores) == Ok::<(bool, Seq<char>), ConfigError>(
            (true, Seq::empty()),
        ),
{
    let one = seq!['1'];
    assert(one.drop_last() == Seq::<char>::empty());
    assert(crate::number::decimal(one) == 1) by {
        reveal_with_fuel(crate::number::decimal, 2);
    }
    assert(crate::number::is_digit(one[0]));
    assert(count_value(one) == Some(1usize));
}

} // verus!
