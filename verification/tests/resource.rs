use test_with::error::ConfigError;
use test_with::resource::{
    check_cpu_core_condition, check_mem_condition, check_phy_core_condition, check_size_condition,
    check_size_text, check_swap_condition, judge_cores, judge_size, measure, MemoryReport,
    Metric,
};

#[test]
fn memory_below_the_floor() {
    assert_eq!(
        judge_size(Metric::TotalMemory, "100GB", Some(100_000_000_000), 8_000_000_000),
        Ok((false, "because the memory less than 100GB".to_string()))
    );
    assert_eq!(
        judge_size(Metric::FreeMemory, "100GB", Some(100_000_000_000), 0),
        Ok((false, "because the memory less than 100GB".to_string()))
    );
}

#[test]
fn memory_at_the_floor() {
    assert_eq!(
        judge_size(Metric::TotalMemory, "1KB", Some(1000), 1000),
        Ok((true, String::new()))
    );
    assert_eq!(
        judge_size(Metric::AvailableMemory, "1KB", Some(1000), 999),
        Ok((false, "because the memory less than 1KB".to_string()))
    );
    assert_eq!(
        judge_size(Metric::TotalMemory, "huge", Some(u128::MAX), u64::MAX),
        Ok((false, "because the memory less than huge".to_string()))
    );
}

#[test]
fn swap_below_the_floor() {
    assert_eq!(
        judge_size(Metric::TotalSwap, "9999GB", Some(9_999_000_000_000), 0),
        Ok((false, "because the swap less than 9999GB".to_string()))
    );
    assert_eq!(
        judge_size(Metric::FreeSwap, "0", Some(0), 0),
        Ok((true, String::new()))
    );
}

#[test]
fn text_that_is_no_byte_quantity() {
    assert_eq!(
        judge_size(Metric::TotalMemory, "much", None, 1),
        Err(ConfigError::BadMemorySize)
    );
    assert_eq!(
        judge_size(Metric::FreeSwap, "much", None, 1),
        Err(ConfigError::BadSwapSize)
    );
    assert_eq!(check_size_text(Metric::TotalMemory, "much"), Err(ConfigError::BadMemorySize));
    assert_eq!(check_size_text(Metric::TotalSwap, "GB"), Err(ConfigError::BadSwapSize));
    assert_eq!(check_size_text(Metric::TotalMemory, "100GB"), Ok(()));
    assert_eq!(check_size_text(Metric::TotalMemory, "1.5 GiB"), Ok(()));
    assert_eq!(check_mem_condition("much".to_string()), Err(ConfigError::BadMemorySize));
    assert_eq!(check_swap_condition("".to_string()), Err(ConfigError::BadSwapSize));
}

#[test]
fn the_host_is_measured() {
    assert_eq!(check_mem_condition("1B".to_string()), Ok((true, String::new())));
    assert_eq!(
        check_mem_condition("999999999GB".to_string()),
        Ok((false, "because the memory less than 999999999GB".to_string()))
    );
    assert_eq!(
        check_swap_condition("999999999GB".to_string()),
        Ok((false, "because the swap less than 999999999GB".to_string()))
    );
    assert_eq!(check_swap_condition("0B".to_string()), Ok((true, String::new())));
    assert_eq!(
        check_size_condition(Metric::FreeMemory, "999999999GB"),
        Ok((false, "because the memory less than 999999999GB".to_string()))
    );
}

#[test]
fn byte_units_are_read() {
    // A host with more than a kibibyte of memory meets these floors; none
    // meets an exabyte, and a yottabyte is more than a quantity can hold.
    assert_eq!(check_mem_condition("1KB".to_string()), Ok((true, String::new())));
    assert_eq!(check_mem_condition("1 KiB".to_string()), Ok((true, String::new())));
    assert_eq!(check_mem_condition("1kb".to_string()), Ok((true, String::new())));
    assert_eq!(
        check_mem_condition("1EB".to_string()),
        Ok((false, "because the memory less than 1EB".to_string()))
    );
    assert_eq!(check_mem_condition("1YB".to_string()), Err(ConfigError::BadMemorySize));
}

#[test]
fn cores_against_a_floor() {
    assert_eq!(judge_cores(false, "1", 1), Ok((true, String::new())));
    assert_eq!(judge_cores(false, "4", 8), Ok((true, String::new())));
    assert_eq!(
        judge_cores(false, "32", 8),
        Ok((false, "because the cpu core less than 32".to_string()))
    );
    assert_eq!(
        judge_cores(true, "32", 8),
        Ok((false, "because the physical cpu core less than 32".to_string()))
    );
    assert_eq!(judge_cores(true, "0", 0), Ok((true, String::new())));
}

#[test]
fn text_that_is_no_count() {
    assert_eq!(judge_cores(false, "many", 8), Err(ConfigError::BadCoreCount));
    assert_eq!(judge_cores(true, "-1", 8), Err(ConfigError::BadPhysicalCoreCount));
    assert_eq!(judge_cores(false, "", 8), Err(ConfigError::BadCoreCount));
    assert_eq!(check_cpu_core_condition("x".to_string()), Err(ConfigError::BadCoreCount));
    assert_eq!(check_phy_core_condition("x".to_string()), Err(ConfigError::BadPhysicalCoreCount));
}

#[test]
fn every_host_has_a_core() {
    assert_eq!(check_cpu_core_condition("1".to_string()), Ok((true, String::new())));
    assert_eq!(check_phy_core_condition("1".to_string()), Ok((true, String::new())));
    assert_eq!(
        check_cpu_core_condition("999999".to_string()),
        Ok((false, "because the cpu core less than 999999".to_string()))
    );
    assert_eq!(
        check_phy_core_condition("999999".to_string()),
        Ok((false, "because the physical cpu core less than 999999".to_string()))
    );
}

#[test]
fn each_metric_reads_its_own_number() {
    let report = MemoryReport {
        total_memory: 16_000,
        free_memory: 4_000,
        available_memory: 8_000,
        total_swap: 2_000,
        free_swap: 1_000,
    };
    assert_eq!(measure(&report, Metric::TotalMemory), 16_000);
    assert_eq!(measure(&report, Metric::FreeMemory), 4_000);
    assert_eq!(measure(&report, Metric::AvailableMemory), 8_000);
    assert_eq!(measure(&report, Metric::TotalSwap), 2_000);
    assert_eq!(measure(&report, Metric::FreeSwap), 1_000);
}
