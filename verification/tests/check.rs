use test_with::check::{
    hand_back, judge_kind, lets_body_run, nothing_probed, probe_host, Condition, Probed,
};
use test_with::error::ConfigError;
use test_with::item::FnDecl;
use test_with::net::{check_addresses, Ping};
use test_with::resource::{judge_report, MemoryReport, Metric};

fn probed() -> Probed {
    nothing_probed()
}

fn decl() -> FnDecl {
    FnDecl { attrs: vec![], name: "t".to_string(), is_async: false, has_output: false }
}

#[test]
fn nothing_probed_satisfies_nothing_of_the_host() {
    let p = probed();
    assert_eq!(p.uid, u32::MAX);
    assert_eq!(p.offset_minutes, i32::MIN);
    assert_eq!(judge_kind(Condition::Root, "", &p).unwrap().0, false);
    assert_eq!(judge_kind(Condition::Timezone, "0", &p).unwrap().0, false);
    assert_eq!(judge_kind(Condition::CpuCore, "1", &p).unwrap().0, false);
    assert_eq!(judge_kind(Condition::File, "/", &p).unwrap().0, false);
    assert_eq!(judge_kind(Condition::Group, "wheel", &p).unwrap().0, false);
    assert_eq!(judge_kind(Condition::User, "root", &p).unwrap().0, false);
    assert_eq!(judge_kind(Condition::Size(Metric::TotalMemory), "1B", &p).unwrap().0, false);
}

#[test]
fn the_time_zone_check_runs_the_body_on_a_host_in_the_zone() {
    let check = test_with::runtime_timezone("8", &decl()).unwrap();
    assert_eq!(check.kind, Condition::Timezone);
    let mut p = probed();
    p.offset_minutes = 480;
    assert!(check.lets_body_run(&p));
    assert_eq!(check.hand_back(&p, None), Ok(()));
    p.offset_minutes = 0;
    assert!(!check.lets_body_run(&p));
    assert_eq!(
        check.hand_back(&p, None),
        Err("rt-ignored: because the test case not run in following timezone:\n8\n".to_string())
    );
    let by_name = test_with::runtime_timezone("UTC", &decl()).unwrap();
    assert_eq!(by_name.hand_back(&p, None), Ok(()));
}

#[test]
fn the_executable_check_skips_where_the_name_is_not_found() {
    let check = test_with::runtime_executable("non", &decl()).unwrap();
    assert_eq!(check.kind, Condition::Executable);
    let mut p = probed();
    p.each = vec![false];
    assert!(!check.lets_body_run(&p));
    assert_eq!(
        check.hand_back(&p, None),
        Err("rt-ignored: because executable not found: non".to_string())
    );
    assert_eq!(
        check.hand_back(&p, Some("never ran".to_string())),
        Err("rt-ignored: because executable not found: non".to_string())
    );
    p.each = vec![true];
    assert!(check.lets_body_run(&p));
    assert_eq!(check.hand_back(&p, None), Ok(()));
    assert_eq!(check.hand_back(&p, Some("boom".to_string())), Err("boom".to_string()));
}

#[test]
fn set_and_unset_variables_are_told_apart() {
    let mut p = probed();
    p.set_vars = vec!["PWD".to_string()];
    let set = test_with::runtime_env("PWD", &decl());
    let unset = test_with::runtime_no_env("PWD", &decl());
    assert_eq!(set.hand_back(&p, None), Ok(()));
    assert_eq!(
        unset.hand_back(&p, None),
        Err("rt-ignored: because variable PWD was found".to_string())
    );
    p.set_vars = vec![];
    assert_eq!(
        set.hand_back(&p, None),
        Err("rt-ignored: because variable PWD not found".to_string())
    );
    assert_eq!(unset.hand_back(&p, None), Ok(()));
}

#[test]
fn each_kind_is_judged_by_its_own_readings() {
    let mut p = probed();
    p.each = vec![false];
    p.pings = vec![Ping::Silent];
    let reason = |kind, text: &str, p: &Probed| judge_kind(kind, text, p).unwrap().1;
    assert_eq!(reason(Condition::File, "/a", &p), "because file not found: /a");
    assert_eq!(reason(Condition::Path, "/a", &p), "because path not found: /a");
    assert_eq!(reason(Condition::Http, "a.com", &p), "because http://a.com not response");
    assert_eq!(reason(Condition::Https, "a.com", &p), "because https://a.com not response");
    assert_eq!(reason(Condition::Tcp, "a:1", &p), "because fail to connect socket a:1");
    assert_eq!(reason(Condition::Echo, "::1", &p), "because ip ::1 not response");
    assert_eq!(reason(Condition::Executable, "non", &p), "because executable not found: non");
    assert_eq!(reason(Condition::Root, "", &p), "because this case should run with root");
    assert_eq!(
        reason(Condition::Group, "wheel", &p),
        "because this case should run user in group wheel"
    );
    assert_eq!(reason(Condition::User, "me", &p), "because this case should run with user me");
    assert_eq!(reason(Condition::CpuCore, "2", &p), "because the cpu core less than 2");
    assert_eq!(reason(Condition::PhyCore, "2", &p), "because the physical cpu core less than 2");
    assert_eq!(
        reason(Condition::Size(Metric::FreeMemory), "1KB", &p),
        "because the memory less than 1KB"
    );
    assert_eq!(
        reason(Condition::Size(Metric::FreeSwap), "1KB", &p),
        "because the swap less than 1KB"
    );
    p.uid = 0;
    p.groups = vec!["wheel".to_string()];
    p.user = Some("me".to_string());
    p.logical_cores = 2;
    p.physical_cores = 1;
    p.memory.free_memory = 1000;
    assert_eq!(judge_kind(Condition::Root, "", &p), Ok((true, String::new())));
    assert_eq!(judge_kind(Condition::Group, "wheel", &p), Ok((true, String::new())));
    assert_eq!(judge_kind(Condition::User, "me", &p), Ok((true, String::new())));
    assert_eq!(judge_kind(Condition::CpuCore, "2", &p), Ok((true, String::new())));
    assert_eq!(judge_kind(Condition::PhyCore, "2", &p).unwrap().0, false);
    assert_eq!(
        judge_kind(Condition::Size(Metric::FreeMemory), "1KB", &p),
        Ok((true, String::new()))
    );
    assert_eq!(judge_kind(Condition::Size(Metric::TotalMemory), "1KB", &p).unwrap().0, false);
}

#[test]
fn a_reason_to_skip_is_handed_back() {
    let mut p = probed();
    assert!(lets_body_run(Condition::IgnoreIf, "something_happened", &p));
    assert_eq!(hand_back(Condition::IgnoreIf, "something_happened", &p, None), Ok(()));
    p.skip = Some("because something happened".to_string());
    assert!(!lets_body_run(Condition::IgnoreIf, "something_happened", &p));
    assert_eq!(
        hand_back(Condition::IgnoreIf, "something_happened", &p, None),
        Err("rt-ignored: because something happened".to_string())
    );
}

#[test]
fn a_faulty_text_fails_the_check() {
    let p = probed();
    assert!(!lets_body_run(Condition::Executable, "a,b||c", &p));
    assert_eq!(
        hand_back(Condition::Executable, "a,b||c", &p, None),
        Err("',' and '||' can not be used at the same time".to_string())
    );
    assert_eq!(
        judge_kind(Condition::Timezone, "PST", &p),
        Err(ConfigError::AmbiguousPst)
    );
}

#[test]
fn the_host_is_probed_for_what_the_kind_reads() {
    let files = probe_host(Condition::File, "/, /nothing/here");
    assert_eq!(files.each, vec![false, false]);
    let paths = probe_host(Condition::Path, "/, /nothing/here");
    assert_eq!(paths.each, vec![true, false]);
    assert_eq!(paths.uid, u32::MAX);
    let found = probe_host(Condition::Executable, "sh||a_ridiculous_executable");
    assert_eq!(found.each, vec![true, false]);
    assert_eq!(probe_host(Condition::Executable, "a,b||c").each, Vec::<bool>::new());
    assert!(probe_host(Condition::CpuCore, "1").logical_cores >= 1);
    assert_eq!(probe_host(Condition::CpuCore, "1").physical_cores, 0);
    assert!(probe_host(Condition::PhyCore, "1").physical_cores >= 1);
    let zone = probe_host(Condition::Timezone, "0").offset_minutes;
    assert!(-1440 < zone && zone < 1440);
    assert!(probe_host(Condition::Size(Metric::TotalMemory), "1B").memory.total_memory > 0);
    assert_eq!(probe_host(Condition::Env, "PWD"), nothing_probed());
    assert_eq!(probe_host(Condition::Tcp, "a:1"), nothing_probed());
    assert_eq!(probe_host(Condition::IgnoreIf, "f"), nothing_probed());
}

#[test]
fn a_floor_is_held_against_the_reading_of_its_metric() {
    let report = MemoryReport {
        total_memory: 16_000,
        free_memory: 4_000,
        available_memory: 8_000,
        total_swap: 2_000,
        free_swap: 1_000,
    };
    assert_eq!(judge_report(Metric::TotalMemory, "10KB", &report), Ok((true, String::new())));
    assert_eq!(
        judge_report(Metric::AvailableMemory, "10KB", &report),
        Ok((false, "because the memory less than 10KB".to_string()))
    );
    assert_eq!(
        judge_report(Metric::TotalSwap, "10KB", &report),
        Ok((false, "because the swap less than 10KB".to_string()))
    );
    assert_eq!(judge_report(Metric::FreeSwap, "1KB", &report), Ok((true, String::new())));
    assert_eq!(judge_report(Metric::FreeSwap, "x", &report), Err(ConfigError::BadSwapSize));
}

#[test]
fn entries_that_are_no_addresses_are_a_fault() {
    assert_eq!(check_addresses("10.0.0.1,::1", &vec![true, true]), Ok(()));
    assert_eq!(
        check_addresses("10.0.0.1,nowhere", &vec![true, false]),
        Err(ConfigError::BadIpAddress)
    );
    assert_eq!(check_addresses("nowhere", &vec![false]), Err(ConfigError::BadIpAddress));
    assert_eq!(check_addresses("10.0.0.1", &vec![true, false]), Ok(()));
    assert_eq!(check_addresses("10.0.0.1,10.0.0.2", &vec![true]), Ok(()));
}
