use izolilib::cgroup::cgroup::{CGroup, FileWrite};
use izolilib::cgroup::cgroup_option::CGroupOption;
use izolilib::cgroup::cgroup_stat::CGroupStat;
use izolilib::cgroup::controller::Controller;
use izolilib::cgroup::cpu_limit::CpuLimit;
use izolilib::cgroup::limit_value::CGroupLimitValue;

#[test]
fn limit_u64_round_trips() {
    let values = [
        CGroupLimitValue::Max,
        CGroupLimitValue::Value(0u64),
        CGroupLimitValue::Value(u64::MAX),
    ];
    for v in values {
        let text = v.to_string();
        let back = CGroupLimitValue::<u64>::from_str(&text).unwrap();
        assert_eq!(back, v);
    }
}

#[test]
fn limit_u32_round_trips() {
    let values = [
        CGroupLimitValue::Max,
        CGroupLimitValue::Value(0u32),
        CGroupLimitValue::Value(u32::MAX),
    ];
    for v in values {
        let text = v.to_string();
        let back = CGroupLimitValue::<u32>::from_str(&text).unwrap();
        assert_eq!(back, v);
    }
}

#[test]
fn limit_value_formats() {
    assert_eq!(CGroupLimitValue::<u64>::Max.to_string(), "max");
    assert_eq!(CGroupLimitValue::<u64>::Value(0).to_string(), "0");
    assert_eq!(
        CGroupLimitValue::<u64>::Value(u64::MAX).to_string(),
        "18446744073709551615"
    );
    assert_eq!(CGroupLimitValue::<u32>::Value(1_048_576).to_string(), "1048576");
}

#[test]
fn limit_value_parses_max_with_whitespace() {
    assert_eq!(
        CGroupLimitValue::<u64>::from_str(" max \n"),
        Ok(CGroupLimitValue::Max)
    );
    assert_eq!(CGroupLimitValue::<u64>::from_str("max"), Ok(CGroupLimitValue::Max));
}

#[test]
fn limit_value_numeral_is_taken_untrimmed() {
    // The `max` token tolerates surrounding whitespace; a numeral does
    // not, matching the strict numeric parse.
    assert!(CGroupLimitValue::<u64>::from_str(" 7").is_err());
    assert!(CGroupLimitValue::<u64>::from_str("7\n").is_err());
    assert_eq!(
        CGroupLimitValue::<u64>::from_str("007"),
        Ok(CGroupLimitValue::Value(7))
    );
}

#[test]
fn limit_value_rejects_garbage_and_overflow() {
    assert!(CGroupLimitValue::<u64>::from_str("").is_err());
    assert!(CGroupLimitValue::<u64>::from_str("maximum").is_err());
    assert!(CGroupLimitValue::<u64>::from_str("-1").is_err());
    assert!(CGroupLimitValue::<u64>::from_str("18446744073709551616").is_err());
    assert!(CGroupLimitValue::<u32>::from_str("4294967296").is_err());
    assert_eq!(
        CGroupLimitValue::<u32>::from_str("4294967295"),
        Ok(CGroupLimitValue::Value(u32::MAX))
    );
}

#[test]
fn controller_names_round_trip() {
    let names = ["cpu", "cpuset", "memory", "io", "hugetlb", "misc", "pids", "rdma"];
    for name in names {
        let c = Controller::from_str(name).unwrap();
        assert_eq!(c.to_string(), name);
    }
}

#[test]
fn controller_strict_parse_rejects_unknown() {
    assert!(Controller::from_str("bogus").is_err());
    // The sentinel's own name is not parseable either.
    assert!(Controller::from_str("unknown").is_err());
    assert!(Controller::from_str("").is_err());
    assert!(Controller::from_str("Cpu").is_err());
}

#[test]
fn permissive_controller_read_maps_unknown() {
    let cg = CGroup::new("izoli");
    let cs = cg.get_controllers("cpu memory bogus\n");
    assert_eq!(
        cs,
        vec![Controller::Cpu, Controller::Memory, Controller::Unknown]
    );
    let cs = cg.get_subtree_control("cpuset pids\n");
    assert_eq!(cs, vec![Controller::Cpuset, Controller::Pids]);
}

#[test]
fn permissive_controller_read_of_empty_text_is_one_unknown() {
    // Splitting on single spaces yields one empty token for empty
    // text, and the permissive reader maps it to the sentinel.
    let cg = CGroup::new("izoli");
    assert_eq!(cg.get_controllers(""), vec![Controller::Unknown]);
}

#[test]
fn cpu_limit_parses_max_and_period() {
    let l = CpuLimit::from_str("max 100000").unwrap();
    assert_eq!(l.max, CGroupLimitValue::Max);
    assert_eq!(l.period, 100000);
    assert_eq!(l.to_string(), "max 100000");
}

#[test]
fn cpu_limit_round_trips_numeric_quota() {
    let l = CpuLimit {
        max: CGroupLimitValue::Value(250_000),
        period: 100_000,
    };
    let text = l.to_string();
    assert_eq!(text, "250000 100000");
    let back = CpuLimit::from_str(&text).unwrap();
    assert_eq!(back, l);
}

#[test]
fn cpu_limit_rejects_missing_or_bad_tokens() {
    assert!(CpuLimit::from_str("max").is_err());
    assert!(CpuLimit::from_str("100000").is_err());
    assert!(CpuLimit::from_str("bad 100000").is_err());
    assert!(CpuLimit::from_str("max abc").is_err());
    assert!(CpuLimit::from_str("").is_err());
}

#[test]
fn cpu_limit_ignores_extra_tokens() {
    let l = CpuLimit::from_str("max 100000 extra").unwrap();
    assert_eq!(l.max, CGroupLimitValue::Max);
    assert_eq!(l.period, 100000);
}

#[test]
fn stat_parses_both_counters() {
    let st = CGroupStat::from_str("nr_descendants 3\nnr_dying_descendants 1\n").unwrap();
    assert_eq!(
        st,
        CGroupStat {
            nr_descendants: 3,
            nr_dying_descendants: 1
        }
    );
}

#[test]
fn stat_ignores_unrecognized_keys() {
    let st = CGroupStat::from_str(
        "nr_descendants 3\nnr_subsys_cpu 9\nnr_dying_descendants 1\n",
    )
    .unwrap();
    assert_eq!(
        st,
        CGroupStat {
            nr_descendants: 3,
            nr_dying_descendants: 1
        }
    );
}

#[test]
fn stat_defaults_missing_counters_to_zero() {
    let st = CGroupStat::from_str("").unwrap();
    assert_eq!(
        st,
        CGroupStat {
            nr_descendants: 0,
            nr_dying_descendants: 0
        }
    );
    let st = CGroupStat::from_str("nr_descendants 5\n").unwrap();
    assert_eq!(st.nr_descendants, 5);
    assert_eq!(st.nr_dying_descendants, 0);
}

#[test]
fn stat_rejects_malformed_recognized_lines() {
    assert!(CGroupStat::from_str("nr_descendants x\n").is_err());
    assert!(CGroupStat::from_str("nr_descendants\n").is_err());
    assert!(CGroupStat::from_str("nr_dying_descendants 18446744073709551616\n").is_err());
}

#[test]
fn stat_later_lines_overwrite_earlier() {
    let st = CGroupStat::from_str("nr_descendants 3\nnr_descendants 7\n").unwrap();
    assert_eq!(st.nr_descendants, 7);
}

#[test]
fn get_stat_parses_the_stat_file_text() {
    let cg = CGroup::new("izoli");
    let st = cg.get_stat("nr_descendants 3\nnr_dying_descendants 1\n").unwrap();
    assert_eq!(st.nr_descendants, 3);
    assert_eq!(st.nr_dying_descendants, 1);
    assert!(cg.get_stat("nr_descendants ?\n").is_err());
}

#[test]
fn cgroup_paths_derive_from_the_fixed_root() {
    let cg = CGroup::new("izoli/box_1");
    assert_eq!(cg.get_root_path(), "/sys/fs/cgroup/izoli/box_1");
    assert_eq!(
        cg.get_file_path("cgroup.procs"),
        "/sys/fs/cgroup/izoli/box_1/cgroup.procs"
    );
    assert_eq!(cg.path, "izoli/box_1");
}

#[test]
fn procs_parse_strictly() {
    let cg = CGroup::new("izoli");
    assert_eq!(cg.get_procs("1\n2\n30\n").unwrap(), vec![1, 2, 30]);
    assert_eq!(cg.get_procs("").unwrap(), Vec::<u32>::new());
    assert!(cg.get_procs("1\nx\n2\n").is_err());
    assert!(cg.get_procs("1\n\n2\n").is_err());
    assert_eq!(cg.get_threads(" 5 \n").unwrap(), vec![5]);
}

#[test]
fn add_subtree_control_issues_one_signed_write() {
    let cg = CGroup::new("izoli");
    let w = cg.add_subtree_control(vec![Controller::Cpu, Controller::Memory]);
    assert_eq!(w.file, "cgroup.subtree_control");
    assert_eq!(w.data, "+cpu +memory");
}

#[test]
fn remove_subtree_control_issues_one_signed_write() {
    let cg = CGroup::new("izoli");
    let w = cg.remove_subtree_control(vec![Controller::Cpu, Controller::Memory]);
    assert_eq!(w.file, "cgroup.subtree_control");
    assert_eq!(w.data, "-cpu -memory");
}

#[test]
fn subtree_control_of_no_controllers_is_an_empty_payload() {
    let cg = CGroup::new("izoli");
    let w = cg.add_subtree_control(vec![]);
    assert_eq!(w.file, "cgroup.subtree_control");
    assert_eq!(w.data, "");
}

#[test]
fn depth_and_descendant_limits_read_and_write() {
    let cg = CGroup::new("izoli");
    assert_eq!(
        cg.get_max_depth("max\n").unwrap(),
        CGroupLimitValue::Max
    );
    assert_eq!(
        cg.get_max_descendants("max").unwrap(),
        CGroupLimitValue::Max
    );
    // A numeral followed by the file's newline is not accepted by the
    // strict numeric parse.
    assert!(cg.get_max_depth("100\n").is_err());
    assert_eq!(cg.get_max_depth("100").unwrap(), CGroupLimitValue::Value(100));

    let w = cg.set_max_depth(CGroupLimitValue::Max);
    assert_eq!(w.file, "cgroup.max.depth");
    assert_eq!(w.data, "max");
    let w = cg.set_max_descendants(CGroupLimitValue::Value(12));
    assert_eq!(w.file, "cgroup.max.descendants");
    assert_eq!(w.data, "12");
}

#[test]
fn id_batches_join_with_newlines() {
    let cg = CGroup::new("izoli");
    let w = cg.add_procs(vec![1, 2, 30]);
    assert_eq!(w.file, "cgroup.procs");
    assert_eq!(w.data, "1\n2\n30");
    let w = cg.add_threads(vec![7]);
    assert_eq!(w.file, "cgroup.threads");
    assert_eq!(w.data, "7");
}

#[test]
fn apply_options_issues_two_writes_in_order() {
    let cg = CGroup::new("izoli/box_1");
    let option = CGroupOption {
        cpu_max: None,
        cpus: None,
        memory_max: Some(CGroupLimitValue::Value(1_048_576)),
        pids_max: Some(CGroupLimitValue::Value(10)),
    };
    let ws = cg.apply_options(&option);
    assert_eq!(ws.len(), 2);
    assert_eq!(ws[0].file, "memory.max");
    assert_eq!(ws[0].data, "1048576");
    assert_eq!(ws[1].file, "pids.max");
    assert_eq!(ws[1].data, "10");
}

#[test]
fn apply_options_full_order_is_cpu_memory_pids_cpuset() {
    let cg = CGroup::new("izoli/box_2");
    let option = CGroupOption {
        cpu_max: Some(CpuLimit {
            max: CGroupLimitValue::Max,
            period: 100000,
        }),
        cpus: Some(vec![0, 2, 5]),
        memory_max: Some(CGroupLimitValue::Max),
        pids_max: Some(CGroupLimitValue::Value(10)),
    };
    let ws = cg.apply_options(&option);
    let pairs: Vec<(&str, &str)> = ws
        .iter()
        .map(|w: &FileWrite| (w.file.as_str(), w.data.as_str()))
        .collect();
    assert_eq!(
        pairs,
        vec![
            ("cpu.max", "max 100000"),
            ("memory.max", "max"),
            ("pids.max", "10"),
            ("cpuset.cpus", "0,2,5"),
        ]
    );
}

#[test]
fn apply_options_of_empty_configuration_issues_nothing() {
    let cg = CGroup::new("izoli");
    let ws = cg.apply_options(&CGroupOption::default());
    assert!(ws.is_empty());
}
