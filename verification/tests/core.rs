use zaprett::config::{Config, EngineVariant, ListType};
use zaprett::error::SvcError;
use zaprett::lists::{merge_files, FileInput};
use zaprett::template::{resolve, standard_bindings, substitute, Bindings, DEFAULT_START};

fn bytes(s: &str) -> Vec<u8> {
    s.as_bytes().to_vec()
}

fn bindings(hostlist: &str, ipset: &str, zaprettdir: &str, libsdir: &str) -> Bindings {
    Bindings {
        hostlist: bytes(hostlist),
        ipset: bytes(ipset),
        zaprettdir: bytes(zaprettdir),
        libsdir: bytes(libsdir),
    }
}

#[test]
fn config_defaults_when_all_fields_missing() {
    let c = Config::from_parts(
        None, None, None, None, None, None, None, None, None, None, None,
    );
    assert!(c.active_lists().is_empty());
    assert!(c.active_ipsets().is_empty());
    assert!(c.active_exclude_lists().is_empty());
    assert!(c.active_exclude_ipsets().is_empty());
    assert_eq!(c.list_type(), ListType::Whitelist);
    assert_eq!(c.engine_variant(), EngineVariant::Primary);
    assert_eq!(c.strategy(), "");
    assert_eq!(c.strategy_secondary(), "");
    assert_eq!(c.app_list(), "");
    assert!(c.whitelist().is_empty());
    assert!(c.blacklist().is_empty());
}

#[test]
fn config_keeps_present_fields_and_defaults_the_rest() {
    let c = Config::from_parts(
        Some(vec!["/a".to_string(), "/b".to_string()]),
        None,
        None,
        None,
        Some(ListType::Blacklist),
        None,
        Some("/sdcard/strategy.txt".to_string()),
        None,
        None,
        None,
        Some(vec!["org.example".to_string()]),
    );
    assert_eq!(c.active_lists(), &vec!["/a".to_string(), "/b".to_string()]);
    assert!(c.active_ipsets().is_empty());
    assert_eq!(c.list_type(), ListType::Blacklist);
    assert_eq!(c.engine_variant(), EngineVariant::Primary);
    assert_eq!(c.strategy(), "/sdcard/strategy.txt");
    assert_eq!(c.blacklist(), &vec!["org.example".to_string()]);
}

#[test]
fn config_default_is_all_zero_values() {
    let c = Config::default();
    assert!(c.active_lists().is_empty());
    assert_eq!(c.list_type(), ListType::Whitelist);
    assert_eq!(c.engine_variant(), EngineVariant::Primary);
    assert_eq!(c.strategy(), "");
}

#[test]
fn strategy_path_follows_engine_variant() {
    let mut c = Config::default();
    c.strategy = "/p".to_string();
    c.strategy_secondary = "/s".to_string();
    assert_eq!(c.strategy_path(), "/p");
    c.engine_variant = EngineVariant::Secondary;
    assert_eq!(c.strategy_path(), "/s");
}

#[test]
fn merge_empty_inputs_gives_zero_length_output() {
    let inputs: Vec<FileInput> = Vec::new();
    let out = merge_files(&inputs).unwrap();
    assert_eq!(out.len(), 0);
}

#[test]
fn merge_concatenates_in_order() {
    let inputs = vec![
        FileInput { path: "a.txt".to_string(), contents: Some(bytes("X")) },
        FileInput { path: "b.txt".to_string(), contents: Some(bytes("Y")) },
    ];
    let out = merge_files(&inputs).unwrap();
    assert_eq!(out, bytes("XY"));
}

#[test]
fn merge_fails_fast_naming_first_unreadable_path() {
    let inputs = vec![
        FileInput { path: "ok.txt".to_string(), contents: Some(bytes("data")) },
        FileInput { path: "missing.txt".to_string(), contents: None },
        FileInput { path: "also-missing.txt".to_string(), contents: None },
    ];
    match merge_files(&inputs) {
        Err(SvcError::Io { path }) => assert_eq!(path, "missing.txt"),
        other => panic!("expected an io error, got {:?}", other),
    }
}

#[test]
fn substitute_resolves_bare_and_braced_alike() {
    let template = bytes("--hostlist=$hostlist --x=${zaprettdir}/y");
    let b = bindings("/tmp/h", "", "/z", "");
    let out = substitute(&template, &b);
    assert_eq!(out, bytes("--hostlist=/tmp/h --x=/z/y"));
}

#[test]
fn substitute_replaces_every_occurrence_of_each_name() {
    let template = bytes("$hostlist $ipset ${hostlist} ${ipset} $zaprettdir $libsdir");
    let b = bindings("H", "I", "Z", "L");
    let out = substitute(&template, &b);
    assert_eq!(out, bytes("H I H I Z L"));
}

#[test]
fn substitute_leaves_unknown_placeholders_alone() {
    let template = bytes("$foo stays ${bar} too");
    let b = bindings("H", "I", "Z", "L");
    let out = substitute(&template, &b);
    assert_eq!(out, bytes("$foo stays ${bar} too"));
}

#[test]
fn substitute_is_single_pass() {
    // A binding value that spells a placeholder is not rescanned.
    let template = bytes("$hostlist");
    let b = bindings("$ipset", "I", "Z", "L");
    let out = substitute(&template, &b);
    assert_eq!(out, bytes("$ipset"));
}

#[test]
fn substitute_matches_prefix_of_longer_words() {
    let template = bytes("$hostlistX");
    let b = bindings("H", "I", "Z", "L");
    let out = substitute(&template, &b);
    assert_eq!(out, bytes("HX"));
}

#[test]
fn resolve_prefers_user_template() {
    let user = bytes("--my-strategy");
    let out = resolve(EngineVariant::Primary, Some(user.clone()));
    assert_eq!(out, user);
}

#[test]
fn resolve_falls_back_to_built_in_default() {
    let out = resolve(EngineVariant::Primary, None);
    assert_eq!(out, DEFAULT_START.as_bytes().to_vec());
    let out2 = resolve(EngineVariant::Secondary, None);
    assert_eq!(out2, DEFAULT_START.as_bytes().to_vec());
}

#[test]
fn standard_bindings_carry_flags_and_fixed_roots() {
    let hostlist_flag = "--hostlist=/data/adb/modules/zaprett/tmp/hostlist".to_string();
    let ipset_flag = "--ipset=/data/adb/modules/zaprett/tmp/ipset".to_string();
    let b = standard_bindings(&hostlist_flag, &ipset_flag);
    assert_eq!(b.hostlist, hostlist_flag.as_bytes().to_vec());
    assert_eq!(b.ipset, ipset_flag.as_bytes().to_vec());
    assert_eq!(b.zaprettdir, bytes("/storage/emulated/0/zaprett"));
    assert_eq!(b.libsdir, bytes("/data/adb/modules/zaprett/libs"));
}

#[test]
fn whitelist_merge_plan_never_emits_exclude() {
    let c = Config::from_parts(
        Some(vec!["/w1".to_string()]),
        Some(vec!["/wi1".to_string()]),
        Some(vec!["/e1".to_string()]),
        Some(vec!["/ei1".to_string()]),
        Some(ListType::Whitelist),
        None,
        None,
        None,
        None,
        None,
        None,
    );
    let plan = c.list_type().merge(&c);
    assert_eq!(plan.host_files, &vec!["/w1".to_string()]);
    assert_eq!(plan.ipset_files, &vec!["/wi1".to_string()]);
    assert_eq!(plan.host_output, "/data/adb/modules/zaprett/tmp/hostlist");
    assert_eq!(plan.ipset_output, "/data/adb/modules/zaprett/tmp/ipset");
    assert_eq!(plan.hostlist_flag, "--hostlist=/data/adb/modules/zaprett/tmp/hostlist");
    assert_eq!(plan.ipset_flag, "--ipset=/data/adb/modules/zaprett/tmp/ipset");
    assert!(!plan.hostlist_flag.contains("-exclude"));
    assert!(!plan.ipset_flag.contains("-exclude"));
}

#[test]
fn blacklist_merge_plan_draws_from_exclude_groups_with_exclude_flags() {
    let c = Config::from_parts(
        Some(vec!["/w1".to_string()]),
        Some(vec!["/wi1".to_string()]),
        Some(vec!["/e1".to_string()]),
        Some(vec!["/ei1".to_string()]),
        Some(ListType::Blacklist),
        None,
        None,
        None,
        None,
        None,
        None,
    );
    let plan = c.list_type().merge(&c);
    assert_eq!(plan.host_files, &vec!["/e1".to_string()]);
    assert_eq!(plan.ipset_files, &vec!["/ei1".to_string()]);
    assert_eq!(plan.host_output, "/data/adb/modules/zaprett/tmp/hostlist-exclude");
    assert_eq!(plan.ipset_output, "/data/adb/modules/zaprett/tmp/ipset-exclude");
    assert_eq!(
        plan.hostlist_flag,
        "--hostlist-exclude=/data/adb/modules/zaprett/tmp/hostlist-exclude"
    );
    assert_eq!(plan.ipset_flag, "--ipset-exclude=/data/adb/modules/zaprett/tmp/ipset-exclude");
}
