use zaprett::autostart::{get_autostart, set_autostart, AutostartFlag};
use zaprett::command::{CliApp, Command};
use zaprett::config::{Config, EngineVariant, ListType};
use zaprett::engine::{
    build_engine_args, daemon_plan, expected_process_name, liveness_verdict, parse_pid,
    pid_from_lock, split_whitespace_bytes, IdentityTarget,
};
use zaprett::error::SvcError;
use zaprett::rules::{
    chain_name, clear_iptables_rules, rule_spec_string, setup_iptables_rules, table_name,
    tune_parameter, Chain, RuleAction, RuleOp, Table,
};
use zaprett::service::{
    restart_service, service_status, start_gate, start_invocation, start_service, stop_gate,
    stop_service, ServiceState, SysState,
};

fn bytes(s: &str) -> Vec<u8> {
    s.as_bytes().to_vec()
}

const STOPPED: SysState = SysState { running: false, rule_copies: 0 };

#[test]
fn double_start_conflicts_and_does_not_duplicate_rules() {
    let (s1, r1) = start_service(&STOPPED, true);
    assert!(r1.is_ok());
    assert!(s1.running);
    assert_eq!(s1.rule_copies, 1);
    let (s2, r2) = start_service(&s1, true);
    assert_eq!(r2, Err(SvcError::Conflict));
    assert_eq!(s2, s1);
    assert_eq!(s2.rule_copies, 1);
}

#[test]
fn start_without_privilege_is_refused() {
    let (s1, r1) = start_service(&STOPPED, false);
    assert_eq!(r1, Err(SvcError::Permission));
    assert_eq!(s1, STOPPED);
}

#[test]
fn stop_on_stopped_service_is_noop_success() {
    let (s1, r1) = stop_service(&STOPPED, true);
    assert!(r1.is_ok());
    assert_eq!(s1, STOPPED);
    assert_eq!(s1.rule_copies, 0);
    let (s2, r2) = start_service(&s1, true);
    assert!(r2.is_ok());
    assert_eq!(s2.rule_copies, 1);
}

#[test]
fn stop_tears_down_a_running_service() {
    let (running, _) = start_service(&STOPPED, true);
    let (s1, r1) = stop_service(&running, true);
    assert!(r1.is_ok());
    assert!(!s1.running);
    assert_eq!(s1.rule_copies, 0);
}

#[test]
fn restart_propagates_the_first_failure() {
    let (_, r) = restart_service(&STOPPED, false);
    assert_eq!(r, Err(SvcError::Permission));
}

#[test]
fn restart_runs_stop_then_start() {
    let (running, _) = start_service(&STOPPED, true);
    let (s1, r1) = restart_service(&running, true);
    assert!(r1.is_ok());
    assert!(s1.running);
    assert_eq!(s1.rule_copies, 1);
    let (s2, r2) = restart_service(&STOPPED, true);
    assert!(r2.is_ok());
    assert!(s2.running);
    assert_eq!(s2.rule_copies, 1);
}

#[test]
fn status_reports_state_behind_privilege_gate() {
    assert_eq!(service_status(&STOPPED, false), Err(SvcError::Permission));
    assert_eq!(service_status(&STOPPED, true), Ok(ServiceState::Stopped));
    let (running, _) = start_service(&STOPPED, true);
    assert_eq!(service_status(&running, true), Ok(ServiceState::Running));
}

#[test]
fn gates_match_the_transitions() {
    assert_eq!(start_gate(false, false), Err(SvcError::Permission));
    assert_eq!(start_gate(true, true), Err(SvcError::Conflict));
    assert_eq!(start_gate(true, false), Ok(()));
    assert_eq!(stop_gate(false, true), Err(SvcError::Permission));
    assert_eq!(stop_gate(true, false), Ok(false));
    assert_eq!(stop_gate(true, true), Ok(true));
}

#[test]
fn pid_lock_absent_or_stale_means_not_running() {
    assert_eq!(pid_from_lock(None), None);
    let garbage = bytes("not-a-pid");
    assert_eq!(pid_from_lock(Some(&garbage)), None);
    // A parsable but stale pid: no live process was found for it.
    assert!(!liveness_verdict(None, IdentityTarget::Orchestrator));
}

#[test]
fn parse_pid_accepts_surrounded_digit_runs() {
    assert_eq!(parse_pid(&bytes("123\n")), Some(123));
    assert_eq!(parse_pid(&bytes("  42  ")), Some(42));
    assert_eq!(parse_pid(&bytes("2147483647")), Some(2147483647));
}

#[test]
fn parse_pid_rejects_empty_signed_or_oversized_contents() {
    assert_eq!(parse_pid(&bytes("")), None);
    assert_eq!(parse_pid(&bytes("   \n")), None);
    assert_eq!(parse_pid(&bytes("-5")), None);
    assert_eq!(parse_pid(&bytes("12 34")), None);
    assert_eq!(parse_pid(&bytes("2147483648")), None);
    assert_eq!(parse_pid(&bytes("99999999999999999999")), None);
}

#[test]
fn liveness_verdict_compares_the_reported_name() {
    let own = "zaprett".to_string();
    let other = "sshd".to_string();
    assert!(liveness_verdict(Some(&own), IdentityTarget::Orchestrator));
    assert!(!liveness_verdict(Some(&other), IdentityTarget::Orchestrator));
    let engine = "nfqws".to_string();
    assert!(liveness_verdict(Some(&engine), IdentityTarget::Engine));
    assert!(!liveness_verdict(Some(&own), IdentityTarget::Engine));
    assert_eq!(expected_process_name(IdentityTarget::Orchestrator), "zaprett");
    assert_eq!(expected_process_name(IdentityTarget::Engine), "nfqws");
}

#[test]
fn engine_args_for_blank_strategy_fall_back_to_verbose() {
    let argv = build_engine_args(&bytes(""), EngineVariant::Primary);
    let expect: Vec<Vec<u8>> =
        vec![bytes("nfqws"), bytes("--uid=0:0"), bytes("--qnum=200"), bytes("-v")];
    assert_eq!(argv, expect);
    let argv2 = build_engine_args(&bytes("  \n\t "), EngineVariant::Primary);
    assert_eq!(argv2, expect);
}

#[test]
fn engine_args_append_whitespace_split_tokens() {
    let argv = build_engine_args(&bytes(" --a=1\n  --b=2 "), EngineVariant::Primary);
    let expect: Vec<Vec<u8>> =
        vec![bytes("nfqws"), bytes("--uid=0:0"), bytes("--qnum=200"), bytes("--a=1"), bytes("--b=2")];
    assert_eq!(argv, expect);
}

#[test]
fn engine_args_use_the_variant_program_token() {
    let argv = build_engine_args(&bytes(""), EngineVariant::Secondary);
    assert_eq!(argv[0], bytes("nfqws2"));
}

#[test]
fn split_whitespace_bytes_matches_tokens() {
    let toks = split_whitespace_bytes(&bytes("  a  bb\tccc\n"));
    let expect: Vec<Vec<u8>> = vec![bytes("a"), bytes("bb"), bytes("ccc")];
    assert_eq!(toks, expect);
    assert_eq!(split_whitespace_bytes(&bytes("")), Vec::<Vec<u8>>::new());
}

#[test]
fn install_actions_are_the_three_rules_in_order() {
    let actions = setup_iptables_rules();
    assert_eq!(
        actions,
        vec![
            RuleAction { op: RuleOp::InsertHead, table: Table::Mangle, chain: Chain::Postrouting },
            RuleAction { op: RuleOp::InsertHead, table: Table::Mangle, chain: Chain::Prerouting },
            RuleAction { op: RuleOp::Append, table: Table::Filter, chain: Chain::Forward },
        ]
    );
}

#[test]
fn removal_actions_mirror_install_with_deletes() {
    let installs = setup_iptables_rules();
    let removals = clear_iptables_rules();
    assert_eq!(installs.len(), removals.len());
    for (i, r) in installs.iter().zip(removals.iter()) {
        assert_eq!(i.table, r.table);
        assert_eq!(i.chain, r.chain);
        assert_eq!(r.op, RuleOp::Delete);
    }
}

#[test]
fn rule_names_and_tuning_parameter_are_fixed() {
    assert_eq!(rule_spec_string(), "-j NFQUEUE --queue-num 200 --queue-bypass");
    assert_eq!(table_name(Table::Mangle), "mangle");
    assert_eq!(table_name(Table::Filter), "filter");
    assert_eq!(chain_name(Chain::Postrouting), "POSTROUTING");
    assert_eq!(chain_name(Chain::Prerouting), "PREROUTING");
    assert_eq!(chain_name(Chain::Forward), "FORWARD");
    let (name, value) = tune_parameter();
    assert_eq!(name, "net.netfilter.nf_conntrack_tcp_be_liberal");
    assert_eq!(value, "1");
}

#[test]
fn autostart_flag_follows_the_requested_value() {
    let mut flag = AutostartFlag { present: false };
    assert!(!get_autostart(&flag));
    set_autostart(&mut flag, true);
    assert!(get_autostart(&flag));
    set_autostart(&mut flag, true);
    assert!(get_autostart(&flag));
    set_autostart(&mut flag, false);
    assert!(!get_autostart(&flag));
}

#[test]
fn module_version_reads_the_version_entry() {
    let prop = "id=zaprett\nname=zaprett\nversion=v1.5.2\nversionCode=152\n";
    assert_eq!(zaprett::version::module_version(prop), Some("v1.5.2".to_string()));
    assert_eq!(zaprett::version::module_version("id=zaprett\n"), None);
}

#[test]
fn daemon_plan_fixes_workspace_and_variant_logs() {
    let p = daemon_plan(EngineVariant::Primary);
    assert_eq!(p.pid_file, "/data/adb/modules/zaprett/tmp/pid.lock");
    assert_eq!(p.work_dir, "/data/adb/modules/zaprett/tmp");
    assert_eq!(p.stdout_log, "/data/adb/modules/zaprett/tmp/nfqws.out");
    assert_eq!(p.stderr_log, "/data/adb/modules/zaprett/tmp/nfqws.err");
    let s = daemon_plan(EngineVariant::Secondary);
    assert_eq!(s.stdout_log, "/data/adb/modules/zaprett/tmp/nfqws2.out");
    assert_eq!(s.stderr_log, "/data/adb/modules/zaprett/tmp/nfqws2.err");
}

#[test]
fn start_invocation_substitutes_flags_into_the_strategy() {
    let config = Config::from_parts(
        Some(vec!["/w".to_string()]),
        None,
        None,
        None,
        Some(ListType::Whitelist),
        None,
        None,
        None,
        None,
        None,
        None,
    );
    let inv = start_invocation(&config, Some(bytes("$hostlist ${ipset}")));
    assert_eq!(
        inv.args,
        bytes(
            "--hostlist=/data/adb/modules/zaprett/tmp/hostlist \
             --ipset=/data/adb/modules/zaprett/tmp/ipset"
        )
    );
    assert_eq!(inv.argv[0], bytes("nfqws"));
    assert_eq!(inv.argv[1], bytes("--uid=0:0"));
    assert_eq!(inv.argv[2], bytes("--qnum=200"));
    assert_eq!(inv.argv[3], bytes("--hostlist=/data/adb/modules/zaprett/tmp/hostlist"));
    assert_eq!(inv.argv[4], bytes("--ipset=/data/adb/modules/zaprett/tmp/ipset"));
    assert_eq!(inv.merge.host_files, &vec!["/w".to_string()]);
    assert_eq!(inv.daemon.pid_file, "/data/adb/modules/zaprett/tmp/pid.lock");
}

#[test]
fn commands_say_which_operations_need_privilege() {
    assert!(Command::Start.requires_privilege());
    assert!(Command::Stop.requires_privilege());
    assert!(Command::Restart.requires_privilege());
    assert!(Command::Status.requires_privilege());
    assert!(!Command::SetAutostart { autostart: true }.requires_privilege());
    assert!(!Command::GetAutostart.requires_privilege());
    assert!(!Command::ModuleVersion.requires_privilege());
    assert!(!Command::BinaryVersion.requires_privilege());
    assert!(!Command::Args { args: vec![] }.requires_privilege());
    let app = CliApp { cmd: Some(Command::Status) };
    assert!(matches!(app.cmd(), Some(Command::Status)));
}
