//! The orchestrator: the four lifecycle operations over an explicit model
//! of the OS-global resources one instance owns — whether an engine is
//! running, and how many copies of the interception-rule set stand
//! installed.
//!
//! Rule installation is not idempotent, so the conflict guard on `start`
//! is the sole idempotency boundary: a start refused for any reason
//! installs nothing. `stop` on an already-stopped service is a no-op
//! success, the safer policy for a supervisor: it removes no rules and
//! leaves nothing for a later `start` to trip over.
//!
//! One lifecycle operation runs as a dialogue with the I/O layer: it
//! supplies the privilege bit and the liveness verdict, consults the
//! gate, and on `Ok` carries out the planned effects in order.

use vstd::prelude::*;

use crate::config::{Config, EngineVariant, ListType};
use crate::engine::{build_engine_args, daemon_plan, engine_args, DaemonPlan};
use crate::engine::{stderr_log_spec, stdout_log_spec};
use crate::error::SvcError;
use crate::lists::{hostlist_flag_spec, host_output_spec, ipset_flag_spec, ipset_output_spec};
use crate::lists::MergePlan;
use crate::template::{default_template_bytes, resolve, standard_bindings, substitute};
use crate::template::{libsdir_bytes, subst_bytes, zaprettdir_bytes, Bindings, BindingsView};
use vstd::utf8::encode_utf8;

verus! {

/// The observable state of the service.
#[derive(Clone, Copy, Debug, PartialEq, Eq, Structural)]
pub enum ServiceState {
    Stopped,
    Running,
}

/// The model of the OS-global resources the orchestrator sequences: the
/// engine process and the installed interception rules. `rule_copies`
/// counts whole copies of the three-rule set, since installing twice
/// duplicates them.
#[derive(Clone, Copy, Debug, PartialEq, Eq, Structural)]
pub struct SysState {
    pub running: bool,
    pub rule_copies: u64,
}

/// A healthy system: an engine only runs behind an installed rule set.
pub open spec fn wf_sys(s: SysState) -> bool {
    s.running ==> s.rule_copies >= 1
}

/// What `start` does to the system: refused without privilege, refused
/// with a conflict while running, else installs one copy of the rules and
/// leaves the engine running.
pub open spec fn spec_start(s: SysState, is_root: bool) -> (SysState, Result<(), SvcError>) {
    if !is_root {
        (s, Err(SvcError::Permission))
    } else if s.running {
        (s, Err(SvcError::Conflict))
    } else {
        (
            SysState { running: true, rule_copies: (s.rule_copies + 1) as u64 },
            Ok(()),
        )
    }
}

/// What `stop` does to the system: refused without privilege, a no-op
/// success when already stopped, else removes one copy of the rules and
/// leaves the engine stopped.
pub open spec fn spec_stop(s: SysState, is_root: bool) -> (SysState, Result<(), SvcError>) {
    if !is_root {
        (s, Err(SvcError::Permission))
    } else if !s.running {
        (s, Ok(()))
    } else {
        (
            SysState { running: false, rule_copies: (s.rule_copies - 1) as u64 },
            Ok(()),
        )
    }
}

/// What `restart` does: `stop`, then `start`, propagating the first
/// failure.
pub open spec fn spec_restart(s: SysState, is_root: bool) -> (SysState, Result<(), SvcError>) {
    let stopped = spec_stop(s, is_root);
    if stopped.1 is Err {
        stopped
    } else {
        spec_start(stopped.0, is_root)
    }
}

/// The `start` transition on the model.
pub fn start_service(s: &SysState, is_root: bool) -> (r: (SysState, Result<(), SvcError>))
    requires
        s.rule_copies < u64::MAX,
    ensures
        r == spec_start(*s, is_root),
{
    if !is_root {
        (*s, Err(SvcError::Permission))
    } else if s.running {
        (*s, Err(SvcError::Conflict))
    } else {
        (SysState { running: true, rule_copies: s.rule_copies + 1 }, Ok(()))
    }
}

/// The `stop` transition on the model.
pub fn stop_service(s: &SysState, is_root: bool) -> (r: (SysState, Result<(), SvcError>))
    requires
        wf_sys(*s),
    ensures
        r == spec_stop(*s, is_root),
{
    if !is_root {
        (*s, Err(SvcError::Permission))
    } else if !s.running {
        (*s, Ok(()))
    } else {
        (SysState { running: false, rule_copies: s.rule_copies - 1 }, Ok(()))
    }
}

/// The `restart` transition on the model: `stop`, then `start`,
/// propagating the first failure.
pub fn restart_service(s: &SysState, is_root: bool) -> (r: (SysState, Result<(), SvcError>))
    requires
        wf_sys(*s),
        s.rule_copies < u64::MAX,
    ensures
        r == spec_restart(*s, is_root),
{
    let stopped = stop_service(s, is_root);
    match stopped.1 {
        Err(e) => (stopped.0, Err(e)),
        Ok(_) => start_service(&stopped.0, is_root),
    }
}

/// The `status` operation: the current state, behind the privilege gate,
/// with no side effect.
pub fn service_status(s: &SysState, is_root: bool) -> (r: Result<ServiceState, SvcError>)
    ensures
        !is_root ==> r == Err::<ServiceState, SvcError>(SvcError::Permission),
        is_root && s.running ==> r == Ok::<ServiceState, SvcError>(ServiceState::Running),
        is_root && !s.running ==> r == Ok::<ServiceState, SvcError>(ServiceState::Stopped),
{
    if !is_root {
        Err(SvcError::Permission)
    } else if s.running {
        Ok(ServiceState::Running)
    } else {
        Ok(ServiceState::Stopped)
    }
}

/// The guard the I/O layer asks before performing any `start` effect:
/// passes exactly for a privileged caller of a stopped service, and names
/// the refusal otherwise.
pub fn start_gate(is_root: bool, running: bool) -> (r: Result<(), SvcError>)
    ensures
        !is_root ==> r == Err::<(), SvcError>(SvcError::Permission),
        is_root && running ==> r == Err::<(), SvcError>(SvcError::Conflict),
        is_root && !running ==> r == Ok::<(), SvcError>(()),
{
    if !is_root {
        Err(SvcError::Permission)
    } else if running {
        Err(SvcError::Conflict)
    } else {
        Ok(())
    }
}

/// The guard before `stop` effects: refused without privilege; otherwise
/// succeeds, and says whether teardown (rule removal, the termination
/// signal) is to run — it is not when the service is already stopped.
pub fn stop_gate(is_root: bool, running: bool) -> (r: Result<bool, SvcError>)
    ensures
        !is_root ==> r == Err::<bool, SvcError>(SvcError::Permission),
        is_root ==> r == Ok::<bool, SvcError>(running),
{
    if !is_root {
        Err(SvcError::Permission)
    } else {
        Ok(running)
    }
}

/// A second `start` without an intervening `stop` fails with a conflict
/// and installs nothing: the rule count after both attempts equals the
/// count after the first alone.
pub proof fn lemma_double_start_guard(s: SysState, is_root: bool)
    requires
        is_root,
        !s.running,
        s.rule_copies < u64::MAX,
    ensures
        spec_start(s, is_root).1 is Ok,
        spec_start(spec_start(s, is_root).0, is_root).1 == Err::<(), SvcError>(SvcError::Conflict),
        spec_start(spec_start(s, is_root).0, is_root).0 == spec_start(s, is_root).0,
        spec_start(spec_start(s, is_root).0, is_root).0.rule_copies == s.rule_copies + 1,
{
}

/// `stop` on an already-stopped service is idempotent with respect to
/// observable state: it succeeds, removes no rules, changes nothing, and
/// a subsequent `start` behaves exactly as it would have without it.
pub proof fn lemma_stop_idempotent(s: SysState, is_root: bool)
    requires
        is_root,
        !s.running,
    ensures
        spec_stop(s, is_root).0 == s,
        spec_stop(s, is_root).1 is Ok,
        spec_start(spec_stop(s, is_root).0, is_root) == spec_start(s, is_root),
{
}

/// Every transition preserves the health of the system model.
pub proof fn lemma_transitions_preserve_wf(s: SysState, is_root: bool)
    requires
        wf_sys(s),
        s.rule_copies < u64::MAX,
    ensures
        wf_sys(spec_start(s, is_root).0),
        wf_sys(spec_stop(s, is_root).0),
        wf_sys(spec_restart(s, is_root).0),
{
}

/// The placeholder values one start substitutes: the mode's two engine
/// flags and the two fixed roots.
pub open spec fn start_bindings_view(t: ListType) -> BindingsView {
    BindingsView {
        hostlist: encode_utf8(hostlist_flag_spec(t)),
        ipset: encode_utf8(ipset_flag_spec(t)),
        zaprettdir: zaprettdir_bytes(),
        libsdir: libsdir_bytes(),
    }
}

/// Everything one successful `start` computes before its effects run: the
/// merge plan, the final strategy arguments, the engine's argument
/// vector, and the daemonization paths.
pub struct StartInvocation<'a> {
    pub merge: MergePlan<'a>,
    pub args: Vec<u8>,
    pub argv: Vec<Vec<u8>>,
    pub daemon: DaemonPlan,
}

/// Computes one start's invocation from the configuration and the
/// strategy text read from the configured path (`None` when that file
/// could not be read, which falls back to the built-in default).
pub fn start_invocation<'a>(config: &'a Config, strategy_text: Option<Vec<u8>>) -> (r:
    StartInvocation<'a>)
    ensures
        r.merge.host_files@ == (match config.list_type {
            ListType::Whitelist => config.active_lists@,
            ListType::Blacklist => config.active_exclude_lists@,
        }),
        r.merge.ipset_files@ == (match config.list_type {
            ListType::Whitelist => config.active_ipsets@,
            ListType::Blacklist => config.active_exclude_ipsets@,
        }),
        r.merge.host_output@ == host_output_spec(config.list_type),
        r.merge.ipset_output@ == ipset_output_spec(config.list_type),
        r.merge.hostlist_flag@ == hostlist_flag_spec(config.list_type),
        r.merge.ipset_flag@ == ipset_flag_spec(config.list_type),
        r.args@ == subst_bytes(
            match strategy_text {
                Some(t) => t@,
                None => default_template_bytes(config.engine_variant),
            },
            start_bindings_view(config.list_type),
        ),
        r.argv.deep_view() == engine_args(r.args@, config.engine_variant),
        r.daemon.pid_file@ == "/data/adb/modules/zaprett/tmp/pid.lock"@,
        r.daemon.work_dir@ == "/data/adb/modules/zaprett/tmp"@,
        r.daemon.stdout_log@ == stdout_log_spec(config.engine_variant),
        r.daemon.stderr_log@ == stderr_log_spec(config.engine_variant),
{
    let variant = config.engine_variant;
    let plan = config.list_type.merge(config);
    let template = resolve(variant, strategy_text);
    let bindings: Bindings = standard_bindings(&plan.hostlist_flag, &plan.ipset_flag);
    proof {
        assert(bindings@ == start_bindings_view(config.list_type));
    }
    let args = substitute(&template, &bindings);
    let argv = build_engine_args(&args, variant);
    let daemon = daemon_plan(variant);
    StartInvocation { merge: plan, args, argv, daemon }
}

} // verus!
