//! The process supervisor's decision core: the engine's argument vector,
//! the pid-lock contents, the liveness verdict, and the per-variant
//! daemonization paths.
//!
//! The effects themselves — forking, redirecting streams, the blocking
//! call into the engine's native entry point, signals, and the process
//! table — happen outside; this module fixes what they are applied to.

use vstd::prelude::*;

use crate::config::EngineVariant;
use vstd::string::StrSliceExecFns;
use vstd::string::StringSliceAdditionalSpecFns;

verus! {

/// ASCII whitespace: space, tab, line feed, carriage return, form feed.
pub open spec fn is_space(b: u8) -> bool {
    b == 32 || b == 9 || b == 10 || b == 13 || b == 12
}

/// Length of the leading run of non-space bytes.
pub open spec fn token_len(s: Seq<u8>) -> nat
    decreases s.len(),
{
    if s.len() == 0 || is_space(s[0]) {
        0
    } else {
        1 + token_len(s.drop_first())
    }
}

pub proof fn lemma_token_len_le(s: Seq<u8>)
    ensures
        token_len(s) <= s.len(),
    decreases s.len(),
{
    if s.len() == 0 || is_space(s[0]) {
    } else {
        lemma_token_len_le(s.drop_first());
    }
}

/// The maximal non-space tokens of `s`, in order.
pub open spec fn split_ws(s: Seq<u8>) -> Seq<Seq<u8>>
    decreases s.len(),
    via split_ws_dec
{
    if s.len() == 0 {
        Seq::<Seq<u8>>::empty()
    } else if is_space(s[0]) {
        split_ws(s.drop_first())
    } else {
        seq![s.take(token_len(s) as int)] + split_ws(s.skip(token_len(s) as int))
    }
}

#[via_fn]
proof fn split_ws_dec(s: Seq<u8>) {
    if s.len() > 0 && !is_space(s[0]) {
        lemma_token_len_le(s);
    }
}

/// Every byte of `s` is whitespace; what trimming to empty means.
pub open spec fn all_space(s: Seq<u8>) -> bool {
    forall|i: int| 0 <= i < s.len() ==> is_space(#[trigger] s[i])
}

/// The leading token of `s` is its first `k` bytes exactly when those are
/// non-space and the run stops at `k`.
proof fn lemma_token_len_is(s: Seq<u8>, k: int)
    requires
        0 <= k <= s.len(),
        forall|j: int| 0 <= j < k ==> !is_space(#[trigger] s[j]),
        k == s.len() || is_space(s[k]),
    ensures
        token_len(s) == k,
    decreases s.len(),
{
    if k == 0 {
    } else {
        assert(!is_space(s[0]));
        let t = s.drop_first();
        assert(forall|j: int| 0 <= j < k - 1 ==> t[j] == s[j + 1] && !is_space(#[trigger] t[j]));
        if k - 1 < t.len() {
            assert(t[k - 1] == s[k]);
        }
        lemma_token_len_is(t, k - 1);
    }
}

/// Whether a byte is ASCII whitespace.
pub fn is_space_byte(b: u8) -> (r: bool)
    ensures
        r == is_space(b),
{
    b == 32 || b == 9 || b == 10 || b == 13 || b == 12
}

/// Splits `s` into its maximal non-space tokens, in order.
pub fn split_whitespace_bytes(s: &Vec<u8>) -> (r: Vec<Vec<u8>>)
    ensures
        r.deep_view() == split_ws(s@),
{
    let n = s.len();
    let mut toks: Vec<Vec<u8>> = Vec::new();
    let mut i: usize = 0;
    proof {
        assert(s@.skip(0) =~= s@);
        assert(toks.deep_view() =~~= Seq::<Seq<u8>>::empty());
    }
    while i < n
        invariant
            n == s@.len(),
            i <= n,
            toks.deep_view() + split_ws(s@.skip(i as int)) == split_ws(s@),
        decreases n - i,
    {
        if is_space_byte(s[i]) {
            proof {
                assert(s@.skip(i as int).drop_first() =~= s@.skip(i + 1));
            }
            i += 1;
        } else {
            let ghost start = i as int;
            let mut tok: Vec<u8> = Vec::new();
            proof {
                assert(tok@ =~= s@.subrange(start, start));
            }
            loop
                invariant_except_break
                    n == s@.len(),
                    0 <= start <= i <= n,
                    tok@ == s@.subrange(start, i as int),
                    forall|j: int| start <= j < i ==> !is_space(#[trigger] s@[j]),
                ensures
                    n == s@.len(),
                    0 <= start <= i <= n,
                    tok@ == s@.subrange(start, i as int),
                    forall|j: int| start <= j < i ==> !is_space(#[trigger] s@[j]),
                    i == n || is_space(s@[i as int]),
                decreases n - i,
            {
                if i >= n {
                    break ;
                }
                let b = s[i];
                if is_space_byte(b) {
                    break ;
                }
                tok.push(b);
                proof {
                    assert(s@.subrange(start, i + 1) =~= s@.subrange(start, i as int) + seq![
                        s@[i as int],
                    ]);
                }
                i += 1;
            }
            proof {
                let rem = s@.skip(start);
                assert(forall|j: int|
                    0 <= j < i - start ==> rem[j] == s@[j + start] && !is_space(#[trigger] rem[j]));
                if i < n {
                    assert(rem[i - start] == s@[i as int]);
                }
                lemma_token_len_is(rem, i - start);
                assert(rem.take(i - start) =~= tok@);
                assert(rem.skip(i - start) =~= s@.skip(i as int));
                assert(split_ws(rem) == seq![tok@] + split_ws(s@.skip(i as int)));
            }
            let ghost old_toks = toks.deep_view();
            toks.push(tok);
            proof {
                assert(toks.deep_view() =~~= old_toks + seq![s@.subrange(start, i as int)]);
                assert(old_toks + (seq![s@.subrange(start, i as int)] + split_ws(s@.skip(i as int)))
                    =~~= toks.deep_view() + split_ws(s@.skip(i as int)));
            }
        }
    }
    proof {
        assert(s@.skip(s@.len() as int) =~= Seq::<u8>::empty());
        assert(toks.deep_view() + Seq::<Seq<u8>>::empty() =~~= toks.deep_view());
    }
    toks
}

/// The program-name token handed to an engine variant's entry point.
pub open spec fn program_token(v: EngineVariant) -> Seq<u8> {
    match v {
        EngineVariant::Primary => "nfqws".spec_bytes(),
        EngineVariant::Secondary => "nfqws2".spec_bytes(),
    }
}

/// The full argument vector for one engine invocation: the program-name
/// token, the fixed uid and queue-number flags, then either a verbose flag
/// (when the strategy text is empty or whitespace) or the text's
/// whitespace-split tokens.
pub open spec fn engine_args(strategy: Seq<u8>, v: EngineVariant) -> Seq<Seq<u8>> {
    let base = seq![
        program_token(v),
        "--uid=0:0".spec_bytes(),
        "--qnum=200".spec_bytes(),
    ];
    if all_space(strategy) {
        base + seq!["-v".spec_bytes()]
    } else {
        base + split_ws(strategy)
    }
}

/// Builds the argument vector the daemonized engine is invoked with.
pub fn build_engine_args(strategy: &Vec<u8>, v: EngineVariant) -> (r: Vec<Vec<u8>>)
    ensures
        r.deep_view() == engine_args(strategy@, v),
{
    let mut r: Vec<Vec<u8>> = Vec::new();
    match v {
        EngineVariant::Primary => r.push("nfqws".as_bytes_vec()),
        EngineVariant::Secondary => r.push("nfqws2".as_bytes_vec()),
    }
    r.push("--uid=0:0".as_bytes_vec());
    r.push("--qnum=200".as_bytes_vec());
    let ghost base = seq![
        program_token(v),
        "--uid=0:0".spec_bytes(),
        "--qnum=200".spec_bytes(),
    ];
    proof {
        assert(r.deep_view() =~~= base);
    }
    let n = strategy.len();
    let mut all_sp = true;
    let mut i: usize = 0;
    while i < n
        invariant
            n == strategy@.len(),
            i <= n,
            all_sp == (forall|j: int| 0 <= j < i ==> is_space(#[trigger] strategy@[j])),
        decreases n - i,
    {
        if !is_space_byte(strategy[i]) {
            all_sp = false;
        }
        i += 1;
    }
    if all_sp {
        r.push("-v".as_bytes_vec());
        proof {
            assert(r.deep_view() =~~= base + seq!["-v".spec_bytes()]);
        }
    } else {
        let mut toks = split_whitespace_bytes(strategy);
        let ghost toks_view = toks.deep_view();
        r.append(&mut toks);
        proof {
            assert(r.deep_view() =~~= base + toks_view);
        }
    }
    r
}

/// An ASCII decimal digit.
pub open spec fn is_digit(b: u8) -> bool {
    48 <= b <= 57
}

/// Every byte of `s` is a decimal digit.
pub open spec fn all_digits(s: Seq<u8>) -> bool {
    forall|i: int| 0 <= i < s.len() ==> is_digit(#[trigger] s[i])
}

/// The number a digit run denotes, most significant digit first.
pub open spec fn digits_value(s: Seq<u8>) -> int
    decreases s.len(),
{
    if s.len() == 0 {
        0
    } else {
        digits_value(s.drop_last()) * 10 + (s.last() - 48)
    }
}

/// `s` with its leading ASCII whitespace removed.
pub open spec fn trim_front(s: Seq<u8>) -> Seq<u8>
    decreases s.len(),
{
    if s.len() == 0 {
        s
    } else if is_space(s[0]) {
        trim_front(s.drop_first())
    } else {
        s
    }
}

/// `s` with its trailing ASCII whitespace removed.
pub open spec fn trim_back(s: Seq<u8>) -> Seq<u8>
    decreases s.len(),
{
    if s.len() == 0 {
        s
    } else if is_space(s.last()) {
        trim_back(s.drop_last())
    } else {
        s
    }
}

/// `s` with surrounding ASCII whitespace removed.
pub open spec fn trimmed(s: Seq<u8>) -> Seq<u8> {
    trim_back(trim_front(s))
}

/// The lock contents denote a pid: after trimming, a non-empty digit run
/// whose value fits an `i32`.
pub open spec fn pid_bytes_valid(s: Seq<u8>) -> bool {
    trimmed(s).len() > 0 && all_digits(trimmed(s)) && digits_value(trimmed(s)) <= i32::MAX
}

proof fn lemma_trim_front_is(s: Seq<u8>, lo: int)
    requires
        0 <= lo <= s.len(),
        forall|j: int| 0 <= j < lo ==> is_space(#[trigger] s[j]),
        lo == s.len() || !is_space(s[lo]),
    ensures
        trim_front(s) == s.skip(lo),
    decreases lo,
{
    if lo == 0 {
        assert(s.skip(0) =~= s);
    } else {
        let t = s.drop_first();
        assert(forall|j: int| 0 <= j < lo - 1 ==> t[j] == s[j + 1] && is_space(#[trigger] t[j]));
        if lo - 1 < t.len() {
            assert(t[lo - 1] == s[lo]);
        }
        lemma_trim_front_is(t, lo - 1);
        assert(t.skip(lo - 1) =~= s.skip(lo));
    }
}

proof fn lemma_trim_back_is(s: Seq<u8>, hi: int)
    requires
        0 <= hi <= s.len(),
        forall|j: int| hi <= j < s.len() ==> is_space(#[trigger] s[j]),
        hi == 0 || !is_space(s[hi - 1]),
    ensures
        trim_back(s) == s.take(hi),
    decreases s.len(),
{
    if hi == s.len() {
        if s.len() == 0 {
            assert(s.take(0) =~= s);
        } else {
            assert(!is_space(s.last()));
            assert(s.take(hi) =~= s);
        }
    } else {
        assert(is_space(s.last()));
        let t = s.drop_last();
        assert(forall|j: int| hi <= j < t.len() ==> t[j] == s[j] && is_space(#[trigger] t[j]));
        if hi > 0 {
            assert(t[hi - 1] == s[hi - 1]);
        }
        lemma_trim_back_is(t, hi);
        assert(t.take(hi) =~= s.take(hi));
    }
}

proof fn lemma_digits_value_nonneg(s: Seq<u8>)
    requires
        all_digits(s),
    ensures
        digits_value(s) >= 0,
    decreases s.len(),
{
    if s.len() > 0 {
        let t = s.drop_last();
        assert(forall|j: int| 0 <= j < t.len() ==> t[j] == s[j] && is_digit(#[trigger] t[j]));
        lemma_digits_value_nonneg(t);
    }
}

/// A digit-run prefix never denotes more than the whole run.
proof fn lemma_digits_prefix_le(s: Seq<u8>, m: int)
    requires
        all_digits(s),
        0 <= m <= s.len(),
    ensures
        digits_value(s.take(m)) <= digits_value(s),
    decreases s.len() - m,
{
    if m == s.len() {
        assert(s.take(m) =~= s);
    } else {
        let a = s.take(m);
        let b = s.take(m + 1);
        assert(b.drop_last() =~= a);
        assert(b.last() == s[m]);
        assert(forall|j: int| 0 <= j < a.len() ==> a[j] == s[j] && is_digit(#[trigger] a[j]));
        lemma_digits_value_nonneg(a);
        assert(digits_value(b) == digits_value(a) * 10 + (s[m] - 48));
        lemma_digits_prefix_le(s, m + 1);
    }
}

/// Parses the pid the lock contents record: optional surrounding ASCII
/// whitespace around a non-empty decimal digit run whose value fits an
/// `i32`. Anything else is unparsable and yields `None`, never an error.
pub fn parse_pid(contents: &Vec<u8>) -> (r: Option<i32>)
    ensures
        r is Some <==> pid_bytes_valid(contents@),
        r is Some ==> r->0 == digits_value(trimmed(contents@)),
{
    let n = contents.len();
    let mut lo: usize = 0;
    loop
        invariant_except_break
            n == contents@.len(),
            lo <= n,
            forall|j: int| 0 <= j < lo ==> is_space(#[trigger] contents@[j]),
        ensures
            lo <= n,
            n == contents@.len(),
            forall|j: int| 0 <= j < lo ==> is_space(#[trigger] contents@[j]),
            lo == n || !is_space(contents@[lo as int]),
        decreases n - lo,
    {
        if lo >= n {
            break ;
        }
        if !is_space_byte(contents[lo]) {
            break ;
        }
        lo += 1;
    }
    let mut hi: usize = n;
    loop
        invariant_except_break
            n == contents@.len(),
            lo <= hi <= n,
            lo == n || !is_space(contents@[lo as int]),
            forall|j: int| hi <= j < n ==> is_space(#[trigger] contents@[j]),
        ensures
            lo <= hi <= n,
            n == contents@.len(),
            forall|j: int| hi <= j < n ==> is_space(#[trigger] contents@[j]),
            hi == lo || !is_space(contents@[hi - 1]),
        decreases hi,
    {
        if hi <= lo {
            break ;
        }
        if !is_space_byte(contents[hi - 1]) {
            break ;
        }
        hi -= 1;
    }
    proof {
        lemma_trim_front_is(contents@, lo as int);
        let rest = contents@.skip(lo as int);
        assert(forall|j: int|
            hi - lo <= j < rest.len() ==> rest[j] == contents@[j + lo] && is_space(
                #[trigger] rest[j]));
        if hi > lo {
            assert(rest[hi - lo - 1] == contents@[hi - 1]);
        } else {
            if lo < n {
                assert(rest[0] == contents@[lo as int]);
                assert(!is_space(rest[0]));
                assert(hi == lo);
            }
        }
        lemma_trim_back_is(rest, hi - lo);
        assert(trimmed(contents@) == contents@.subrange(lo as int, hi as int)) by {
            assert(rest.take(hi - lo) =~= contents@.subrange(lo as int, hi as int));
        }
    }
    if lo == hi {
        return None;
    }
    let ghost t = trimmed(contents@);
    let mut val: i32 = 0;
    let mut k: usize = lo;
    proof {
        assert(t.take(0) =~= Seq::<u8>::empty());
    }
    while k < hi
        invariant
            lo <= k <= hi <= n,
            n == contents@.len(),
            t == trimmed(contents@),
            t == contents@.subrange(lo as int, hi as int),
            forall|j: int| lo <= j < k ==> is_digit(#[trigger] contents@[j]),
            0 <= val <= i32::MAX,
            val == digits_value(t.take(k - lo)),
        decreases hi - k,
    {
        let b = contents[k];
        if b < 48 || b > 57 {
            proof {
                assert(t[k - lo] == contents@[k as int]);
                assert(!is_digit(t[k - lo]));
            }
            return None;
        }
        let d = (b - 48) as i32;
        proof {
            let a = t.take(k - lo);
            let bb = t.take(k - lo + 1);
            assert(bb.drop_last() =~= a);
            assert(bb.last() == t[k - lo]);
            assert(t[k - lo] == contents@[k as int]);
            assert(digits_value(bb) == digits_value(a) * 10 + (b - 48));
        }
        if val > (i32::MAX - d) / 10 {
            proof {
                assert(val * 10 + d > i32::MAX) by {
                    assert(val >= (i32::MAX - d) / 10 + 1);
                    assert(((i32::MAX - d) / 10 + 1) * 10 >= i32::MAX - d + 1) by (nonlinear_arith)
                        requires
                            d >= 0,
                    ;
                    assert(val * 10 >= ((i32::MAX - d) / 10 + 1) * 10) by (nonlinear_arith)
                        requires
                            val >= (i32::MAX - d) / 10 + 1,
                    ;
                }
                if pid_bytes_valid(contents@) {
                    lemma_digits_prefix_le(t, k - lo + 1);
                }
            }
            return None;
        }
        val = val * 10 + d;
        k += 1;
    }
    proof {
        assert(t.take(hi - lo) =~= t);
        assert(all_digits(t));
    }
    Some(val)
}

/// The recorded pid, if the lock file exists and holds one. A missing
/// lock, or contents that do not parse, mean "not running": `None`, never
/// an error.
pub fn pid_from_lock(lock_contents: Option<&Vec<u8>>) -> (r: Option<i32>)
    ensures
        r is Some <==> (lock_contents is Some && pid_bytes_valid(lock_contents->0@)),
        r is Some ==> r->0 == digits_value(trimmed(lock_contents->0@)),
{
    match lock_contents {
        Some(c) => parse_pid(c),
        None => None,
    }
}

/// Which process name the liveness check compares against. The system has
/// historically checked the orchestrator's own binary name, not the
/// engine's; this is preserved as an explicit, named policy choice.
#[derive(Clone, Copy, Debug, PartialEq, Eq, Structural)]
pub enum IdentityTarget {
    /// Compare against the orchestrator's own binary name.
    Orchestrator,
    /// Compare against the engine's program name.
    Engine,
}

/// The process name a liveness target expects to find in the process
/// table.
pub open spec fn expected_name(t: IdentityTarget) -> Seq<char> {
    match t {
        IdentityTarget::Orchestrator => "zaprett"@,
        IdentityTarget::Engine => "nfqws"@,
    }
}

/// The expected process name as a string.
pub fn expected_process_name(t: IdentityTarget) -> (r: String)
    ensures
        r@ == expected_name(t),
{
    match t {
        IdentityTarget::Orchestrator => String::from_str("zaprett"),
        IdentityTarget::Engine => String::from_str("nfqws"),
    }
}

/// The liveness verdict, given what the process table reported for the
/// recorded pid: running exactly when such a process exists and its name
/// is the target's expected name. A stale pid — no live process — is
/// "not running", tolerated without error.
pub fn liveness_verdict(process_name: Option<&String>, target: IdentityTarget) -> (r: bool)
    ensures
        r == (match process_name {
            Some(name) => name@ == expected_name(target),
            None => false,
        }),
{
    match process_name {
        Some(name) => {
            let want = expected_process_name(target);
            *name == want
        },
        None => false,
    }
}

/// The filesystem decisions of one daemonization: where the new process
/// id is recorded, the working directory, and the per-variant log files
/// that capture the engine's output.
pub struct DaemonPlan {
    pub pid_file: String,
    pub work_dir: String,
    pub stdout_log: String,
    pub stderr_log: String,
}

/// Workspace file capturing the engine's standard output.
pub open spec fn stdout_log_spec(v: EngineVariant) -> Seq<char> {
    match v {
        EngineVariant::Primary => "/data/adb/modules/zaprett/tmp/nfqws.out"@,
        EngineVariant::Secondary => "/data/adb/modules/zaprett/tmp/nfqws2.out"@,
    }
}

/// Workspace file capturing the engine's standard error.
pub open spec fn stderr_log_spec(v: EngineVariant) -> Seq<char> {
    match v {
        EngineVariant::Primary => "/data/adb/modules/zaprett/tmp/nfqws.err"@,
        EngineVariant::Secondary => "/data/adb/modules/zaprett/tmp/nfqws2.err"@,
    }
}

/// Fixes the paths one daemonization uses: the pid lock, the workspace as
/// working directory, and the variant's log files.
pub fn daemon_plan(v: EngineVariant) -> (r: DaemonPlan)
    ensures
        r.pid_file@ == "/data/adb/modules/zaprett/tmp/pid.lock"@,
        r.work_dir@ == "/data/adb/modules/zaprett/tmp"@,
        r.stdout_log@ == stdout_log_spec(v),
        r.stderr_log@ == stderr_log_spec(v),
{
    DaemonPlan {
        pid_file: String::from_str("/data/adb/modules/zaprett/tmp/pid.lock"),
        work_dir: String::from_str("/data/adb/modules/zaprett/tmp"),
        stdout_log: match v {
            EngineVariant::Primary => String::from_str("/data/adb/modules/zaprett/tmp/nfqws.out"),
            EngineVariant::Secondary => String::from_str("/data/adb/modules/zaprett/tmp/nfqws2.out"),
        },
        stderr_log: match v {
            EngineVariant::Primary => String::from_str("/data/adb/modules/zaprett/tmp/nfqws.err"),
            EngineVariant::Secondary => String::from_str("/data/adb/modules/zaprett/tmp/nfqws2.err"),
        },
    }
}

} // verus!
