//! The list merger: concatenates ordered list files into single workspace
//! artifacts, and selects which list group and engine flag spelling the
//! active list mode calls for.
//!
//! The I/O layer reads each input file (or records that it could not be
//! opened) and hands the bytes in; it writes the merged bytes back out to
//! the workspace path the plan names.

use vstd::prelude::*;

use crate::config::{Config, ListType};
use crate::error::SvcError;

verus! {

/// One input to a merge: a path and the bytes read from it, or `None` when
/// the file could not be opened.
pub struct FileInput {
    pub path: String,
    pub contents: Option<Vec<u8>>,
}

/// The bytes an input contributes to the merged artifact.
pub open spec fn content_of(f: FileInput) -> Seq<u8> {
    match f.contents {
        Some(c) => c@,
        None => Seq::<u8>::empty(),
    }
}

/// The concatenation of all input contents, in the given order.
pub open spec fn merged_bytes(inputs: Seq<FileInput>) -> Seq<u8>
    decreases inputs.len(),
{
    if inputs.len() == 0 {
        Seq::<u8>::empty()
    } else {
        merged_bytes(inputs.drop_last()) + content_of(inputs.last())
    }
}

/// Every input could be opened.
pub open spec fn all_readable(inputs: Seq<FileInput>) -> bool {
    forall|i: int| 0 <= i < inputs.len() ==> (#[trigger] inputs[i]).contents is Some
}

/// Appends all of `src` to `out`.
fn push_all(out: &mut Vec<u8>, src: &Vec<u8>)
    ensures
        final(out)@ == old(out)@ + src@,
{
    let mut j: usize = 0;
    while j < src.len()
        invariant
            j <= src.len(),
            out@ == old(out)@ + src@.take(j as int),
        decreases src.len() - j,
    {
        out.push(src[j]);
        proof {
            assert(src@.take(j + 1) =~= src@.take(j as int) + seq![src@[j as int]]);
        }
        j += 1;
    }
    proof {
        assert(src@.take(src@.len() as int) =~= src@);
    }
}

/// Concatenates the contents of the inputs, in order, into one artifact.
///
/// Fails fast on the first input that could not be opened, naming that
/// path. An empty input sequence yields empty (zero-length) output, not an
/// error.
pub fn merge_files(inputs: &Vec<FileInput>) -> (r: Result<Vec<u8>, SvcError>)
    ensures
        r is Ok <==> all_readable(inputs@),
        r is Ok ==> r->Ok_0@ == merged_bytes(inputs@),
        r is Err ==> exists|i: int|
            0 <= i < inputs@.len() && (#[trigger] inputs@[i]).contents is None && (forall|j: int|
                0 <= j < i ==> (#[trigger] inputs@[j]).contents is Some) && r->Err_0 == (
            SvcError::Io { path: inputs@[i].path }),
{
    let mut out: Vec<u8> = Vec::new();
    let mut i: usize = 0;
    while i < inputs.len()
        invariant
            i <= inputs.len(),
            out@ == merged_bytes(inputs@.take(i as int)),
            forall|j: int| 0 <= j < i ==> (#[trigger] inputs@[j]).contents is Some,
        decreases inputs.len() - i,
    {
        match &inputs[i].contents {
            Some(c) => {
                push_all(&mut out, c);
            },
            None => {
                let bad = SvcError::Io { path: inputs[i].path.clone() };
                proof {
                    let wi = i as int;
                    assert(inputs@[wi].contents is None);
                }
                return Err(bad);
            },
        }
        proof {
            let t = inputs@.take(i + 1);
            assert(t.drop_last() =~= inputs@.take(i as int));
            assert(t.last() == inputs@[i as int]);
        }
        i += 1;
    }
    proof {
        assert(inputs@.take(inputs@.len() as int) =~= inputs@);
    }
    Ok(out)
}

/// Workspace path of the merged host-list artifact for a list mode.
pub open spec fn host_output_spec(t: ListType) -> Seq<char> {
    match t {
        ListType::Whitelist => "/data/adb/modules/zaprett/tmp/hostlist"@,
        ListType::Blacklist => "/data/adb/modules/zaprett/tmp/hostlist-exclude"@,
    }
}

/// Workspace path of the merged ipset artifact for a list mode.
pub open spec fn ipset_output_spec(t: ListType) -> Seq<char> {
    match t {
        ListType::Whitelist => "/data/adb/modules/zaprett/tmp/ipset"@,
        ListType::Blacklist => "/data/adb/modules/zaprett/tmp/ipset-exclude"@,
    }
}

/// The engine flag that names the merged host-list artifact.
pub open spec fn hostlist_flag_spec(t: ListType) -> Seq<char> {
    match t {
        ListType::Whitelist => "--hostlist=/data/adb/modules/zaprett/tmp/hostlist"@,
        ListType::Blacklist => "--hostlist-exclude=/data/adb/modules/zaprett/tmp/hostlist-exclude"@,
    }
}

/// The engine flag that names the merged ipset artifact.
pub open spec fn ipset_flag_spec(t: ListType) -> Seq<char> {
    match t {
        ListType::Whitelist => "--ipset=/data/adb/modules/zaprett/tmp/ipset"@,
        ListType::Blacklist => "--ipset-exclude=/data/adb/modules/zaprett/tmp/ipset-exclude"@,
    }
}

/// The flag-name suffix a list mode selects: empty under `Whitelist`,
/// `-exclude` under `Blacklist`.
pub open spec fn exclude_suffix(t: ListType) -> Seq<char> {
    match t {
        ListType::Whitelist => Seq::<char>::empty(),
        ListType::Blacklist => "-exclude"@,
    }
}

/// What one run of the merger must do: which ordered file groups to
/// concatenate, where the artifacts go, and the engine flags naming them.
pub struct MergePlan<'a> {
    pub host_files: &'a Vec<String>,
    pub ipset_files: &'a Vec<String>,
    pub host_output: String,
    pub ipset_output: String,
    pub hostlist_flag: String,
    pub ipset_flag: String,
}

impl ListType {
    /// Selects the list group and flag spelling for this mode.
    ///
    /// `Whitelist` draws from the non-excluded groups and emits plain flag
    /// names; `Blacklist` draws from the exclude groups and emits the
    /// `-exclude` spelling. Exactly one group is active per run.
    pub fn merge<'a>(&self, config: &'a Config) -> (plan: MergePlan<'a>)
        ensures
            plan.host_files@ == (match *self {
                ListType::Whitelist => config.active_lists@,
                ListType::Blacklist => config.active_exclude_lists@,
            }),
            plan.ipset_files@ == (match *self {
                ListType::Whitelist => config.active_ipsets@,
                ListType::Blacklist => config.active_exclude_ipsets@,
            }),
            plan.host_output@ == host_output_spec(*self),
            plan.ipset_output@ == ipset_output_spec(*self),
            plan.hostlist_flag@ == hostlist_flag_spec(*self),
            plan.ipset_flag@ == ipset_flag_spec(*self),
    {
        match self {
            ListType::Whitelist => MergePlan {
                host_files: &config.active_lists,
                ipset_files: &config.active_ipsets,
                host_output: String::from_str("/data/adb/modules/zaprett/tmp/hostlist"),
                ipset_output: String::from_str("/data/adb/modules/zaprett/tmp/ipset"),
                hostlist_flag: String::from_str("--hostlist=/data/adb/modules/zaprett/tmp/hostlist"),
                ipset_flag: String::from_str("--ipset=/data/adb/modules/zaprett/tmp/ipset"),
            },
            ListType::Blacklist => MergePlan {
                host_files: &config.active_exclude_lists,
                ipset_files: &config.active_exclude_ipsets,
                host_output: String::from_str("/data/adb/modules/zaprett/tmp/hostlist-exclude"),
                ipset_output: String::from_str("/data/adb/modules/zaprett/tmp/ipset-exclude"),
                hostlist_flag: String::from_str(
                    "--hostlist-exclude=/data/adb/modules/zaprett/tmp/hostlist-exclude",
                ),
                ipset_flag: String::from_str(
                    "--ipset-exclude=/data/adb/modules/zaprett/tmp/ipset-exclude",
                ),
            },
        }
    }
}

/// Each emitted flag is the flag name with the mode's suffix, an equals
/// sign, and the workspace path of the artifact it scopes — so `Blacklist`
/// is the one mode whose flags carry `-exclude`, and the flag always names
/// the artifact the plan writes.
pub proof fn lemma_flags_name_outputs(t: ListType)
    ensures
        hostlist_flag_spec(t) == "--hostlist"@ + exclude_suffix(t) + "="@ + host_output_spec(t),
        ipset_flag_spec(t) == "--ipset"@ + exclude_suffix(t) + "="@ + ipset_output_spec(t),
{
    reveal_strlit("--hostlist");
    reveal_strlit("--ipset");
    reveal_strlit("-exclude");
    reveal_strlit("=");
    reveal_strlit("/data/adb/modules/zaprett/tmp/hostlist");
    reveal_strlit("/data/adb/modules/zaprett/tmp/hostlist-exclude");
    reveal_strlit("/data/adb/modules/zaprett/tmp/ipset");
    reveal_strlit("/data/adb/modules/zaprett/tmp/ipset-exclude");
    reveal_strlit("--hostlist=/data/adb/modules/zaprett/tmp/hostlist");
    reveal_strlit("--hostlist-exclude=/data/adb/modules/zaprett/tmp/hostlist-exclude");
    reveal_strlit("--ipset=/data/adb/modules/zaprett/tmp/ipset");
    reveal_strlit("--ipset-exclude=/data/adb/modules/zaprett/tmp/ipset-exclude");
    match t {
        ListType::Whitelist => {
            assert(hostlist_flag_spec(t) =~= "--hostlist"@ + exclude_suffix(t) + "="@
                + host_output_spec(t));
            assert(ipset_flag_spec(t) =~= "--ipset"@ + exclude_suffix(t) + "="@ + ipset_output_spec(
                t,
            ));
        },
        ListType::Blacklist => {
            assert(hostlist_flag_spec(t) =~= "--hostlist"@ + exclude_suffix(t) + "="@
                + host_output_spec(t));
            assert(ipset_flag_spec(t) =~= "--ipset"@ + exclude_suffix(t) + "="@ + ipset_output_spec(
                t,
            ));
        },
    }
}

} // verus!
