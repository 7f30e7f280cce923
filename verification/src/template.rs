//! The strategy templater: resolves the strategy text (user file or the
//! built-in default) and substitutes the four recognized placeholders —
//! `hostlist`, `ipset`, `zaprettdir`, `libsdir` — in their bare (`$name`)
//! and braced (`${name}`) spellings.
//!
//! Substitution is a single left-to-right pass: replaced text is never
//! rescanned, so a binding value containing a placeholder spelling stays
//! as it is.

use vstd::prelude::*;

use crate::config::EngineVariant;
use vstd::string::StringSliceAdditionalSpecFns;
use vstd::string::StrSliceExecFns;

verus! {

/// The built-in default strategy text, used whenever no user-supplied
/// strategy file can be read. Both engine variants share this text.
pub const DEFAULT_START: &'static str = "
        --filter-tcp=80 --dpi-desync=fake,split2 --dpi-desync-autottl=2 --dpi-desync-fooling=md5sig,badsum $hostlist --new
        --filter-tcp=443 $hostlist --dpi-desync=fake,split2 --dpi-desync-repeats=6 --dpi-desync-fooling=md5sig,badsum --dpi-desync-fake-tls=${zaprettdir}/bin/tls_clienthello_www_google_com.bin --new
        --filter-tcp=80,443 --dpi-desync=fake,disorder2 --dpi-desync-repeats=6 --dpi-desync-autottl=2 --dpi-desync-fooling=md5sig,badsum $hostlist --new
        --filter-udp=50000-50100 --dpi-desync=fake --dpi-desync-any-protocol --dpi-desync-fake-quic=0xC30000000108 --new
        --filter-udp=443 $hostlist --dpi-desync=fake --dpi-desync-repeats=6 --dpi-desync-fake-quic=${zaprettdir}/bin/quic_initial_www_google_com.bin --new
        --filter-udp=443 --dpi-desync=fake --dpi-desync-repeats=6 $hostlist
        ";

/// The computed values the four placeholders resolve to.
pub struct Bindings {
    pub hostlist: Vec<u8>,
    pub ipset: Vec<u8>,
    pub zaprettdir: Vec<u8>,
    pub libsdir: Vec<u8>,
}

/// The mathematical model of a [`Bindings`] value.
pub ghost struct BindingsView {
    pub hostlist: Seq<u8>,
    pub ipset: Seq<u8>,
    pub zaprettdir: Seq<u8>,
    pub libsdir: Seq<u8>,
}

impl View for Bindings {
    type V = BindingsView;

    open spec fn view(&self) -> BindingsView {
        BindingsView {
            hostlist: self.hostlist@,
            ipset: self.ipset@,
            zaprettdir: self.zaprettdir@,
            libsdir: self.libsdir@,
        }
    }
}

pub open spec fn pat_braced_hostlist() -> Seq<u8> {
    "${hostlist}".spec_bytes()
}

pub open spec fn pat_bare_hostlist() -> Seq<u8> {
    "$hostlist".spec_bytes()
}

pub open spec fn pat_braced_ipset() -> Seq<u8> {
    "${ipset}".spec_bytes()
}

pub open spec fn pat_bare_ipset() -> Seq<u8> {
    "$ipset".spec_bytes()
}

pub open spec fn pat_braced_zaprettdir() -> Seq<u8> {
    "${zaprettdir}".spec_bytes()
}

pub open spec fn pat_bare_zaprettdir() -> Seq<u8> {
    "$zaprettdir".spec_bytes()
}

pub open spec fn pat_braced_libsdir() -> Seq<u8> {
    "${libsdir}".spec_bytes()
}

pub open spec fn pat_bare_libsdir() -> Seq<u8> {
    "$libsdir".spec_bytes()
}

/// `s` starts with `pat`.
pub open spec fn begins_with(s: Seq<u8>, pat: Seq<u8>) -> bool {
    pat.len() <= s.len() && s.subrange(0, pat.len() as int) == pat
}

/// `s` starts with the non-empty pattern `pat`.
pub open spec fn matches_pat(s: Seq<u8>, pat: Seq<u8>) -> bool {
    pat.len() > 0 && begins_with(s, pat)
}

/// The byte contents and lengths of the eight placeholder spellings.
///
/// Every spelling starts with `$`, and no two spellings agree at their
/// second byte, which is what makes the substitution cases disjoint.
pub proof fn lemma_pattern_bytes()
    ensures
        pat_braced_hostlist().len() == 11,
        pat_bare_hostlist().len() == 9,
        pat_braced_ipset().len() == 8,
        pat_bare_ipset().len() == 6,
        pat_braced_zaprettdir().len() == 13,
        pat_bare_zaprettdir().len() == 11,
        pat_braced_libsdir().len() == 10,
        pat_bare_libsdir().len() == 8,
        pat_braced_hostlist()[1] == '{' as u8,
        pat_bare_hostlist()[1] == 'h' as u8,
        pat_braced_ipset()[1] == '{' as u8,
        pat_bare_ipset()[1] == 'i' as u8,
        pat_braced_zaprettdir()[1] == '{' as u8,
        pat_bare_zaprettdir()[1] == 'z' as u8,
        pat_braced_libsdir()[1] == '{' as u8,
        pat_bare_libsdir()[1] == 'l' as u8,
        pat_braced_hostlist()[2] == 'h' as u8,
        pat_braced_ipset()[2] == 'i' as u8,
        pat_braced_zaprettdir()[2] == 'z' as u8,
        pat_braced_libsdir()[2] == 'l' as u8,
{
    broadcast use vstd::utf8::is_ascii_chars_encode_utf8;

    reveal_strlit("${hostlist}");
    reveal_strlit("$hostlist");
    reveal_strlit("${ipset}");
    reveal_strlit("$ipset");
    reveal_strlit("${zaprettdir}");
    reveal_strlit("$zaprettdir");
    reveal_strlit("${libsdir}");
    reveal_strlit("$libsdir");
    assert(vstd::utf8::is_ascii_chars("${hostlist}"@));
    assert(vstd::utf8::is_ascii_chars("$hostlist"@));
    assert(vstd::utf8::is_ascii_chars("${ipset}"@));
    assert(vstd::utf8::is_ascii_chars("$ipset"@));
    assert(vstd::utf8::is_ascii_chars("${zaprettdir}"@));
    assert(vstd::utf8::is_ascii_chars("$zaprettdir"@));
    assert(vstd::utf8::is_ascii_chars("${libsdir}"@));
    assert(vstd::utf8::is_ascii_chars("$libsdir"@));
}

/// The template with every placeholder occurrence replaced, scanning left
/// to right, braced spellings tried before bare ones at each position.
pub open spec fn subst_bytes(t: Seq<u8>, b: BindingsView) -> Seq<u8>
    decreases t.len(),
{
    if t.len() == 0 {
        Seq::<u8>::empty()
    } else if matches_pat(t, pat_braced_hostlist()) {
        b.hostlist + subst_bytes(t.skip(pat_braced_hostlist().len() as int), b)
    } else if matches_pat(t, pat_bare_hostlist()) {
        b.hostlist + subst_bytes(t.skip(pat_bare_hostlist().len() as int), b)
    } else if matches_pat(t, pat_braced_ipset()) {
        b.ipset + subst_bytes(t.skip(pat_braced_ipset().len() as int), b)
    } else if matches_pat(t, pat_bare_ipset()) {
        b.ipset + subst_bytes(t.skip(pat_bare_ipset().len() as int), b)
    } else if matches_pat(t, pat_braced_zaprettdir()) {
        b.zaprettdir + subst_bytes(t.skip(pat_braced_zaprettdir().len() as int), b)
    } else if matches_pat(t, pat_bare_zaprettdir()) {
        b.zaprettdir + subst_bytes(t.skip(pat_bare_zaprettdir().len() as int), b)
    } else if matches_pat(t, pat_braced_libsdir()) {
        b.libsdir + subst_bytes(t.skip(pat_braced_libsdir().len() as int), b)
    } else if matches_pat(t, pat_bare_libsdir()) {
        b.libsdir + subst_bytes(t.skip(pat_bare_libsdir().len() as int), b)
    } else {
        seq![t[0]] + subst_bytes(t.skip(1), b)
    }
}

/// Whether the bytes of `t` starting at `i` begin with `pat`.
fn match_at(t: &Vec<u8>, i: usize, pat: &[u8]) -> (r: bool)
    requires
        i <= t@.len(),
    ensures
        r == begins_with(t@.skip(i as int), pat@),
{
    if pat.len() > t.len() - i {
        return false;
    }
    let mut j: usize = 0;
    while j < pat.len()
        invariant
            i + pat@.len() <= t@.len(),
            t@.len() <= usize::MAX,
            j <= pat@.len(),
            forall|k: int| 0 <= k < j ==> t@[i + k] == pat@[k],
        decreases pat@.len() - j,
    {
        let a = t[i + j];
        let p = *vstd::slice::slice_index_get(pat, j);
        if a != p {
            proof {
                if begins_with(t@.skip(i as int), pat@) {
                    assert(t@.skip(i as int).subrange(0, pat@.len() as int)[j as int] == pat@[j as int]);
                    assert(t@.skip(i as int)[j as int] == t@[i + j]);
                }
            }
            return false;
        }
        j += 1;
    }
    proof {
        assert(t@.skip(i as int).subrange(0, pat@.len() as int) =~= pat@);
    }
    true
}

/// Appends all of `src` to `out`.
fn append_bytes(out: &mut Vec<u8>, src: &Vec<u8>)
    ensures
        final(out)@ == old(out)@ + src@,
{
    let mut j: usize = 0;
    while j < src.len()
        invariant
            j <= src.len(),
            out@ == old(out)@ + src@.take(j as int),
        decreases src.len() - j,
    {
        out.push(src[j]);
        proof {
            assert(src@.take(j + 1) =~= src@.take(j as int) + seq![src@[j as int]]);
        }
        j += 1;
    }
    proof {
        assert(src@.take(src@.len() as int) =~= src@);
    }
}

/// Replaces every occurrence of the four placeholder names, in both their
/// bare and braced spellings, with the corresponding binding value.
pub fn substitute(template: &Vec<u8>, b: &Bindings) -> (r: Vec<u8>)
    ensures
        r@ == subst_bytes(template@, b@),
{
    let mut out: Vec<u8> = Vec::new();
    let mut i: usize = 0;
    proof {
        assert(template@.skip(0) =~= template@);
        assert(Seq::<u8>::empty() + subst_bytes(template@, b@) =~= subst_bytes(template@, b@));
    }
    while i < template.len()
        invariant
            i <= template.len(),
            out@ + subst_bytes(template@.skip(i as int), b@) == subst_bytes(template@, b@),
        decreases template.len() - i,
    {
        proof {
            lemma_pattern_bytes();
        }
        if match_at(template, i, "${hostlist}".as_bytes()) {
            let pl = "${hostlist}".as_bytes().len();
            proof {
                step_replaced(template@, i as int, pat_braced_hostlist(), b@, out@, b@.hostlist);
            }
            append_bytes(&mut out, &b.hostlist);
            i += pl;
        } else if match_at(template, i, "$hostlist".as_bytes()) {
            let pl = "$hostlist".as_bytes().len();
            proof {
                step_replaced(template@, i as int, pat_bare_hostlist(), b@, out@, b@.hostlist);
            }
            append_bytes(&mut out, &b.hostlist);
            i += pl;
        } else if match_at(template, i, "${ipset}".as_bytes()) {
            let pl = "${ipset}".as_bytes().len();
            proof {
                step_replaced(template@, i as int, pat_braced_ipset(), b@, out@, b@.ipset);
            }
            append_bytes(&mut out, &b.ipset);
            i += pl;
        } else if match_at(template, i, "$ipset".as_bytes()) {
            let pl = "$ipset".as_bytes().len();
            proof {
                step_replaced(template@, i as int, pat_bare_ipset(), b@, out@, b@.ipset);
            }
            append_bytes(&mut out, &b.ipset);
            i += pl;
        } else if match_at(template, i, "${zaprettdir}".as_bytes()) {
            let pl = "${zaprettdir}".as_bytes().len();
            proof {
                step_replaced(template@, i as int, pat_braced_zaprettdir(), b@, out@, b@.zaprettdir);
            }
            append_bytes(&mut out, &b.zaprettdir);
            i += pl;
        } else if match_at(template, i, "$zaprettdir".as_bytes()) {
            let pl = "$zaprettdir".as_bytes().len();
            proof {
                step_replaced(template@, i as int, pat_bare_zaprettdir(), b@, out@, b@.zaprettdir);
            }
            append_bytes(&mut out, &b.zaprettdir);
            i += pl;
        } else if match_at(template, i, "${libsdir}".as_bytes()) {
            let pl = "${libsdir}".as_bytes().len();
            proof {
                step_replaced(template@, i as int, pat_braced_libsdir(), b@, out@, b@.libsdir);
            }
            append_bytes(&mut out, &b.libsdir);
            i += pl;
        } else if match_at(template, i, "$libsdir".as_bytes()) {
            let pl = "$libsdir".as_bytes().len();
            proof {
                step_replaced(template@, i as int, pat_bare_libsdir(), b@, out@, b@.libsdir);
            }
            append_bytes(&mut out, &b.libsdir);
            i += pl;
        } else {
            let c = template[i];
            proof {
                let s = template@.skip(i as int);
                assert(s[0] == template@[i as int]);
                assert(subst_bytes(s, b@) == seq![s[0]] + subst_bytes(s.skip(1), b@));
                assert(s.skip(1) =~= template@.skip(i + 1));
                assert(out@ + seq![template@[i as int]] + subst_bytes(template@.skip(i + 1), b@)
                    =~= out@ + subst_bytes(s, b@));
            }
            out.push(c);
            i += 1;
        }
    }
    proof {
        assert(template@.skip(template@.len() as int) =~= Seq::<u8>::empty());
        assert(out@ + Seq::<u8>::empty() =~= out@);
    }
    out
}

/// One replacement step of the scan: when the remainder at `i` begins with
/// the non-empty pattern `pat` whose case fires in `subst_bytes`, the
/// output grows by the binding value and the scan skips the pattern.
proof fn step_replaced(t: Seq<u8>, i: int, pat: Seq<u8>, b: BindingsView, out: Seq<u8>, val: Seq<u8>)
    requires
        0 <= i,
        i + pat.len() <= t.len(),
        pat.len() > 0,
        subst_bytes(t.skip(i), b) == val + subst_bytes(t.skip(i).skip(pat.len() as int), b),
        out + subst_bytes(t.skip(i), b) == subst_bytes(t, b),
    ensures
        (out + val) + subst_bytes(t.skip(i + pat.len()), b) == subst_bytes(t, b),
{
    assert(t.skip(i).skip(pat.len() as int) =~= t.skip(i + pat.len()));
    assert((out + val) + subst_bytes(t.skip(i + pat.len()), b) =~= out + (val + subst_bytes(
        t.skip(i).skip(pat.len() as int),
        b,
    )));
}

/// A template that begins with `pat` cannot also begin with `q` when the
/// two disagree at some index below both their lengths.
proof fn lemma_not_begins(t: Seq<u8>, pat: Seq<u8>, q: Seq<u8>, k: int)
    requires
        begins_with(t, pat),
        0 <= k < pat.len(),
        k < q.len(),
        pat[k] != q[k],
    ensures
        !begins_with(t, q),
{
    if begins_with(t, q) {
        assert(t.subrange(0, q.len() as int)[k] == t[k]);
        assert(t.subrange(0, pat.len() as int)[k] == t[k]);
    }
}

/// The bare and braced spellings of a placeholder resolve identically: a
/// template starting with either spelling substitutes to the binding value
/// followed by the substitution of the rest, for every binding and rest.
pub proof fn lemma_bare_braced_resolve_alike(rest: Seq<u8>, b: BindingsView)
    ensures
        subst_bytes(pat_braced_hostlist() + rest, b) == b.hostlist + subst_bytes(rest, b),
        subst_bytes(pat_bare_hostlist() + rest, b) == b.hostlist + subst_bytes(rest, b),
        subst_bytes(pat_braced_ipset() + rest, b) == b.ipset + subst_bytes(rest, b),
        subst_bytes(pat_bare_ipset() + rest, b) == b.ipset + subst_bytes(rest, b),
        subst_bytes(pat_braced_zaprettdir() + rest, b) == b.zaprettdir + subst_bytes(rest, b),
        subst_bytes(pat_bare_zaprettdir() + rest, b) == b.zaprettdir + subst_bytes(rest, b),
        subst_bytes(pat_braced_libsdir() + rest, b) == b.libsdir + subst_bytes(rest, b),
        subst_bytes(pat_bare_libsdir() + rest, b) == b.libsdir + subst_bytes(rest, b),
{
    lemma_pattern_bytes();
    {
        let t = pat_braced_hostlist() + rest;
        assert(begins_with(t, pat_braced_hostlist())) by {
            assert(t.subrange(0, pat_braced_hostlist().len() as int) =~= pat_braced_hostlist());
        }
        assert(t.skip(pat_braced_hostlist().len() as int) =~= rest);
    }
    {
        let t = pat_bare_hostlist() + rest;
        assert(begins_with(t, pat_bare_hostlist())) by {
            assert(t.subrange(0, pat_bare_hostlist().len() as int) =~= pat_bare_hostlist());
        }
        lemma_not_begins(t, pat_bare_hostlist(), pat_braced_hostlist(), 1);
        assert(t.skip(pat_bare_hostlist().len() as int) =~= rest);
    }
    {
        let t = pat_braced_ipset() + rest;
        assert(begins_with(t, pat_braced_ipset())) by {
            assert(t.subrange(0, pat_braced_ipset().len() as int) =~= pat_braced_ipset());
        }
        lemma_not_begins(t, pat_braced_ipset(), pat_braced_hostlist(), 2);
        lemma_not_begins(t, pat_braced_ipset(), pat_bare_hostlist(), 1);
        assert(t.skip(pat_braced_ipset().len() as int) =~= rest);
    }
    {
        let t = pat_bare_ipset() + rest;
        assert(begins_with(t, pat_bare_ipset())) by {
            assert(t.subrange(0, pat_bare_ipset().len() as int) =~= pat_bare_ipset());
        }
        lemma_not_begins(t, pat_bare_ipset(), pat_braced_hostlist(), 1);
        lemma_not_begins(t, pat_bare_ipset(), pat_bare_hostlist(), 1);
        lemma_not_begins(t, pat_bare_ipset(), pat_braced_ipset(), 1);
        assert(t.skip(pat_bare_ipset().len() as int) =~= rest);
    }
    {
        let t = pat_braced_zaprettdir() + rest;
        assert(begins_with(t, pat_braced_zaprettdir())) by {
            assert(t.subrange(0, pat_braced_zaprettdir().len() as int) =~= pat_braced_zaprettdir());
        }
        lemma_not_begins(t, pat_braced_zaprettdir(), pat_braced_hostlist(), 2);
        lemma_not_begins(t, pat_braced_zaprettdir(), pat_bare_hostlist(), 1);
        lemma_not_begins(t, pat_braced_zaprettdir(), pat_braced_ipset(), 2);
        lemma_not_begins(t, pat_braced_zaprettdir(), pat_bare_ipset(), 1);
        assert(t.skip(pat_braced_zaprettdir().len() as int) =~= rest);
    }
    {
        let t = pat_bare_zaprettdir() + rest;
        assert(begins_with(t, pat_bare_zaprettdir())) by {
            assert(t.subrange(0, pat_bare_zaprettdir().len() as int) =~= pat_bare_zaprettdir());
        }
        lemma_not_begins(t, pat_bare_zaprettdir(), pat_braced_hostlist(), 1);
        lemma_not_begins(t, pat_bare_zaprettdir(), pat_bare_hostlist(), 1);
        lemma_not_begins(t, pat_bare_zaprettdir(), pat_braced_ipset(), 1);
        lemma_not_begins(t, pat_bare_zaprettdir(), pat_bare_ipset(), 1);
        lemma_not_begins(t, pat_bare_zaprettdir(), pat_braced_zaprettdir(), 1);
        assert(t.skip(pat_bare_zaprettdir().len() as int) =~= rest);
    }
    {
        let t = pat_braced_libsdir() + rest;
        assert(begins_with(t, pat_braced_libsdir())) by {
            assert(t.subrange(0, pat_braced_libsdir().len() as int) =~= pat_braced_libsdir());
        }
        lemma_not_begins(t, pat_braced_libsdir(), pat_braced_hostlist(), 2);
        lemma_not_begins(t, pat_braced_libsdir(), pat_bare_hostlist(), 1);
        lemma_not_begins(t, pat_braced_libsdir(), pat_braced_ipset(), 2);
        lemma_not_begins(t, pat_braced_libsdir(), pat_bare_ipset(), 1);
        lemma_not_begins(t, pat_braced_libsdir(), pat_braced_zaprettdir(), 2);
        lemma_not_begins(t, pat_braced_libsdir(), pat_bare_zaprettdir(), 1);
        assert(t.skip(pat_braced_libsdir().len() as int) =~= rest);
    }
    {
        let t = pat_bare_libsdir() + rest;
        assert(begins_with(t, pat_bare_libsdir())) by {
            assert(t.subrange(0, pat_bare_libsdir().len() as int) =~= pat_bare_libsdir());
        }
        lemma_not_begins(t, pat_bare_libsdir(), pat_braced_hostlist(), 1);
        lemma_not_begins(t, pat_bare_libsdir(), pat_bare_hostlist(), 1);
        lemma_not_begins(t, pat_bare_libsdir(), pat_braced_ipset(), 1);
        lemma_not_begins(t, pat_bare_libsdir(), pat_bare_ipset(), 1);
        lemma_not_begins(t, pat_bare_libsdir(), pat_braced_zaprettdir(), 1);
        lemma_not_begins(t, pat_bare_libsdir(), pat_bare_zaprettdir(), 1);
        lemma_not_begins(t, pat_bare_libsdir(), pat_braced_libsdir(), 1);
        assert(t.skip(pat_bare_libsdir().len() as int) =~= rest);
    }
}

/// The bytes of the fixed data-directory root that `zaprettdir` resolves to.
pub open spec fn zaprettdir_bytes() -> Seq<u8> {
    "/storage/emulated/0/zaprett".spec_bytes()
}

/// The bytes of the fixed library root that `libsdir` resolves to.
pub open spec fn libsdir_bytes() -> Seq<u8> {
    "/data/adb/modules/zaprett/libs".spec_bytes()
}

/// Binds the four placeholders for one run: the merger's two engine flags
/// and the two fixed filesystem roots.
pub fn standard_bindings(hostlist_flag: &String, ipset_flag: &String) -> (b: Bindings)
    ensures
        b@.hostlist == vstd::utf8::encode_utf8(hostlist_flag@),
        b@.ipset == vstd::utf8::encode_utf8(ipset_flag@),
        b@.zaprettdir == zaprettdir_bytes(),
        b@.libsdir == libsdir_bytes(),
{
    Bindings {
        hostlist: hostlist_flag.as_str().as_bytes_vec(),
        ipset: ipset_flag.as_str().as_bytes_vec(),
        zaprettdir: "/storage/emulated/0/zaprett".as_bytes_vec(),
        libsdir: "/data/adb/modules/zaprett/libs".as_bytes_vec(),
    }
}

/// The strategy text to run: the user-supplied text when one could be
/// read, else the engine variant's built-in default. Never an error.
pub fn resolve(variant: EngineVariant, user_template: Option<Vec<u8>>) -> (r: Vec<u8>)
    ensures
        r@ == (match user_template {
            Some(t) => t@,
            None => default_template_bytes(variant),
        }),
{
    match user_template {
        Some(t) => t,
        None => DEFAULT_START.as_bytes_vec(),
    }
}

/// The bytes of the built-in default strategy text for a variant.
pub open spec fn default_template_bytes(variant: EngineVariant) -> Seq<u8> {
    DEFAULT_START.spec_bytes()
}

} // verus!
