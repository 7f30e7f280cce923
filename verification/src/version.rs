//! The module's version metadata: a `version` entry in the ini-format
//! `module.prop` text that the packaging writes. The I/O layer reads the
//! file; this module extracts the entry.

use vstd::prelude::*;

verus! {

/// The value stored under `key` in the general (unnamed) section of the
/// ini text, as the ini format reads it; `None` when the text does not
/// parse or the key is absent. A function of the text and key alone.
pub uninterp spec fn ini_value_of(contents: Seq<char>, key: Seq<char>) -> Option<Seq<char>>;

/// Relies on `ini::Ini::load_from_str`, `Ini::section` and
/// `Properties::get`: parses the ini text and looks `key` up in the
/// general section. The result depends on the text and key alone.
#[verifier::external_body]
fn ini_general_get(contents: &str, key: &str) -> (r: Option<String>)
    ensures
        r is Some <==> ini_value_of(contents@, key@) is Some,
        r is Some ==> r->0@ == ini_value_of(contents@, key@)->0,
{
    match ini::Ini::load_from_str(contents) {
        Ok(doc) => doc.section(None::<String>).and_then(|p| p.get(key)).map(String::from),
        Err(_) => None,
    }
}

/// The module's version: the `version` entry of the metadata text, if the
/// text carries one.
pub fn module_version(prop_contents: &str) -> (r: Option<String>)
    ensures
        r is Some <==> ini_value_of(prop_contents@, "version"@) is Some,
        r is Some ==> r->0@ == ini_value_of(prop_contents@, "version"@)->0,
{
    ini_general_get(prop_contents, "version")
}

} // verus!
