//! The version record and the text each of its fields renders as.

use vstd::prelude::*;
use vstd::string::StrSliceExecFns;
use crate::numtext::{dec_text, signed_dec_text, u64_dec_string, i64_dec_string};

verus! {

/// The build metadata rendered into the version file.  Every field is
/// required; an absent source is resolved by the caller into placeholder
/// text before the record reaches the engine.
pub struct AppVersion {
    pub version: String,
    pub build_number: u32,
    pub hash: String,
    pub timestamp: i64,
    pub source: String,
}

/// The mathematical content of an [`AppVersion`]: each text field as a
/// character sequence, the numeric fields as themselves.
pub struct AppVersionData {
    pub version: Seq<char>,
    pub build_number: u32,
    pub hash: Seq<char>,
    pub timestamp: i64,
    pub source: Seq<char>,
}

impl View for AppVersion {
    type V = AppVersionData;

    open spec fn view(&self) -> AppVersionData {
        AppVersionData {
            version: self.version@,
            build_number: self.build_number,
            hash: self.hash@,
            timestamp: self.timestamp,
            source: self.source@,
        }
    }
}

/// Whether a placeholder name refers to a field of the record.
pub open spec fn known_field(name: Seq<char>) -> bool {
    ||| name == "version"@
    ||| name == "build_number"@
    ||| name == "hash"@
    ||| name == "timestamp"@
    ||| name == "source"@
}

/// The text a known field renders as: text fields verbatim, numeric fields
/// in canonical decimal form.  An unknown name yields empty text, but only
/// a known name's text ever reaches an output.
pub open spec fn field_text(r: AppVersionData, name: Seq<char>) -> Seq<char> {
    if name == "version"@ {
        r.version
    } else if name == "build_number"@ {
        dec_text(r.build_number as nat)
    } else if name == "hash"@ {
        r.hash
    } else if name == "timestamp"@ {
        signed_dec_text(r.timestamp as int)
    } else if name == "source"@ {
        r.source
    } else {
        Seq::empty()
    }
}

fn str_eq(a: &str, b: &str) -> (r: bool)
    ensures
        r == (a@ == b@),
{
    let alen = a.unicode_len();
    let blen = b.unicode_len();
    if alen != blen {
        return false;
    }
    let mut i: usize = 0;
    while i < alen
        invariant
            i <= alen,
            alen == a@.len(),
            alen == b@.len(),
            forall|j: int| 0 <= j < i ==> a@[j] == b@[j],
        decreases alen - i,
    {
        if a.get_char(i) != b.get_char(i) {
            return false;
        }
        i = i + 1;
    }
    proof {
        assert(a@ =~= b@);
    }
    true
}

/// Looks a placeholder name up in the record: the field's rendered text for
/// a known name, nothing for an unknown one.
pub fn field_string(record: &AppVersion, name: &String) -> (v: Option<String>)
    ensures
        match v {
            Some(s) => known_field(name@) && s@ == field_text(record@, name@),
            None => !known_field(name@),
        },
{
    if str_eq(name.as_str(), "version") {
        Some(record.version.clone())
    } else if str_eq(name.as_str(), "build_number") {
        Some(u64_dec_string(record.build_number as u64))
    } else if str_eq(name.as_str(), "hash") {
        Some(record.hash.clone())
    } else if str_eq(name.as_str(), "timestamp") {
        Some(i64_dec_string(record.timestamp))
    } else if str_eq(name.as_str(), "source") {
        Some(record.source.clone())
    } else {
        None
    }
}

} // verus!
