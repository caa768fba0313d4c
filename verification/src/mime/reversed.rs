//! The extension that stands for a MIME type where several share it.

use vstd::prelude::*;
use super::mapping::MIME_TYPES;
use super::table::pairs_of;

verus! {

/// MIME types, each with the extension that a file of this type gets.
/// Where this table names a MIME type, its extension is taken, whatever
/// extensions the table of extensions has for the type.
pub const SUFFIX_OVERRIDES: [(&'static str, &'static str); 18] = [
    ("application/java-archive", "jar"),
    ("application/javascript", "js"),
    ("application/octet-stream", ""),
    ("application/postscript", "ps"),
    ("application/x-perl", "pl"),
    ("application/x-pilot", "prc"),
    ("application/x-tcl", "tcl"),
    ("application/x-x509-ca-cert", "crt"),
    ("application/yaml", "yaml"),
    ("audio/midi", "mid"),
    ("audio/ogg", "ogg"),
    ("image/jpeg", "jpg"),
    ("image/svg+xml", "svg"),
    ("image/tiff", "tiff"),
    ("text/html", "html"),
    ("video/3gpp", "3gp"),
    ("video/mpeg", "mpeg"),
    ("video/x-ms-asf", "asf"),
];

/// Pair `t` of the pins is pair `at` of the table of extensions with its
/// two parts exchanged: the pinned extension has the MIME type that it is
/// pinned for.
pub open spec fn pinned_at(t: int, at: int) -> bool {
    &&& 0 <= at < MIME_TYPES@.len()
    &&& pairs_of(MIME_TYPES@)[at].0 == pairs_of(SUFFIX_OVERRIDES@)[t].1
    &&& pairs_of(MIME_TYPES@)[at].1 == pairs_of(SUFFIX_OVERRIDES@)[t].0
}

/// Every pin is a pair of the table of extensions with its two parts
/// exchanged.
pub proof fn lemma_overrides_in_table(t: int) -> (at: int)
    requires
        0 <= t < SUFFIX_OVERRIDES@.len(),
    ensures
        pinned_at(t, at),
{
    if t == 0 {
        43
    } else if t == 1 {
        50
    } else if t == 2 {
        0
    } else if t == 3 {
        89
    } else if t == 4 {
        83
    } else if t == 5 {
        88
    } else if t == 6 {
        104
    } else if t == 7 {
        16
    } else if t == 8 {
        129
    } else if t == 9 {
        59
    } else if t == 10 {
        77
    } else if t == 11 {
        49
    } else if t == 12 {
        100
    } else if t == 13 {
        106
    } else if t == 14 {
        37
    } else if t == 15 {
        2
    } else if t == 16 {
        67
    } else {
        7
    }
}

} // verus!
