//! The registry of MIME types: from a file extension to its MIME type and
//! from a MIME type back to the extension that a file of this type gets.

pub mod audit;
pub mod mapping;
pub mod reversed;
pub mod table;

use vstd::prelude::*;
use crate::text::optional_text;
use audit::lemma_shared_types_pinned;
use mapping::{lemma_extensions_ascend, MIME_TYPES};
use reversed::{lemma_overrides_in_table, pinned_at, SUFFIX_OVERRIDES};
use table::{
    binding, flipped, lemma_ascending_distinct, lemma_binding_concat, lemma_binding_none,
    lemma_binding_of_pair, lemma_binding_witness, lookup, lookup_key, pairs_of,
};

verus! {

/// The table of extensions as pairs of texts, extension first.
pub open spec fn forward_entries() -> Seq<(Seq<char>, Seq<char>)> {
    pairs_of(MIME_TYPES@)
}

/// The table of MIME types, MIME type first: every pair of the table of
/// extensions with its two parts exchanged, in that table's order, and
/// after them the pinned extensions, which therefore win.
pub open spec fn reverse_entries() -> Seq<(Seq<char>, Seq<char>)> {
    flipped(forward_entries()) + pairs_of(SUFFIX_OVERRIDES@)
}

/// The MIME type of an extension, if the registry knows the extension.
pub open spec fn mime_of(ext: Seq<char>) -> Option<Seq<char>> {
    binding(forward_entries(), ext)
}

/// The extension for a MIME type, if the registry knows the MIME type.
pub open spec fn suffix_of(mime: Seq<char>) -> Option<Seq<char>> {
    binding(reverse_entries(), mime)
}

/// The table of MIME types as one list, in the order in which its pairs
/// take effect: a later pair replaces an earlier one with the same MIME
/// type.
pub fn build_reverse_mime_types() -> (r: Vec<(&'static str, &'static str)>)
    ensures
        pairs_of(r@) == reverse_entries(),
{
    let mut r: Vec<(&'static str, &'static str)> = Vec::new();
    let mut i: usize = 0;
    while i < MIME_TYPES.len()
        invariant
            i <= MIME_TYPES@.len(),
            r@.len() == i,
            pairs_of(r@) == flipped(forward_entries()).take(i as int),
        decreases MIME_TYPES@.len() - i,
    {
        let ghost before = r@;
        r.push((MIME_TYPES[i].1, MIME_TYPES[i].0));
        i = i + 1;
        assert forall|k: int| 0 <= k < i implies pairs_of(r@)[k] == flipped(
            forward_entries(),
        )[k] by {
            if k < i - 1 {
                assert(r@[k] == before[k]);
                assert(pairs_of(before)[k] == flipped(forward_entries()).take(i - 1)[k]);
            }
        }
        assert(pairs_of(r@) =~= flipped(forward_entries()).take(i as int));
    }
    assert(flipped(forward_entries()).take(i as int) =~= flipped(forward_entries()));
    let mut j: usize = 0;
    while j < SUFFIX_OVERRIDES.len()
        invariant
            j <= SUFFIX_OVERRIDES@.len(),
            r@.len() == MIME_TYPES@.len() + j,
            pairs_of(r@) == flipped(forward_entries()) + pairs_of(SUFFIX_OVERRIDES@).take(
                j as int,
            ),
        decreases SUFFIX_OVERRIDES@.len() - j,
    {
        let ghost before = r@;
        r.push(SUFFIX_OVERRIDES[j]);
        j = j + 1;
        let ghost wanted = flipped(forward_entries()) + pairs_of(SUFFIX_OVERRIDES@).take(j as int);
        assert forall|k: int| 0 <= k < wanted.len() implies pairs_of(r@)[k] == wanted[k] by {
            if k < wanted.len() - 1 {
                assert(r@[k] == before[k]);
                assert(pairs_of(before)[k] == (flipped(forward_entries()) + pairs_of(
                    SUFFIX_OVERRIDES@,
                ).take(j - 1))[k]);
            }
        }
        assert(pairs_of(r@) =~= wanted);
    }
    assert(pairs_of(SUFFIX_OVERRIDES@).take(j as int) =~= pairs_of(SUFFIX_OVERRIDES@));
    r
}

/// The registry. It holds no data of its own: the tables are constants.
pub struct Mime;

impl Mime {
    /// The MIME type of a file extension, compared letter for letter; `None`
    /// for an extension that the registry does not know.
    pub fn get(ext: &str) -> (r: Option<&'static str>)
        ensures
            optional_text(r) == mime_of(ext@),
    {
        lookup(MIME_TYPES.as_slice(), ext)
    }

    /// The MIME type of a file extension, or the extension itself where the
    /// registry does not know it.
    pub fn get_or_fallback(ext: &str) -> (r: &str)
        ensures
            r@ == match mime_of(ext@) {
                Some(mime) => mime,
                None => ext@,
            },
    {
        match Mime::get(ext) {
            Some(mime) => mime,
            None => ext,
        }
    }

    /// The extension for a MIME type; `None` for a MIME type that the
    /// registry does not know.
    pub fn get_suffix(mime: &str) -> (r: Option<&'static str>)
        ensures
            optional_text(r) == suffix_of(mime@),
    {
        proof {
            lemma_binding_concat(flipped(forward_entries()), pairs_of(SUFFIX_OVERRIDES@), mime@);
        }
        match lookup(SUFFIX_OVERRIDES.as_slice(), mime) {
            Some(ext) => Some(ext),
            None => lookup_key(MIME_TYPES.as_slice(), mime),
        }
    }
}

/// Every pair of the table of extensions is found under its extension: no
/// pair is hidden by another.
pub proof fn lemma_table_pair(i: int)
    requires
        0 <= i < MIME_TYPES@.len(),
    ensures
        mime_of(forward_entries()[i].0) == Some(forward_entries()[i].1),
{
    lemma_extensions_ascend();
    lemma_ascending_distinct(forward_entries());
    lemma_binding_of_pair(forward_entries(), i);
}

/// Where several extensions have one MIME type, the extension that stands
/// for the type is chosen by a pin, not by the order of the table.
pub proof fn lemma_shared_type_suffix(i: int, j: int)
    requires
        0 <= i < MIME_TYPES@.len(),
        0 <= j < MIME_TYPES@.len(),
        i != j,
        forward_entries()[i].1 == forward_entries()[j].1,
    ensures
        suffix_of(forward_entries()[i].1) is Some,
        suffix_of(forward_entries()[i].1) == binding(
            pairs_of(SUFFIX_OVERRIDES@),
            forward_entries()[i].1,
        ),
{
    lemma_shared_types_pinned(i, j);
    lemma_binding_concat(
        flipped(forward_entries()),
        pairs_of(SUFFIX_OVERRIDES@),
        forward_entries()[i].1,
    );
}

/// The registry knows a MIME type exactly when some extension has it.
pub proof fn lemma_suffix_known(mime: Seq<char>)
    ensures
        suffix_of(mime) is Some <==> exists|ext: Seq<char>| mime_of(ext) == Some(mime),
{
    let forward = forward_entries();
    let pins = pairs_of(SUFFIX_OVERRIDES@);
    lemma_extensions_ascend();
    lemma_ascending_distinct(forward);
    lemma_binding_concat(flipped(forward), pins, mime);
    lemma_binding_none(flipped(forward), mime);
    lemma_binding_none(pins, mime);
    if suffix_of(mime) is Some {
        let j = lemma_binding_witness(reverse_entries(), mime);
        if j < forward.len() {
            lemma_binding_of_pair(forward, j);
            assert(mime_of(forward[j].0) == Some(mime));
        } else {
            let at = lemma_overrides_in_table(j - forward.len());
            assert(pinned_at(j - forward.len(), at));
            lemma_binding_of_pair(forward, at);
            assert(mime_of(forward[at].0) == Some(mime));
        }
    }
    if exists|ext: Seq<char>| mime_of(ext) == Some(mime) {
        let ext = choose|ext: Seq<char>| mime_of(ext) == Some(mime);
        let i = lemma_binding_witness(forward, ext);
        assert(flipped(forward)[i].0 == mime);
    }
}

/// From a known extension to its MIME type and back: the registry gives an
/// extension, maybe another one, that has the same MIME type.
pub proof fn lemma_suffix_round_trip(ext: Seq<char>)
    requires
        mime_of(ext) is Some,
    ensures
        suffix_of(mime_of(ext)->0) is Some,
        mime_of(suffix_of(mime_of(ext)->0)->0) == mime_of(ext),
{
    let forward = forward_entries();
    let pins = pairs_of(SUFFIX_OVERRIDES@);
    let mime = mime_of(ext)->0;
    lemma_extensions_ascend();
    lemma_ascending_distinct(forward);
    lemma_suffix_known(mime);
    let j = lemma_binding_witness(reverse_entries(), mime);
    if j < forward.len() {
        lemma_binding_of_pair(forward, j);
    } else {
        let at = lemma_overrides_in_table(j - forward.len());
        assert(pinned_at(j - forward.len(), at));
        lemma_binding_of_pair(forward, at);
    }
}

} // verus!
