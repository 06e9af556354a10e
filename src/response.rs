use vstd::prelude::*;

use crate::address::{decoded_identifier, AddressCodec};
use crate::error::ChainError;

verus! {

/// The `ism` field of a routing response as `serde_json::from_slice` reads it into
/// `hpl_interface::ism::routing::RouteResponse`, or `None` where the bytes do not parse.
pub uninterp spec fn route_response_ism(data: Seq<u8>) -> Option<Seq<char>>;

/// The `storage_locations` entries of a response as `serde_json::from_slice` reads them
/// into `hpl_interface::core::va::GetAnnounceStorageLocationsResponse`, or `None` where
/// the bytes do not parse.
pub uninterp spec fn storage_locations_entries(data: Seq<u8>) -> Option<
    Seq<(Seq<char>, Seq<Seq<char>>)>,
>;

/// Relies on `serde_json::from_slice` for `hpl_interface::ism::routing::RouteResponse`.
#[verifier::external_body]
pub(crate) fn parse_route_response(data: &[u8]) -> (r: Option<String>)
    ensures
        match r {
            Some(s) => route_response_ism(data@) == Some(s@),
            None => route_response_ism(data@) is None,
        },
{
    serde_json::from_slice::<hpl_interface::ism::routing::RouteResponse>(data).ok().map(|r| r.ism)
}

/// Relies on `serde_json::from_slice` for
/// `hpl_interface::core::va::GetAnnounceStorageLocationsResponse`.
#[verifier::external_body]
pub(crate) fn parse_storage_locations_response(data: &[u8]) -> (r: Option<
    Vec<(String, Vec<String>)>,
>)
    ensures
        match r {
            Some(v) => storage_locations_entries(data@) == Some(v.deep_view()),
            None => storage_locations_entries(data@) is None,
        },
{
    serde_json::from_slice::<hpl_interface::core::va::GetAnnounceStorageLocationsResponse>(
        data,
    ).ok().map(|r| r.storage_locations)
}

/// The key of an entry names the validator `v`: it is a native address, for the chain
/// with prefix `prefix`, that decodes to `v`.
pub open spec fn key_names(prefix: Seq<char>, key: Seq<char>, v: Seq<u8>) -> bool {
    decoded_identifier(prefix, key) == Ok::<Seq<u8>, ChainError>(v)
}

/// The locations of the first entry whose key names `v`; none where no entry does.
pub open spec fn locations_for(
    prefix: Seq<char>,
    entries: Seq<(Seq<char>, Seq<Seq<char>>)>,
    v: Seq<u8>,
) -> Seq<Seq<char>>
    decreases entries.len(),
{
    if entries.len() == 0 {
        Seq::empty()
    } else if key_names(prefix, entries[0].0, v) {
        entries[0].1
    } else {
        locations_for(prefix, entries.drop_first(), v)
    }
}

/// For each validator, in the order given, the locations of the first entry whose
/// native address key decodes to it.
pub open spec fn locations_in_order(
    prefix: Seq<char>,
    validators: Seq<[u8; 32]>,
    entries: Seq<(Seq<char>, Seq<Seq<char>>)>,
) -> Seq<Seq<Seq<char>>> {
    validators.map_values(|v: [u8; 32]| locations_for(prefix, entries, v@))
}

/// The answer has one list per validator, at the validator's position, and a validator
/// that no entry names gets an empty list wherever it stands.
pub proof fn lemma_locations_aligned(
    prefix: Seq<char>,
    validators: Seq<[u8; 32]>,
    entries: Seq<(Seq<char>, Seq<Seq<char>>)>,
    i: int,
)
    requires
        0 <= i < validators.len(),
        forall|j: int|
            0 <= j < entries.len() ==> !key_names(prefix, #[trigger] entries[j].0, validators[i]@),
    ensures
        locations_in_order(prefix, validators, entries).len() == validators.len(),
        locations_in_order(prefix, validators, entries)[i] == Seq::<Seq<char>>::empty(),
{
    lemma_locations_for_absent(prefix, entries, validators[i]@);
}

/// Where exactly one entry names a validator, that entry's locations are the
/// validator's, wherever the entry stands among the others.
pub proof fn lemma_locations_of_named(
    prefix: Seq<char>,
    entries: Seq<(Seq<char>, Seq<Seq<char>>)>,
    v: Seq<u8>,
    j: int,
)
    requires
        0 <= j < entries.len(),
        key_names(prefix, entries[j].0, v),
        forall|k: int| 0 <= k < entries.len() && k != j ==> !key_names(prefix, #[trigger] entries[k].0, v),
    ensures
        locations_for(prefix, entries, v) == entries[j].1,
    decreases entries.len(),
{
    if j > 0 {
        let rest = entries.drop_first();
        assert(!key_names(prefix, entries[0].0, v));
        assert forall|k: int| 0 <= k < rest.len() && k != j - 1 implies !key_names(
            prefix,
            #[trigger] rest[k].0,
            v,
        ) by {
            assert(rest[k] == entries[k + 1]);
        }
        lemma_locations_of_named(prefix, rest, v, j - 1);
    }
}

/// A key that no entry has gets no locations.
proof fn lemma_locations_for_absent(
    prefix: Seq<char>,
    entries: Seq<(Seq<char>, Seq<Seq<char>>)>,
    v: Seq<u8>,
)
    requires
        forall|j: int| 0 <= j < entries.len() ==> !key_names(prefix, #[trigger] entries[j].0, v),
    ensures
        locations_for(prefix, entries, v) == Seq::<Seq<char>>::empty(),
    decreases entries.len(),
{
    if entries.len() > 0 {
        assert(!key_names(prefix, entries[0].0, v));
        let rest = entries.drop_first();
        assert forall|j: int| 0 <= j < rest.len() implies !key_names(prefix, #[trigger] rest[j].0, v) by {
            assert(rest[j] == entries[j + 1]);
        }
        lemma_locations_for_absent(prefix, rest, v);
    }
}

fn copy_strings(v: &Vec<String>) -> (r: Vec<String>)
    ensures
        r.deep_view() == v.deep_view(),
{
    let mut r: Vec<String> = Vec::new();
    let mut i: usize = 0;
    while i < v.len()
        invariant
            0 <= i <= v@.len(),
            r@.len() == i,
            forall|k: int| 0 <= k < i ==> #[trigger] r@[k]@ == v@[k]@,
        decreases v.len() - i,
    {
        r.push(v[i].clone());
        i = i + 1;
    }
    proof {
        assert(r.deep_view() =~= v.deep_view());
    }
    r
}

fn same_bytes(a: &[u8; 32], b: &[u8; 32]) -> (r: bool)
    ensures
        r <==> a@ == b@,
{
    let mut i: usize = 0;
    while i < 32
        invariant
            0 <= i <= 32,
            forall|k: int| 0 <= k < i ==> a@[k] == b@[k],
        decreases 32 - i,
    {
        if a[i] != b[i] {
            return false;
        }
        i = i + 1;
    }
    proof {
        assert(a@ =~= b@);
    }
    true
}

fn find_locations(codec: &AddressCodec, entries: &Vec<(String, Vec<String>)>, v: &[u8; 32]) -> (r:
    Vec<String>)
    ensures
        r.deep_view() == locations_for(codec.prefix_view(), entries.deep_view(), v@),
{
    let ghost prefix = codec.prefix_view();
    let mut j: usize = 0;
    proof {
        assert(entries.deep_view().subrange(0, entries@.len() as int) =~= entries.deep_view());
    }
    while j < entries.len()
        invariant
            prefix == codec.prefix_view(),
            0 <= j <= entries@.len(),
            locations_for(prefix, entries.deep_view(), v@) == locations_for(
                prefix,
                entries.deep_view().subrange(j as int, entries@.len() as int),
                v@,
            ),
        decreases entries.len() - j,
    {
        let ghost rest = entries.deep_view().subrange(j as int, entries@.len() as int);
        let named = match codec.decode(entries[j].0.as_str()) {
            Ok(id) => same_bytes(&id, v),
            Err(_) => false,
        };
        assert(rest[0].0 == entries@[j as int].0@);
        if named {
            return copy_strings(&entries[j].1);
        }
        proof {
            assert(rest.drop_first() =~= entries.deep_view().subrange(
                j + 1,
                entries@.len() as int,
            ));
        }
        j = j + 1;
    }
    Vec::new()
}

/// For each validator, in the order given, the locations of the first entry whose key,
/// a native address of the codec's chain, decodes to the validator. A validator that
/// no entry names gets no locations.
pub fn storage_locations_in_order(
    codec: &AddressCodec,
    validators: &[[u8; 32]],
    entries: &Vec<(String, Vec<String>)>,
) -> (r: Vec<Vec<String>>)
    ensures
        r.deep_view() == locations_in_order(codec.prefix_view(), validators@, entries.deep_view()),
{
    let mut r: Vec<Vec<String>> = Vec::new();
    let mut i: usize = 0;
    while i < validators.len()
        invariant
            0 <= i <= validators@.len(),
            r@.len() == i,
            forall|k: int|
                0 <= k < i ==> #[trigger] r@[k].deep_view() == locations_for(
                    codec.prefix_view(),
                    entries.deep_view(),
                    validators@[k]@,
                ),
        decreases validators.len() - i,
    {
        let found = find_locations(codec, entries, &validators[i]);
        r.push(found);
        i = i + 1;
    }
    proof {
        assert(r.deep_view() =~= locations_in_order(
            codec.prefix_view(),
            validators@,
            entries.deep_view(),
        ));
    }
    r
}

} // verus!
