//! The naming convention that ties the two artifacts of one crash together.
//!
//! A crash is known by its identifier. Its report is the file
//! `crash_report_<id>.json`, its snapshot the file `crash_dump_<id>.dmp`;
//! neither path is stored anywhere, both are derived from the identifier.
//! A directory listing is handed in as the names of its entries.

use crate::text::{concat3, framed_part, is_framed, lemma_frame_round_trip, strip_frame};
use vstd::prelude::*;

verus! {

/// What every report name begins with.
pub open spec fn report_prefix() -> Seq<char> {
    "crash_report_"@
}

/// What every report name ends with.
pub open spec fn report_suffix() -> Seq<char> {
    ".json"@
}

/// What every snapshot name begins with.
pub open spec fn snapshot_prefix() -> Seq<char> {
    "crash_dump_"@
}

/// What every snapshot name ends with.
pub open spec fn snapshot_suffix() -> Seq<char> {
    ".dmp"@
}

/// The name of the report that belongs to `id`.
pub open spec fn report_name(id: Seq<char>) -> Seq<char> {
    report_prefix() + id + report_suffix()
}

/// The name of the snapshot that belongs to `id`.
pub open spec fn snapshot_name(id: Seq<char>) -> Seq<char> {
    snapshot_prefix() + id + snapshot_suffix()
}

/// The identifier embedded in `name`, if `name` follows the report convention.
pub open spec fn embedded_id(name: Seq<char>) -> Option<Seq<char>> {
    if is_framed(name, report_prefix(), report_suffix()) {
        Some(framed_part(name, report_prefix(), report_suffix()))
    } else {
        None
    }
}

/// The identifiers of the reports among `names`, in the order of the listing.
pub open spec fn catalog_ids(names: Seq<Seq<char>>) -> Seq<Seq<char>>
    decreases names.len(),
{
    if names.len() == 0 {
        Seq::empty()
    } else {
        let earlier = catalog_ids(names.drop_last());
        match embedded_id(names.last()) {
            Some(id) => earlier.push(id),
            None => earlier,
        }
    }
}

/// A crash identifier together with the knowledge whether its snapshot exists.
#[derive(Clone, Debug, PartialEq, Eq)]
pub struct ArtifactPair {
    pub id: String,
    pub has_snapshot: bool,
}

/// An [`ArtifactPair`] seen as plain values.
pub struct ArtifactPairView {
    pub id: Seq<char>,
    pub has_snapshot: bool,
}

impl DeepView for ArtifactPair {
    type V = ArtifactPairView;

    open spec fn deep_view(&self) -> ArtifactPairView {
        ArtifactPairView { id: self.id@, has_snapshot: self.has_snapshot }
    }
}

/// The pair that a listing gives for `id`.
pub open spec fn pair_of(id: Seq<char>, names: Seq<Seq<char>>) -> ArtifactPairView {
    ArtifactPairView { id, has_snapshot: names.contains(snapshot_name(id)) }
}

/// The pairs of all reports among `names`, in the order of the listing.
pub open spec fn catalog_of(names: Seq<Seq<char>>) -> Seq<ArtifactPairView> {
    Seq::new(catalog_ids(names).len(), |i: int| pair_of(catalog_ids(names)[i], names))
}

/// The identifier read out of a report's name is the one the name was made from.
pub proof fn lemma_report_name_round_trip(id: Seq<char>)
    ensures
        embedded_id(report_name(id)) == Some(id),
{
    lemma_frame_round_trip(report_prefix(), id, report_suffix());
}

/// Two identifiers with the same report name are the same identifier.
pub proof fn lemma_report_name_injective(a: Seq<char>, b: Seq<char>)
    requires
        report_name(a) == report_name(b),
    ensures
        a == b,
{
    lemma_report_name_round_trip(a);
    lemma_report_name_round_trip(b);
}

/// A snapshot's name is never taken for a report's name.
pub proof fn lemma_snapshot_name_is_no_report(id: Seq<char>)
    ensures
        embedded_id(snapshot_name(id)) is None,
{
    reveal_strlit("crash_report_");
    reveal_strlit("crash_dump_");
    reveal_strlit(".json");
    reveal_strlit(".dmp");
    let name = snapshot_name(id);
    if is_framed(name, report_prefix(), report_suffix()) {
        assert(name.subrange(0, report_prefix().len() as int)[6] == 'r');
    }
}

/// The path of the report that belongs to `id`.
pub fn report_path(id: &str) -> (path: String)
    ensures
        path@ == report_name(id@),
{
    concat3("crash_report_", id, ".json")
}

/// The path of the snapshot that belongs to `id`.
pub fn snapshot_path(id: &str) -> (path: String)
    ensures
        path@ == snapshot_name(id@),
{
    concat3("crash_dump_", id, ".dmp")
}

/// Reads the identifier out of the name of a directory entry. Names that do
/// not follow the report convention give `None`.
pub fn report_id(name: &str) -> (id: Option<String>)
    ensures
        id.deep_view() == embedded_id(name@),
{
    strip_frame(name, "crash_report_", ".json")
}

/// Collects the identifiers of all reports in a directory listing. Entries
/// that are no reports are passed over.
pub fn collect_crash_ids(names: &Vec<String>) -> (ids: Vec<String>)
    ensures
        ids.deep_view() == catalog_ids(names.deep_view()),
{
    let mut ids: Vec<String> = Vec::new();
    let mut i: usize = 0;
    while i < names.len()
        invariant
            i <= names.len(),
            ids.deep_view() == catalog_ids(names.deep_view().subrange(0, i as int)),
        decreases names.len() - i,
    {
        assert(names.deep_view().subrange(0, i + 1).drop_last() =~= names.deep_view().subrange(
            0,
            i as int,
        ));
        if let Some(id) = report_id(names[i].as_str()) {
            ids.push(id);
        }
        i = i + 1;
    }
    assert(names.deep_view().subrange(0, names.len() as int) =~= names.deep_view());
    ids
}

/// Whether the snapshot that belongs to `id` is among the entries of a listing.
pub fn has_snapshot(id: &str, names: &Vec<String>) -> (found: bool)
    ensures
        found <==> names.deep_view().contains(snapshot_name(id@)),
{
    let wanted = snapshot_path(id);
    let mut i: usize = 0;
    while i < names.len()
        invariant
            i <= names.len(),
            wanted@ == snapshot_name(id@),
            forall|k: int| 0 <= k < i ==> names.deep_view()[k] != snapshot_name(id@),
        decreases names.len() - i,
    {
        if names[i] == wanted {
            assert(names.deep_view()[i as int] == snapshot_name(id@));
            return true;
        }
        i = i + 1;
    }
    false
}

/// Pairs `id` with what the listing says of its snapshot.
pub fn correlate(id: &str, names: &Vec<String>) -> (pair: ArtifactPair)
    ensures
        pair.deep_view() == pair_of(id@, names.deep_view()),
{
    ArtifactPair { id: String::from_str(id), has_snapshot: has_snapshot(id, names) }
}

/// Pairs every report of a directory listing with its snapshot, reading the
/// listing once.
pub fn catalog(names: &Vec<String>) -> (pairs: Vec<ArtifactPair>)
    ensures
        pairs.deep_view() == catalog_of(names.deep_view()),
{
    let ids = collect_crash_ids(names);
    let mut pairs: Vec<ArtifactPair> = Vec::new();
    let mut i: usize = 0;
    while i < ids.len()
        invariant
            i <= ids.len(),
            ids.deep_view() == catalog_ids(names.deep_view()),
            pairs.len() == i,
            forall|k: int|
                0 <= k < i ==> #[trigger] pairs[k].deep_view() == pair_of(
                    ids.deep_view()[k],
                    names.deep_view(),
                ),
        decreases ids.len() - i,
    {
        let pair = correlate(ids[i].as_str(), names);
        pairs.push(pair);
        i = i + 1;
    }
    pairs
}

impl ArtifactPair {
    /// The path of the report of this crash.
    pub fn report_path(&self) -> (path: String)
        ensures
            path@ == report_name(self.id@),
    {
        report_path(self.id.as_str())
    }

    /// The path of the snapshot of this crash, if it has one.
    pub fn snapshot_path(&self) -> (path: Option<String>)
        ensures
            path.deep_view() == if self.has_snapshot {
                Some(snapshot_name(self.id@))
            } else {
                None
            },
    {
        if self.has_snapshot {
            Some(snapshot_path(self.id.as_str()))
        } else {
            None
        }
    }
}

} // verus!
