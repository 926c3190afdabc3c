//! The catalog of recorded crashes: the listing of all of them, and the
//! detail of one.
//!
//! The catalog reads no file itself. Whoever serves a request reads the
//! files and hands in what was read; a file that could not be read is handed
//! in as `None`. A report that cannot be read or parsed is left out of a
//! listing and makes a detail request end as not found. A snapshot that is
//! missing or cannot be read only leaves the detail without a summary.

use crate::analysis::{analysis_of_bytes, analyze, Analysis, AnalysisView};
use crate::naming::{snapshot_name, snapshot_path};
use crate::report::{as_text, document_of, member, member_of, parse_document, text_of};
use crate::summary::{project, summary_of, SnapshotSummary, SnapshotSummaryView};
use vstd::prelude::*;

verus! {

/// A report as it was loaded for a listing: the identifier of its crash and
/// the text of its file, `None` where the file could not be read.
#[derive(Clone, Debug, PartialEq, Eq)]
pub struct ReportSource {
    pub id: String,
    pub text: Option<String>,
}

/// A [`ReportSource`] seen as plain values.
pub struct ReportSourceView {
    pub id: Seq<char>,
    pub text: Option<Seq<char>>,
}

impl DeepView for ReportSource {
    type V = ReportSourceView;

    open spec fn deep_view(&self) -> ReportSourceView {
        ReportSourceView { id: self.id@, text: self.text.deep_view() }
    }
}

/// One crash in a listing. The time and the message are drawn from the
/// report; either may be missing there.
#[derive(Clone, Debug, PartialEq, Eq)]
pub struct CatalogEntry {
    pub id: String,
    pub timestamp: Option<String>,
    pub message: Option<String>,
}

/// A [`CatalogEntry`] seen as plain values.
pub struct CatalogEntryView {
    pub id: Seq<char>,
    pub timestamp: Option<Seq<char>>,
    pub message: Option<Seq<char>>,
}

impl DeepView for CatalogEntry {
    type V = CatalogEntryView;

    open spec fn deep_view(&self) -> CatalogEntryView {
        CatalogEntryView {
            id: self.id@,
            timestamp: self.timestamp.deep_view(),
            message: self.message.deep_view(),
        }
    }
}

/// The detail of one crash: its report as it was parsed, and what could be
/// made of its snapshot.
#[derive(Debug)]
pub struct CrashDetail {
    pub report: serde_json::Value,
    pub summary: Option<SnapshotSummary>,
    pub analysis: Option<Analysis>,
}

/// A [`CrashDetail`] seen as plain values.
pub struct CrashDetailView {
    pub report: serde_json::Value,
    pub summary: Option<SnapshotSummaryView>,
    pub analysis: Option<AnalysisView>,
}

impl DeepView for CrashDetail {
    type V = CrashDetailView;

    open spec fn deep_view(&self) -> CrashDetailView {
        CrashDetailView {
            report: self.report,
            summary: self.summary.deep_view(),
            analysis: self.analysis.deep_view(),
        }
    }
}

/// How a detail request ends.
#[derive(Debug)]
pub enum DetailOutcome {
    /// There is no readable report for the identifier.
    NotFound,
    Found(CrashDetail),
}

/// What a detail request needs next, once its report was looked for.
#[derive(Debug)]
pub enum DetailStep {
    /// The report is there: the snapshot at `path` is to be read and handed in.
    LoadSnapshot { path: String, report: serde_json::Value },
    /// The request is over.
    Finish(DetailOutcome),
}

/// The text that a document holds under `key`, where it is an object with a
/// member of that name which is a string.
pub open spec fn text_member_of(document: serde_json::Value, key: Seq<char>) -> Option<Seq<char>> {
    match member_of(document, key) {
        Some(value) => text_of(value),
        None => None,
    }
}

/// The entry of the crash `id` whose report is `document`.
pub open spec fn entry_of(id: Seq<char>, document: serde_json::Value) -> CatalogEntryView {
    CatalogEntryView {
        id,
        timestamp: text_member_of(document, "timestamp"@),
        message: text_member_of(document, "message"@),
    }
}

/// The parsed report of a file as it was read; `None` where the file could
/// not be read or its text is no document.
pub open spec fn report_of(text: Option<Seq<char>>) -> Option<serde_json::Value> {
    match text {
        Some(text) => document_of(text),
        None => None,
    }
}

/// The entry that a loaded report adds to a listing, if any.
pub open spec fn listed_entry_of(source: ReportSourceView) -> Option<CatalogEntryView> {
    match report_of(source.text) {
        Some(document) => Some(entry_of(source.id, document)),
        None => None,
    }
}

/// The listing made of loaded reports: the entries of those that could be
/// read and parsed, in the order in which they were handed in.
pub open spec fn listing_of(sources: Seq<ReportSourceView>) -> Seq<CatalogEntryView>
    decreases sources.len(),
{
    if sources.len() == 0 {
        Seq::empty()
    } else {
        let earlier = listing_of(sources.drop_last());
        match listed_entry_of(sources.last()) {
            Some(entry) => earlier.push(entry),
            None => earlier,
        }
    }
}

/// The analysis of a snapshot file as it was read.
pub open spec fn snapshot_analysis_of(snapshot: Option<Seq<u8>>) -> Option<AnalysisView> {
    match snapshot {
        Some(bytes) => analysis_of_bytes(bytes),
        None => None,
    }
}

/// The detail made of a parsed report and of a snapshot file as it was read.
pub open spec fn detail_of(report: serde_json::Value, snapshot: Option<Seq<u8>>) -> CrashDetailView {
    CrashDetailView {
        report,
        summary: match snapshot_analysis_of(snapshot) {
            Some(analysis) => Some(summary_of(analysis)),
            None => None,
        },
        analysis: snapshot_analysis_of(snapshot),
    }
}

/// The view of a text that may be missing.
pub open spec fn text_view(text: Option<&str>) -> Option<Seq<char>> {
    match text {
        Some(text) => Some(text@),
        None => None,
    }
}

/// The view of bytes that may be missing.
pub open spec fn bytes_view(bytes: Option<&[u8]>) -> Option<Seq<u8>> {
    match bytes {
        Some(bytes) => Some(bytes@),
        None => None,
    }
}

/// A listing is never longer than what was handed in.
pub proof fn lemma_listing_is_bounded(sources: Seq<ReportSourceView>)
    ensures
        listing_of(sources).len() <= sources.len(),
    decreases sources.len(),
{
    if sources.len() > 0 {
        lemma_listing_is_bounded(sources.drop_last());
    }
}

/// Every report that could be read and parsed has its entry in the listing,
/// whatever became of the other reports.
pub proof fn lemma_listing_keeps_readable_reports(sources: Seq<ReportSourceView>, index: int)
    requires
        0 <= index < sources.len(),
        listed_entry_of(sources[index]) is Some,
    ensures
        listing_of(sources).contains(listed_entry_of(sources[index])->0),
    decreases sources.len(),
{
    let earlier = listing_of(sources.drop_last());
    let entry = listed_entry_of(sources[index])->0;
    if index == sources.len() - 1 {
        assert(earlier.push(entry)[earlier.len() as int] == entry);
    } else {
        lemma_listing_keeps_readable_reports(sources.drop_last(), index);
        let at = choose|at: int| 0 <= at < earlier.len() && earlier[at] == entry;
        assert(listing_of(sources)[at] == entry);
    }
}

/// Every entry of a listing is the entry of one of the reports handed in
/// that could be read and parsed.
pub proof fn lemma_listing_holds_nothing_else(sources: Seq<ReportSourceView>, at: int)
    requires
        0 <= at < listing_of(sources).len(),
    ensures
        exists|index: int|
            0 <= index < sources.len() && listed_entry_of(#[trigger] sources[index]) == Some(
                listing_of(sources)[at],
            ),
    decreases sources.len(),
{
    let earlier = listing_of(sources.drop_last());
    let last = sources.len() - 1;
    if listed_entry_of(sources.last()) is Some && at == earlier.len() {
    } else {
        lemma_listing_holds_nothing_else(sources.drop_last(), at);
        let index = choose|index: int|
            0 <= index < sources.drop_last().len() && listed_entry_of(
                #[trigger] sources.drop_last()[index],
            ) == Some(earlier[at]);
    }
}

/// A detail has a summary exactly when its snapshot could be opened; a
/// snapshot that is missing leaves the detail without one.
pub proof fn lemma_detail_without_snapshot(report: serde_json::Value)
    ensures
        detail_of(report, None).report == report,
        detail_of(report, None).summary is None,
        detail_of(report, None).analysis is None,
{
}

/// Reads the text that a document holds under `key`.
pub fn text_member(document: &serde_json::Value, key: &str) -> (text: Option<String>)
    ensures
        text.deep_view() == text_member_of(*document, key@),
{
    match member(document, key) {
        Some(value) => match as_text(value) {
            Some(text) => Some(String::from_str(text)),
            None => None,
        },
        None => None,
    }
}

/// Makes the entry of a crash out of its parsed report.
pub fn entry_from_document(id: &str, document: &serde_json::Value) -> (entry: CatalogEntry)
    ensures
        entry.deep_view() == entry_of(id@, *document),
{
    CatalogEntry {
        id: String::from_str(id),
        timestamp: text_member(document, "timestamp"),
        message: text_member(document, "message"),
    }
}

/// Parses the text of a report file as it was read.
pub fn open_report(text: Option<&str>) -> (report: Option<serde_json::Value>)
    ensures
        report == report_of(text_view(text)),
{
    match text {
        Some(text) => match parse_document(text) {
            Ok(document) => Some(document),
            Err(_) => None,
        },
        None => None,
    }
}

/// Lists the crashes whose reports were loaded. A report that could not be
/// read, or whose text is no document, is left out without a word; it never
/// stops the listing.
pub fn list(sources: &Vec<ReportSource>) -> (entries: Vec<CatalogEntry>)
    ensures
        entries.deep_view() == listing_of(sources.deep_view()),
{
    let mut entries: Vec<CatalogEntry> = Vec::new();
    let mut i: usize = 0;
    while i < sources.len()
        invariant
            i <= sources.len(),
            entries.deep_view() == listing_of(sources.deep_view().subrange(0, i as int)),
        decreases sources.len() - i,
    {
        let source = &sources[i];
        let report = match &source.text {
            Some(text) => open_report(Some(text.as_str())),
            None => open_report(None),
        };
        assert(sources.deep_view().subrange(0, i + 1).drop_last() =~= sources.deep_view().subrange(
            0,
            i as int,
        ));
        if let Some(document) = report {
            entries.push(entry_from_document(source.id.as_str(), &document));
        }
        i = i + 1;
    }
    assert(sources.deep_view().subrange(0, sources.len() as int) =~= sources.deep_view());
    entries
}

/// Decides how a detail request for `id` goes on once its report file was
/// looked for: without a readable report the request ends as not found, with
/// one the snapshot is asked for.
pub fn on_report(id: &str, text: Option<&str>) -> (step: DetailStep)
    ensures
        match report_of(text_view(text)) {
            Some(document) => step matches DetailStep::LoadSnapshot { path, report }
                && path@ == snapshot_name(id@) && report == document,
            None => step matches DetailStep::Finish(DetailOutcome::NotFound),
        },
{
    match open_report(text) {
        Some(report) => DetailStep::LoadSnapshot { path: snapshot_path(id), report },
        None => DetailStep::Finish(DetailOutcome::NotFound),
    }
}

/// Makes the detail of a crash out of its parsed report and of its snapshot
/// file as it was read. A snapshot that is missing, or that is no snapshot
/// at all, leaves the detail without analysis and summary.
pub fn on_snapshot(report: serde_json::Value, snapshot: Option<&[u8]>) -> (detail: CrashDetail)
    ensures
        detail.deep_view() == detail_of(report, bytes_view(snapshot)),
{
    let analysis = match snapshot {
        Some(bytes) => analyze(bytes),
        None => None,
    };
    let summary = match &analysis {
        Some(analysis) => Some(project(analysis)),
        None => None,
    };
    CrashDetail { report, summary, analysis }
}

/// Answers a detail request out of both files as they were read.
pub fn detail(report_text: Option<&str>, snapshot: Option<&[u8]>) -> (outcome: DetailOutcome)
    ensures
        match report_of(text_view(report_text)) {
            Some(document) => outcome matches DetailOutcome::Found(found) && found.deep_view()
                == detail_of(document, bytes_view(snapshot)),
            None => outcome is NotFound,
        },
{
    match open_report(report_text) {
        Some(report) => DetailOutcome::Found(on_snapshot(report, snapshot)),
        None => DetailOutcome::NotFound,
    }
}

} // verus!
