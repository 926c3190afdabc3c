//! The summary of a snapshot: a small, stable projection of its analysis.
//!
//! Every field of a summary is optional by itself. A field is there exactly
//! when the section it is drawn from could be read; no field waits for
//! another, and no missing field makes the summary invalid.

use crate::analysis::{
    analysis_of, analysis_of_bytes, analyze, Analysis, AnalysisView, ExceptionRecord,
    ExceptionRecordView, MemoryRegions, ModuleRecord, ModuleRecordView, SystemInfo, SystemInfoView,
};
use crate::snapshot::{
    exception_section, faulting_thread_of, loaded_modules_of, memory_info_total,
    memory_list_total, misc_section, system_section, thread_section, thread_total,
    unloaded_module_total, MiscInfo, Snapshot,
};
use crate::text::{format_hex, hex_text};
use vstd::prelude::*;

verus! {

/// Why the process faulted, and on which thread.
#[derive(Clone, Debug, PartialEq, Eq)]
pub struct ExceptionSummary {
    pub reason: String,
    pub thread_id: u32,
}

/// An [`ExceptionSummary`] seen as plain values.
pub struct ExceptionSummaryView {
    pub reason: Seq<char>,
    pub thread_id: u32,
}

impl DeepView for ExceptionSummary {
    type V = ExceptionSummaryView;

    open spec fn deep_view(&self) -> ExceptionSummaryView {
        ExceptionSummaryView { reason: self.reason@, thread_id: self.thread_id }
    }
}

/// A loaded module: its name, its version, where it begins and how many
/// bytes it occupies.
#[derive(Clone, Debug, PartialEq, Eq)]
pub struct ModuleSummary {
    pub name: String,
    pub version: String,
    pub base_address: String,
    pub size: u64,
}

/// A [`ModuleSummary`] seen as plain values.
pub struct ModuleSummaryView {
    pub name: Seq<char>,
    pub version: Seq<char>,
    pub base_address: Seq<char>,
    pub size: u64,
}

impl DeepView for ModuleSummary {
    type V = ModuleSummaryView;

    open spec fn deep_view(&self) -> ModuleSummaryView {
        ModuleSummaryView {
            name: self.name@,
            version: self.version@,
            base_address: self.base_address@,
            size: self.size,
        }
    }
}

/// The loaded modules, and how many there are.
#[derive(Clone, Debug, PartialEq, Eq)]
pub struct ModulesSummary {
    pub count: usize,
    pub list: Vec<ModuleSummary>,
}

/// A [`ModulesSummary`] seen as plain values.
pub struct ModulesSummaryView {
    pub count: usize,
    pub list: Seq<ModuleSummaryView>,
}

impl DeepView for ModulesSummary {
    type V = ModulesSummaryView;

    open spec fn deep_view(&self) -> ModulesSummaryView {
        ModulesSummaryView { count: self.count, list: self.list.deep_view() }
    }
}

/// The summary of a snapshot.
#[derive(Clone, Debug, PartialEq, Eq)]
pub struct SnapshotSummary {
    pub os: Option<SystemInfo>,
    pub exception: Option<ExceptionSummary>,
    pub thread_count: Option<usize>,
    /// One entry for each thread: its instruction pointer as text, or the
    /// marker `unavailable`.
    pub top_frames: Option<Vec<String>>,
    pub modules: Option<ModulesSummary>,
    pub unloaded_module_count: Option<usize>,
    pub memory_region_count: Option<usize>,
    pub misc_info: Option<MiscInfo>,
}

/// A [`SnapshotSummary`] seen as plain values.
pub struct SnapshotSummaryView {
    pub os: Option<SystemInfoView>,
    pub exception: Option<ExceptionSummaryView>,
    pub thread_count: Option<usize>,
    pub top_frames: Option<Seq<Seq<char>>>,
    pub modules: Option<ModulesSummaryView>,
    pub unloaded_module_count: Option<usize>,
    pub memory_region_count: Option<usize>,
    pub misc_info: Option<MiscInfo>,
}

impl DeepView for SnapshotSummary {
    type V = SnapshotSummaryView;

    open spec fn deep_view(&self) -> SnapshotSummaryView {
        SnapshotSummaryView {
            os: self.os.deep_view(),
            exception: self.exception.deep_view(),
            thread_count: self.thread_count,
            top_frames: self.top_frames.deep_view(),
            modules: self.modules.deep_view(),
            unloaded_module_count: self.unloaded_module_count,
            memory_region_count: self.memory_region_count,
            misc_info: self.misc_info,
        }
    }
}

/// What stands for an instruction pointer that could not be resolved.
pub open spec fn unavailable_marker() -> Seq<char> {
    "unavailable"@
}

/// What stands for the reason of a crash that could not be read.
pub open spec fn unknown_reason() -> Seq<char> {
    "Unknown"@
}

/// The number of bytes between the two ends of an address range; zero where
/// the range ends before it begins.
pub open spec fn span_size(base: u64, end: u64) -> u64 {
    if end >= base {
        (end - base) as u64
    } else {
        0
    }
}

/// The entry of a thread among the top frames.
pub open spec fn pointer_text(pointer: Option<u64>) -> Seq<char> {
    match pointer {
        Some(address) => hex_text(address),
        None => unavailable_marker(),
    }
}

/// The summary of an exception record.
pub open spec fn exception_summary_of(record: ExceptionRecordView) -> ExceptionSummaryView {
    ExceptionSummaryView {
        reason: match record.reason {
            Some(reason) => reason,
            None => unknown_reason(),
        },
        thread_id: record.thread_id,
    }
}

/// The summary of a loaded module. A module without a version has the empty
/// text for one.
pub open spec fn module_summary_of(record: ModuleRecordView) -> ModuleSummaryView {
    ModuleSummaryView {
        name: record.name,
        version: match record.version {
            Some(version) => version,
            None => Seq::empty(),
        },
        base_address: hex_text(record.base_address),
        size: span_size(record.base_address, record.end_address),
    }
}

/// The summary of the loaded modules. The count is the number of entries.
pub open spec fn modules_summary_of(records: Seq<ModuleRecordView>) -> ModulesSummaryView
    recommends
        records.len() <= usize::MAX,
{
    ModulesSummaryView {
        count: records.len() as usize,
        list: records.map_values(|record| module_summary_of(record)),
    }
}

/// The one count of memory regions.
pub open spec fn region_count_of(memory: MemoryRegions) -> usize {
    match memory {
        MemoryRegions::Descriptors(count) => count,
        MemoryRegions::FullList(count) => count,
    }
}

/// The summary that an analysis projects to.
pub open spec fn summary_of(analysis: AnalysisView) -> SnapshotSummaryView
    recommends
        analysis.threads matches Some(pointers) ==> pointers.len() <= usize::MAX,
        analysis.modules matches Some(records) ==> records.len() <= usize::MAX,
{
    SnapshotSummaryView {
        os: analysis.system,
        exception: match analysis.exception {
            Some(record) => Some(exception_summary_of(record)),
            None => None,
        },
        thread_count: match analysis.threads {
            Some(pointers) => Some(pointers.len() as usize),
            None => None,
        },
        top_frames: match analysis.threads {
            Some(pointers) => Some(pointers.map_values(|pointer| pointer_text(pointer))),
            None => None,
        },
        modules: match analysis.modules {
            Some(records) => Some(modules_summary_of(records)),
            None => None,
        },
        unloaded_module_count: analysis.unloaded_modules,
        memory_region_count: match analysis.memory {
            Some(memory) => Some(region_count_of(memory)),
            None => None,
        },
        misc_info: analysis.misc,
    }
}

/// The summary of the bytes of a snapshot file; `None` where the bytes are no
/// snapshot at all.
pub open spec fn summary_of_bytes(bytes: Seq<u8>) -> Option<SnapshotSummaryView> {
    match analysis_of_bytes(bytes) {
        Some(analysis) => Some(summary_of(analysis)),
        None => None,
    }
}

/// A snapshot without an exception record but with a thread list has a
/// summary without an exception and with a thread count.
pub proof fn lemma_threads_without_exception(dump: Snapshot<'_>)
    requires
        exception_section(dump) is None,
        thread_section(dump) is Some,
    ensures
        summary_of(analysis_of(dump)).exception is None,
        summary_of(analysis_of(dump)).thread_count == Some(thread_total(thread_section(dump)->0)),
        summary_of(analysis_of(dump)).top_frames is Some,
        summary_of(analysis_of(dump)).top_frames->0.len() == thread_total(thread_section(dump)->0),
{
}

/// Each field of a summary is there exactly when its own section could be
/// read, whatever the state of the other sections; the count of memory
/// regions is there when either of the two lists is.
pub proof fn lemma_fields_are_independent(dump: Snapshot<'_>)
    ensures
        summary_of(analysis_of(dump)).os is Some <==> system_section(dump) is Some,
        summary_of(analysis_of(dump)).exception is Some <==> exception_section(dump) is Some,
        summary_of(analysis_of(dump)).thread_count is Some <==> thread_section(dump) is Some,
        summary_of(analysis_of(dump)).top_frames is Some <==> thread_section(dump) is Some,
        summary_of(analysis_of(dump)).misc_info is Some <==> misc_section(dump) is Some,
        summary_of(analysis_of(dump)).modules is Some <==> loaded_modules_of(dump) is Some,
        summary_of(analysis_of(dump)).unloaded_module_count is Some <==> unloaded_module_total(
            dump,
        ) is Some,
        summary_of(analysis_of(dump)).memory_region_count is Some <==> (memory_info_total(dump)
            is Some || memory_list_total(dump) is Some),
{
}

/// The count of memory regions is that of the descriptor list wherever there
/// is one; the older list counts only where there is none.
pub proof fn lemma_one_region_count(dump: Snapshot<'_>)
    ensures
        memory_info_total(dump) is Some ==> summary_of(analysis_of(dump)).memory_region_count
            == memory_info_total(dump),
        memory_info_total(dump) is None ==> summary_of(analysis_of(dump)).memory_region_count
            == memory_list_total(dump),
{
}

/// Without a system section the reason of a crash is unknown and no
/// instruction pointer is available, but the exception and every thread are
/// still reported.
pub proof fn lemma_without_system_section(dump: Snapshot<'_>)
    requires
        system_section(dump) is None,
    ensures
        exception_section(dump) matches Some(record) ==> summary_of(analysis_of(dump)).exception
            == Some(
            ExceptionSummaryView {
                reason: unknown_reason(),
                thread_id: faulting_thread_of(record),
            },
        ),
        thread_section(dump) matches Some(list) ==> summary_of(analysis_of(dump)).top_frames
            == Some(Seq::new(thread_total(list) as nat, |index: int| unavailable_marker())),
{
    match thread_section(dump) {
        Some(list) => {
        },
        None => {},
    }
}

/// The summary is a function of the bytes alone: whatever two runs of
/// [`summarize`] on the same bytes return, they return the same.
pub proof fn lemma_summary_is_repeatable(
    bytes: Seq<u8>,
    first: Option<SnapshotSummaryView>,
    second: Option<SnapshotSummaryView>,
)
    requires
        first == summary_of_bytes(bytes),
        second == summary_of_bytes(bytes),
    ensures
        first == second,
{
}

/// The projected size of a module is the distance from its base to its end,
/// and zero where the end lies before the base.
pub proof fn lemma_projected_size(record: ModuleRecordView)
    ensures
        record.end_address >= record.base_address ==> module_summary_of(record).size
            == record.end_address - record.base_address,
        record.end_address < record.base_address ==> module_summary_of(record).size == 0,
{
}

/// Computes the number of bytes between the two ends of an address range.
pub fn projected_size(base: u64, end: u64) -> (size: u64)
    ensures
        size == span_size(base, end),
{
    if end >= base {
        end - base
    } else {
        0
    }
}

/// Writes the entry of a thread among the top frames.
pub fn format_pointer(pointer: Option<u64>) -> (text: String)
    ensures
        text@ == pointer_text(pointer),
{
    match pointer {
        Some(address) => format_hex(address),
        None => String::from_str("unavailable"),
    }
}

/// Copies a system section.
pub fn clone_system(system: &Option<SystemInfo>) -> (copy: Option<SystemInfo>)
    ensures
        copy.deep_view() == system.deep_view(),
{
    match system {
        Some(system) => Some(
            SystemInfo { family: system.family.clone(), cpu: system.cpu.clone() },
        ),
        None => None,
    }
}

/// Projects an exception record to its summary.
pub fn project_exception(record: &ExceptionRecord) -> (summary: ExceptionSummary)
    ensures
        summary.deep_view() == exception_summary_of(record.deep_view()),
{
    let reason = match &record.reason {
        Some(reason) => reason.clone(),
        None => String::from_str("Unknown"),
    };
    ExceptionSummary { reason, thread_id: record.thread_id }
}

/// Projects the record of a loaded module to its summary.
pub fn project_module(record: &ModuleRecord) -> (summary: ModuleSummary)
    ensures
        summary.deep_view() == module_summary_of(record.deep_view()),
{
    let version = match &record.version {
        Some(version) => version.clone(),
        None => String::new(),
    };
    ModuleSummary {
        name: record.name.clone(),
        version,
        base_address: format_hex(record.base_address),
        size: projected_size(record.base_address, record.end_address),
    }
}

fn project_threads(pointers: &Vec<Option<u64>>) -> (frames: Vec<String>)
    ensures
        frames.deep_view() == pointers@.map_values(|pointer| pointer_text(pointer)),
{
    let mut frames: Vec<String> = Vec::new();
    let mut index: usize = 0;
    while index < pointers.len()
        invariant
            index <= pointers.len(),
            frames.len() == index,
            forall|k: int| 0 <= k < index ==> #[trigger] frames[k]@ == pointer_text(pointers[k]),
        decreases pointers.len() - index,
    {
        frames.push(format_pointer(pointers[index]));
        index = index + 1;
    }
    frames
}

fn project_modules(records: &Vec<ModuleRecord>) -> (summary: ModulesSummary)
    ensures
        summary.deep_view() == modules_summary_of(records.deep_view()),
{
    let mut list: Vec<ModuleSummary> = Vec::new();
    let mut index: usize = 0;
    while index < records.len()
        invariant
            index <= records.len(),
            list.len() == index,
            forall|k: int|
                0 <= k < index ==> #[trigger] list[k].deep_view() == module_summary_of(
                    records[k].deep_view(),
                ),
        decreases records.len() - index,
    {
        list.push(project_module(&records[index]));
        index = index + 1;
    }
    assert(list.deep_view() =~= records.deep_view().map_values(
        |record| module_summary_of(record),
    ));
    ModulesSummary { count: list.len(), list }
}

/// Projects an analysis to the summary of its snapshot.
pub fn project(analysis: &Analysis) -> (summary: SnapshotSummary)
    ensures
        summary.deep_view() == summary_of(analysis.deep_view()),
{
    let exception = match &analysis.exception {
        Some(record) => Some(project_exception(record)),
        None => None,
    };
    let thread_count = match &analysis.threads {
        Some(pointers) => Some(pointers.len()),
        None => None,
    };
    let top_frames = match &analysis.threads {
        Some(pointers) => Some(project_threads(pointers)),
        None => None,
    };
    let modules = match &analysis.modules {
        Some(records) => Some(project_modules(records)),
        None => None,
    };
    let memory_region_count = match analysis.memory {
        Some(MemoryRegions::Descriptors(count)) => Some(count),
        Some(MemoryRegions::FullList(count)) => Some(count),
        None => None,
    };
    SnapshotSummary {
        os: clone_system(&analysis.system),
        exception,
        thread_count,
        top_frames,
        modules,
        unloaded_module_count: analysis.unloaded_modules,
        memory_region_count,
        misc_info: analysis.misc,
    }
}

/// Summarises the bytes of a snapshot file. Bytes that are no snapshot at
/// all give `None`; a snapshot gives its summary, whatever the state of its
/// sections.
pub fn summarize(bytes: &[u8]) -> (summary: Option<SnapshotSummary>)
    ensures
        summary.deep_view() == summary_of_bytes(bytes@),
{
    match analyze(bytes) {
        Some(analysis) => Some(project(&analysis)),
        None => None,
    }
}

} // verus!
