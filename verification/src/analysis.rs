//! The analysis of a snapshot: what each of its sections holds, section by
//! section.
//!
//! Every section of a snapshot may be missing or damaged, each independently
//! of the others. The analysis keeps whatever could be read: a section that
//! could not be is simply absent, and never makes the analysis fail. Two
//! things need more than one section: the reason of a crash is read from the
//! exception record in the light of the system section, and the instruction
//! pointer of a thread from its saved context in the light of the system
//! section and, where there is one, the block of process details.

use crate::snapshot::{
    cpu_kind, cpu_kind_of, crash_reason, crash_reason_of, exception, exception_section,
    faulting_thread, faulting_thread_of, loaded_modules, loaded_modules_of, memory_info_count,
    memory_info_total, memory_list_count, memory_list_total, misc_fields, misc_fields_of,
    misc_info, misc_section, open_snapshot, os_family, os_family_of, read_of, snapshot_of,
    system_info,
    system_section, thread_count, thread_list, thread_pointer, thread_pointer_at, thread_section,
    thread_total, unloaded_module_count, unloaded_module_total, LoadedModule, LoadedModuleView,
    MiscInfo, Snapshot,
};
use vstd::prelude::*;

verus! {

/// The operating system and the processor of the machine that crashed, as
/// symbolic tags.
#[derive(Clone, Debug, PartialEq, Eq)]
pub struct SystemInfo {
    pub family: String,
    pub cpu: String,
}

/// A [`SystemInfo`] seen as plain values.
pub struct SystemInfoView {
    pub family: Seq<char>,
    pub cpu: Seq<char>,
}

impl DeepView for SystemInfo {
    type V = SystemInfoView;

    open spec fn deep_view(&self) -> SystemInfoView {
        SystemInfoView { family: self.family@, cpu: self.cpu@ }
    }
}

/// The exception record: the thread that faulted, and the reason of the
/// crash where the system section was there to read it by.
#[derive(Clone, Debug, PartialEq, Eq)]
pub struct ExceptionRecord {
    pub thread_id: u32,
    pub reason: Option<String>,
}

/// An [`ExceptionRecord`] seen as plain values.
pub struct ExceptionRecordView {
    pub thread_id: u32,
    pub reason: Option<Seq<char>>,
}

impl DeepView for ExceptionRecord {
    type V = ExceptionRecordView;

    open spec fn deep_view(&self) -> ExceptionRecordView {
        ExceptionRecordView { thread_id: self.thread_id, reason: self.reason.deep_view() }
    }
}

/// A loaded module with the two ends of the address range it occupies.
#[derive(Clone, Debug, PartialEq, Eq)]
pub struct ModuleRecord {
    pub name: String,
    pub version: Option<String>,
    pub base_address: u64,
    pub end_address: u64,
}

/// A [`ModuleRecord`] seen as plain values.
pub struct ModuleRecordView {
    pub name: Seq<char>,
    pub version: Option<Seq<char>>,
    pub base_address: u64,
    pub end_address: u64,
}

impl DeepView for ModuleRecord {
    type V = ModuleRecordView;

    open spec fn deep_view(&self) -> ModuleRecordView {
        ModuleRecordView {
            name: self.name@,
            version: self.version.deep_view(),
            base_address: self.base_address,
            end_address: self.end_address,
        }
    }
}

/// The memory regions of a snapshot. A snapshot describes them either by a
/// list of region descriptors or, in the older format, by a list of the
/// regions themselves; which of the two it was is settled when it is read.
#[derive(Clone, Copy, Debug, PartialEq, Eq, Structural)]
pub enum MemoryRegions {
    Descriptors(usize),
    FullList(usize),
}

/// What could be read of a snapshot, section by section.
#[derive(Clone, Debug, PartialEq, Eq)]
pub struct Analysis {
    pub system: Option<SystemInfo>,
    pub exception: Option<ExceptionRecord>,
    /// One entry for each thread, in the order of the thread list: its
    /// instruction pointer, where it could be resolved.
    pub threads: Option<Vec<Option<u64>>>,
    pub misc: Option<MiscInfo>,
    pub modules: Option<Vec<ModuleRecord>>,
    pub unloaded_modules: Option<usize>,
    pub memory: Option<MemoryRegions>,
}

/// An [`Analysis`] seen as plain values.
pub struct AnalysisView {
    pub system: Option<SystemInfoView>,
    pub exception: Option<ExceptionRecordView>,
    pub threads: Option<Seq<Option<u64>>>,
    pub misc: Option<MiscInfo>,
    pub modules: Option<Seq<ModuleRecordView>>,
    pub unloaded_modules: Option<usize>,
    pub memory: Option<MemoryRegions>,
}

impl DeepView for Analysis {
    type V = AnalysisView;

    open spec fn deep_view(&self) -> AnalysisView {
        AnalysisView {
            system: self.system.deep_view(),
            exception: self.exception.deep_view(),
            threads: match self.threads {
                Some(pointers) => Some(pointers@),
                None => None,
            },
            misc: self.misc,
            modules: self.modules.deep_view(),
            unloaded_modules: self.unloaded_modules,
            memory: self.memory,
        }
    }
}

/// The address at which a module of `size` bytes that begins at `base` ends.
/// No module reaches beyond the last address.
pub open spec fn end_address_of(base: u64, size: u64) -> u64 {
    if base + size <= u64::MAX {
        (base + size) as u64
    } else {
        u64::MAX
    }
}

/// The record of a loaded module.
pub open spec fn module_record_of(module: LoadedModuleView) -> ModuleRecordView {
    ModuleRecordView {
        name: module.name,
        version: module.version,
        base_address: module.base_address,
        end_address: end_address_of(module.base_address, module.size),
    }
}

/// The system section of a snapshot.
pub open spec fn system_of(dump: Snapshot<'_>) -> Option<SystemInfoView> {
    match system_section(dump) {
        Some(sys) => Some(SystemInfoView { family: os_family_of(sys), cpu: cpu_kind_of(sys) }),
        None => None,
    }
}

/// The exception record of a snapshot. The same raw code means different
/// things on different systems, so without a system section there is no reason.
pub open spec fn exception_of(dump: Snapshot<'_>) -> Option<ExceptionRecordView> {
    match exception_section(dump) {
        Some(record) => Some(
            ExceptionRecordView {
                thread_id: faulting_thread_of(record),
                reason: match system_section(dump) {
                    Some(sys) => Some(crash_reason_of(record, sys)),
                    None => None,
                },
            },
        ),
        None => None,
    }
}

/// The instruction pointers of the threads of a thread list, one entry for
/// each thread. Without a system section none can be resolved.
pub open spec fn thread_pointers_of(
    list: minidump::MinidumpThreadList<'_>,
    sys: Option<minidump::MinidumpSystemInfo>,
    misc: Option<minidump::MinidumpMiscInfo>,
) -> Seq<Option<u64>> {
    Seq::new(
        thread_total(list) as nat,
        |index: int|
            match sys {
                Some(sys) => thread_pointer_at(list, index, sys, misc),
                None => None,
            },
    )
}

/// The threads of a snapshot.
pub open spec fn threads_of(dump: Snapshot<'_>) -> Option<Seq<Option<u64>>> {
    match thread_section(dump) {
        Some(list) => Some(thread_pointers_of(list, system_section(dump), misc_section(dump))),
        None => None,
    }
}

/// The block of process details of a snapshot.
pub open spec fn misc_of(dump: Snapshot<'_>) -> Option<MiscInfo> {
    match misc_section(dump) {
        Some(misc) => Some(misc_fields_of(misc)),
        None => None,
    }
}

/// The loaded modules of a snapshot, in the order of its module list.
pub open spec fn modules_of(dump: Snapshot<'_>) -> Option<Seq<ModuleRecordView>> {
    match loaded_modules_of(dump) {
        Some(modules) => Some(modules.map_values(|module| module_record_of(module))),
        None => None,
    }
}

/// The memory regions of a snapshot: those of the descriptor list if it has
/// one, else those of the older list if it has that, else none. The two are
/// never both looked at, and never added up.
pub open spec fn memory_of(dump: Snapshot<'_>) -> Option<MemoryRegions> {
    match memory_info_total(dump) {
        Some(count) => Some(MemoryRegions::Descriptors(count)),
        None => match memory_list_total(dump) {
            Some(count) => Some(MemoryRegions::FullList(count)),
            None => None,
        },
    }
}

/// The analysis of a snapshot that could be opened.
pub open spec fn analysis_of(dump: Snapshot<'_>) -> AnalysisView {
    AnalysisView {
        system: system_of(dump),
        exception: exception_of(dump),
        threads: threads_of(dump),
        misc: misc_of(dump),
        modules: modules_of(dump),
        unloaded_modules: unloaded_module_total(dump),
        memory: memory_of(dump),
    }
}

/// The analysis of the bytes of a snapshot file; `None` where the bytes are
/// no snapshot at all.
pub open spec fn analysis_of_bytes(bytes: Seq<u8>) -> Option<AnalysisView> {
    match snapshot_of(bytes) {
        Some(dump) => Some(analysis_of(dump)),
        None => None,
    }
}

/// Takes what was read; an error of any kind, a missing section among them,
/// leaves nothing.
fn read<T>(outcome: Result<T, minidump::Error>) -> (found: Option<T>)
    ensures
        found == read_of(outcome),
{
    match outcome {
        Ok(value) => Some(value),
        Err(_) => None,
    }
}

/// Computes the end of the address range of a module.
pub fn end_address(base: u64, size: u64) -> (end: u64)
    ensures
        end == end_address_of(base, size),
{
    if size <= u64::MAX - base {
        base + size
    } else {
        u64::MAX
    }
}

/// Copies an optional text.
pub fn clone_text(text: &Option<String>) -> (copy: Option<String>)
    ensures
        copy.deep_view() == text.deep_view(),
{
    match text {
        Some(text) => Some(text.clone()),
        None => None,
    }
}

fn read_system(sys: &Option<minidump::MinidumpSystemInfo>) -> (system: Option<SystemInfo>)
    ensures
        system.deep_view() == match *sys {
            Some(sys) => Some(SystemInfoView { family: os_family_of(sys), cpu: cpu_kind_of(sys) }),
            None => None,
        },
{
    match sys {
        Some(sys) => Some(SystemInfo { family: os_family(sys), cpu: cpu_kind(sys) }),
        None => None,
    }
}

fn read_exception<'a>(dump: &'a Snapshot<'a>, sys: &Option<minidump::MinidumpSystemInfo>) -> (found:
    Option<ExceptionRecord>)
    requires
        *sys == system_section(*dump),
    ensures
        found.deep_view() == exception_of(*dump),
{
    match read(exception(dump)) {
        Some(record) => {
            let reason = match sys {
                Some(sys) => Some(crash_reason(&record, sys)),
                None => None,
            };
            Some(ExceptionRecord { thread_id: faulting_thread(&record), reason })
        },
        None => None,
    }
}

fn read_thread_pointers(
    list: &minidump::MinidumpThreadList<'_>,
    sys: &Option<minidump::MinidumpSystemInfo>,
    misc: &Option<minidump::MinidumpMiscInfo>,
) -> (pointers: Vec<Option<u64>>)
    ensures
        pointers@ == thread_pointers_of(*list, *sys, *misc),
{
    let count = thread_count(list);
    let mut pointers: Vec<Option<u64>> = Vec::new();
    let mut index: usize = 0;
    while index < count
        invariant
            index <= count,
            count == thread_total(*list),
            pointers.len() == index,
            forall|k: int|
                0 <= k < index ==> pointers[k] == thread_pointers_of(*list, *sys, *misc)[k],
        decreases count - index,
    {
        let pointer = match sys {
            Some(sys) => thread_pointer(list, index, sys, misc),
            None => None,
        };
        pointers.push(pointer);
        index = index + 1;
    }
    pointers
}

fn read_threads<'a>(
    dump: &'a Snapshot<'a>,
    sys: &Option<minidump::MinidumpSystemInfo>,
    misc: &Option<minidump::MinidumpMiscInfo>,
) -> (threads: Option<Vec<Option<u64>>>)
    requires
        *sys == system_section(*dump),
        *misc == misc_section(*dump),
    ensures
        match threads {
            Some(pointers) => threads_of(*dump) == Some(pointers@),
            None => threads_of(*dump) is None,
        },
{
    match read(thread_list(dump)) {
        Some(list) => Some(read_thread_pointers(&list, sys, misc)),
        None => None,
    }
}

fn read_misc(misc: &Option<minidump::MinidumpMiscInfo>) -> (fields: Option<MiscInfo>)
    ensures
        fields == match *misc {
            Some(misc) => Some(misc_fields_of(misc)),
            None => None,
        },
{
    match misc {
        Some(misc) => Some(misc_fields(misc)),
        None => None,
    }
}

fn module_record(module: &LoadedModule) -> (record: ModuleRecord)
    ensures
        record.deep_view() == module_record_of(module.deep_view()),
{
    ModuleRecord {
        name: module.name.clone(),
        version: clone_text(&module.version),
        base_address: module.base_address,
        end_address: end_address(module.base_address, module.size),
    }
}

fn read_modules<'a>(dump: &'a Snapshot<'a>) -> (modules: Option<Vec<ModuleRecord>>)
    ensures
        modules.deep_view() == modules_of(*dump),
{
    match read(loaded_modules(dump)) {
        Some(loaded) => {
            let mut records: Vec<ModuleRecord> = Vec::new();
            let mut index: usize = 0;
            while index < loaded.len()
                invariant
                    index <= loaded.len(),
                    records.len() == index,
                    forall|k: int|
                        0 <= k < index ==> #[trigger] records[k].deep_view() == module_record_of(
                            loaded[k].deep_view(),
                        ),
                decreases loaded.len() - index,
            {
                records.push(module_record(&loaded[index]));
                index = index + 1;
            }
            Some(records)
        },
        None => None,
    }
}

fn read_memory<'a>(dump: &'a Snapshot<'a>) -> (memory: Option<MemoryRegions>)
    ensures
        memory == memory_of(*dump),
{
    match read(memory_info_count(dump)) {
        Some(count) => Some(MemoryRegions::Descriptors(count)),
        None => match read(memory_list_count(dump)) {
            Some(count) => Some(MemoryRegions::FullList(count)),
            None => None,
        },
    }
}

/// Reads every section of an opened snapshot.
pub(crate) fn analyze_snapshot<'a>(dump: &'a Snapshot<'a>) -> (analysis: Analysis)
    ensures
        analysis.deep_view() == analysis_of(*dump),
{
    let sys = read(system_info(dump));
    let misc = read(misc_info(dump));
    let system = read_system(&sys);
    let exception = read_exception(dump, &sys);
    let threads = read_threads(dump, &sys, &misc);
    let modules = read_modules(dump);
    Analysis {
        system,
        exception,
        threads,
        misc: read_misc(&misc),
        modules,
        unloaded_modules: read(unloaded_module_count(dump)),
        memory: read_memory(dump),
    }
}

/// Analyses the bytes of a snapshot file. Bytes that are no snapshot at all
/// give `None`; a snapshot gives its analysis, whatever the state of its
/// sections.
pub fn analyze(bytes: &[u8]) -> (analysis: Option<Analysis>)
    ensures
        analysis.deep_view() == analysis_of_bytes(bytes@),
{
    match read(open_snapshot(bytes)) {
        Some(dump) => Some(analyze_snapshot(&dump)),
        None => None,
    }
}

} // verus!
