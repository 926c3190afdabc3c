//! Reading the sections of a binary snapshot with the `minidump` crate.
//!
//! Nothing in this module is proved. Each function hands one call on to
//! `minidump`, and its contract gives the outcome a name, so that the rest of
//! the library can say which outcome it works on. A name claims one thing
//! only: the call is a function of its arguments, the same snapshot gives the
//! same outcome every time. Errors are handed on as they come; what to make
//! of them is decided elsewhere.

use minidump::Module;
use vstd::prelude::*;

verus! {

/// A snapshot whose header and stream directory `minidump` has accepted. It
/// holds a `minidump::Minidump` over the borrowed bytes of the file.
#[verifier::external_body]
pub struct Snapshot<'a> {
    inner: minidump::Minidump<'a, &'a [u8]>,
}

/// `minidump::Error`: why a snapshot or one of its sections could not be read.
#[verifier::external_type_specification]
#[verifier::external_body]
pub struct ExMinidumpError(minidump::Error);

/// `minidump::MinidumpSystemInfo`: the decoded system section.
#[verifier::external_type_specification]
#[verifier::external_body]
pub struct ExMinidumpSystemInfo(minidump::MinidumpSystemInfo);

/// `minidump::MinidumpMiscInfo`: the decoded block of process details.
#[verifier::external_type_specification]
#[verifier::external_body]
pub struct ExMinidumpMiscInfo(minidump::MinidumpMiscInfo);

/// `minidump::MinidumpThreadList`: the decoded thread list.
#[verifier::external_type_specification]
#[verifier::external_body]
pub struct ExMinidumpThreadList<'a>(minidump::MinidumpThreadList<'a>);

/// `minidump::MinidumpException`: the decoded exception record.
#[verifier::external_type_specification]
#[verifier::external_body]
pub struct ExMinidumpException<'a>(minidump::MinidumpException<'a>);

/// What the block of process details holds. A field that the platform which
/// wrote the snapshot did not fill is `None`.
#[derive(Clone, Copy, Debug, PartialEq, Eq, Structural)]
pub struct MiscInfo {
    pub process_id: Option<u32>,
    pub process_create_time: Option<u32>,
    pub processor_max_mhz: Option<u32>,
    pub processor_current_mhz: Option<u32>,
}

/// A loaded module as the module list gives it.
#[derive(Clone, Debug, PartialEq, Eq)]
pub struct LoadedModule {
    pub name: String,
    pub version: Option<String>,
    pub base_address: u64,
    pub size: u64,
}

/// A [`LoadedModule`] seen as plain values.
pub struct LoadedModuleView {
    pub name: Seq<char>,
    pub version: Option<Seq<char>>,
    pub base_address: u64,
    pub size: u64,
}

impl DeepView for LoadedModule {
    type V = LoadedModuleView;

    open spec fn deep_view(&self) -> LoadedModuleView {
        LoadedModuleView {
            name: self.name@,
            version: self.version.deep_view(),
            base_address: self.base_address,
            size: self.size,
        }
    }
}

/// What was read, where reading did not fail.
pub open spec fn read_of<T>(outcome: Result<T, minidump::Error>) -> Option<T> {
    match outcome {
        Ok(value) => Some(value),
        Err(_) => None,
    }
}

/// What `Minidump::read` makes of `bytes`; `None` where it rejects them.
pub uninterp spec fn snapshot_of(bytes: Seq<u8>) -> Option<Snapshot<'static>>;

/// What `Minidump::get_stream::<MinidumpSystemInfo>` finds in a snapshot.
pub uninterp spec fn system_section(dump: Snapshot<'_>) -> Option<minidump::MinidumpSystemInfo>;

/// The `Debug` form of the field `os` of a system section.
pub uninterp spec fn os_family_of(sys: minidump::MinidumpSystemInfo) -> Seq<char>;

/// The `Debug` form of the field `cpu` of a system section.
pub uninterp spec fn cpu_kind_of(sys: minidump::MinidumpSystemInfo) -> Seq<char>;

/// What `Minidump::get_stream::<MinidumpException>` finds in a snapshot.
pub uninterp spec fn exception_section(dump: Snapshot<'_>) -> Option<
    minidump::MinidumpException<'_>,
>;

/// The field `thread_id` of an exception record.
pub uninterp spec fn faulting_thread_of(exception: minidump::MinidumpException<'_>) -> u32;

/// The `Debug` form of what `MinidumpException::get_crash_reason` returns for
/// the fields `os` and `cpu` of a system section.
pub uninterp spec fn crash_reason_of(
    exception: minidump::MinidumpException<'_>,
    sys: minidump::MinidumpSystemInfo,
) -> Seq<char>;

/// What `Minidump::get_stream::<MinidumpThreadList>` finds in a snapshot.
pub uninterp spec fn thread_section(dump: Snapshot<'_>) -> Option<
    minidump::MinidumpThreadList<'_>,
>;

/// The length of the field `threads` of a thread list.
pub uninterp spec fn thread_total(list: minidump::MinidumpThreadList<'_>) -> usize;

/// The instruction pointer of the context that `MinidumpThread::context`
/// decodes for the thread at `index`; `None` where it decodes none.
pub uninterp spec fn thread_pointer_at(
    list: minidump::MinidumpThreadList<'_>,
    index: int,
    sys: minidump::MinidumpSystemInfo,
    misc: Option<minidump::MinidumpMiscInfo>,
) -> Option<u64>;

/// What `Minidump::get_stream::<MinidumpMiscInfo>` finds in a snapshot.
pub uninterp spec fn misc_section(dump: Snapshot<'_>) -> Option<minidump::MinidumpMiscInfo>;

/// What the accessors of `RawMiscInfo` return for the four fields of [`MiscInfo`].
pub uninterp spec fn misc_fields_of(misc: minidump::MinidumpMiscInfo) -> MiscInfo;

/// The modules that `MinidumpModuleList::iter` yields for the module list of a
/// snapshot, in its order; `None` where `get_stream` finds no module list.
pub uninterp spec fn loaded_modules_of(dump: Snapshot<'_>) -> Option<Seq<LoadedModuleView>>;

/// How many modules `MinidumpUnloadedModuleList::iter` yields for a snapshot;
/// `None` where `get_stream` finds no such list.
pub uninterp spec fn unloaded_module_total(dump: Snapshot<'_>) -> Option<usize>;

/// How many regions `MinidumpMemoryInfoList::iter` yields for a snapshot;
/// `None` where `get_stream` finds no such list.
pub uninterp spec fn memory_info_total(dump: Snapshot<'_>) -> Option<usize>;

/// How many regions `MinidumpMemoryList::iter` yields for a snapshot; `None`
/// where `get_stream` finds no such list.
pub uninterp spec fn memory_list_total(dump: Snapshot<'_>) -> Option<usize>;

/// Calls `Minidump::read` on the bytes of a snapshot file.
#[verifier::external_body]
pub(crate) fn open_snapshot<'a>(bytes: &'a [u8]) -> (outcome: Result<Snapshot<'a>, minidump::Error>)
    ensures
        read_of(outcome) == snapshot_of(bytes@),
{
    minidump::Minidump::read(bytes).map(|inner| Snapshot { inner })
}

/// Calls `Minidump::get_stream::<MinidumpSystemInfo>`.
#[verifier::external_body]
pub(crate) fn system_info<'a>(dump: &'a Snapshot<'a>) -> (outcome: Result<
    minidump::MinidumpSystemInfo,
    minidump::Error,
>)
    ensures
        read_of(outcome) == system_section(*dump),
{
    dump.inner.get_stream::<minidump::MinidumpSystemInfo>()
}

/// Formats the field `os` of a system section with `Debug`.
#[verifier::external_body]
pub(crate) fn os_family(sys: &minidump::MinidumpSystemInfo) -> (family: String)
    ensures
        family@ == os_family_of(*sys),
{
    format!("{:?}", sys.os)
}

/// Formats the field `cpu` of a system section with `Debug`.
#[verifier::external_body]
pub(crate) fn cpu_kind(sys: &minidump::MinidumpSystemInfo) -> (cpu: String)
    ensures
        cpu@ == cpu_kind_of(*sys),
{
    format!("{:?}", sys.cpu)
}

/// Calls `Minidump::get_stream::<MinidumpException>`.
#[verifier::external_body]
pub(crate) fn exception<'a>(dump: &'a Snapshot<'a>) -> (outcome: Result<
    minidump::MinidumpException<'a>,
    minidump::Error,
>)
    ensures
        read_of(outcome) == exception_section(*dump),
{
    dump.inner.get_stream::<minidump::MinidumpException>()
}

/// Reads the field `thread_id` of an exception record.
#[verifier::external_body]
pub(crate) fn faulting_thread(exception: &minidump::MinidumpException<'_>) -> (id: u32)
    ensures
        id == faulting_thread_of(*exception),
{
    exception.thread_id
}

/// Calls `MinidumpException::get_crash_reason` with the fields `os` and `cpu`
/// of a system section, and formats the reason with `Debug`.
#[verifier::external_body]
pub(crate) fn crash_reason(
    exception: &minidump::MinidumpException<'_>,
    sys: &minidump::MinidumpSystemInfo,
) -> (reason: String)
    ensures
        reason@ == crash_reason_of(*exception, *sys),
{
    format!("{:?}", exception.get_crash_reason(sys.os, sys.cpu))
}

/// Calls `Minidump::get_stream::<MinidumpThreadList>`.
#[verifier::external_body]
pub(crate) fn thread_list<'a>(dump: &'a Snapshot<'a>) -> (outcome: Result<
    minidump::MinidumpThreadList<'a>,
    minidump::Error,
>)
    ensures
        read_of(outcome) == thread_section(*dump),
{
    dump.inner.get_stream::<minidump::MinidumpThreadList>()
}

/// Reads the length of the field `threads` of a thread list.
#[verifier::external_body]
pub(crate) fn thread_count(list: &minidump::MinidumpThreadList<'_>) -> (count: usize)
    ensures
        count == thread_total(*list),
{
    list.threads.len()
}

/// Calls `MinidumpThread::context` on the thread at `index`, and
/// `MinidumpContext::get_instruction_pointer` on the context it decodes.
#[verifier::external_body]
pub(crate) fn thread_pointer(
    list: &minidump::MinidumpThreadList<'_>,
    index: usize,
    sys: &minidump::MinidumpSystemInfo,
    misc: &Option<minidump::MinidumpMiscInfo>,
) -> (pointer: Option<u64>)
    requires
        index < thread_total(*list),
    ensures
        pointer == thread_pointer_at(*list, index as int, *sys, *misc),
{
    list.threads[index].context(sys, misc.as_ref()).map(|context| context.get_instruction_pointer())
}

/// Calls `Minidump::get_stream::<MinidumpMiscInfo>`.
#[verifier::external_body]
pub(crate) fn misc_info<'a>(dump: &'a Snapshot<'a>) -> (outcome: Result<
    minidump::MinidumpMiscInfo,
    minidump::Error,
>)
    ensures
        read_of(outcome) == misc_section(*dump),
{
    dump.inner.get_stream::<minidump::MinidumpMiscInfo>()
}

/// Calls the accessors `process_id`, `process_create_time`,
/// `processor_max_mhz` and `processor_current_mhz` of `RawMiscInfo`.
#[verifier::external_body]
pub(crate) fn misc_fields(misc: &minidump::MinidumpMiscInfo) -> (fields: MiscInfo)
    ensures
        fields == misc_fields_of(*misc),
{
    MiscInfo {
        process_id: misc.raw.process_id().copied(),
        process_create_time: misc.raw.process_create_time().copied(),
        processor_max_mhz: misc.raw.processor_max_mhz().copied(),
        processor_current_mhz: misc.raw.processor_current_mhz().copied(),
    }
}

/// Calls `Minidump::get_stream::<MinidumpModuleList>` and hands out what
/// `MinidumpModuleList::iter` yields: of each module its `code_file`, its
/// `version`, its `base_address` and its `size`.
#[verifier::external_body]
pub(crate) fn loaded_modules<'a>(dump: &'a Snapshot<'a>) -> (outcome: Result<
    Vec<LoadedModule>,
    minidump::Error,
>)
    ensures
        read_of(outcome).deep_view() == loaded_modules_of(*dump),
{
    dump.inner.get_stream::<minidump::MinidumpModuleList>().map(|list| {
        list.iter().map(|module| LoadedModule {
            name: module.code_file().into_owned(),
            version: module.version().map(|version| version.into_owned()),
            base_address: module.base_address(),
            size: module.size(),
        }).collect()
    })
}

/// Calls `Minidump::get_stream::<MinidumpUnloadedModuleList>` and counts what
/// `MinidumpUnloadedModuleList::iter` yields.
#[verifier::external_body]
pub(crate) fn unloaded_module_count<'a>(dump: &'a Snapshot<'a>) -> (outcome: Result<
    usize,
    minidump::Error,
>)
    ensures
        read_of(outcome) == unloaded_module_total(*dump),
{
    dump.inner.get_stream::<minidump::MinidumpUnloadedModuleList>().map(|list| list.iter().count())
}

/// Calls `Minidump::get_stream::<MinidumpMemoryInfoList>` and counts what
/// `MinidumpMemoryInfoList::iter` yields.
#[verifier::external_body]
pub(crate) fn memory_info_count<'a>(dump: &'a Snapshot<'a>) -> (outcome: Result<
    usize,
    minidump::Error,
>)
    ensures
        read_of(outcome) == memory_info_total(*dump),
{
    dump.inner.get_stream::<minidump::MinidumpMemoryInfoList>().map(|list| list.iter().count())
}

/// Calls `Minidump::get_stream::<MinidumpMemoryList>` and counts what
/// `MinidumpMemoryList::iter` yields.
#[verifier::external_body]
pub(crate) fn memory_list_count<'a>(dump: &'a Snapshot<'a>) -> (outcome: Result<
    usize,
    minidump::Error,
>)
    ensures
        read_of(outcome) == memory_list_total(*dump),
{
    dump.inner.get_stream::<minidump::MinidumpMemoryList>().map(|list| list.iter().count())
}

} // verus!
