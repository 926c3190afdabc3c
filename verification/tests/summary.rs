use crash_viewer::analysis::{
    analyze, end_address, Analysis, ExceptionRecord, MemoryRegions, ModuleRecord, SystemInfo,
};
use crash_viewer::snapshot::MiscInfo;
use crash_viewer::summary::{
    format_pointer, project, project_exception, project_module, projected_size, summarize,
    ExceptionSummary, ModuleSummary, ModulesSummary, SnapshotSummary,
};
use minidump_synth::{
    amd64_context, x86_context, DumpString, Exception, Memory, MemoryInfo, MiscFieldsPowerInfo,
    MiscFieldsProcessTimes, MiscStream, Module, SynthMinidump, SystemInfo as SynthSystemInfo,
    Thread, UnloadedModule, STOCK_VERSION_INFO,
};
use test_assembler::{Endian, Section};

const WINDOWS: u32 = 3;
const LINUX: u32 = 0x8201;
const X86: u16 = 0;
const AMD64: u16 = 9;

fn empty_analysis() -> Analysis {
    Analysis {
        system: None,
        exception: None,
        threads: None,
        misc: None,
        modules: None,
        unloaded_modules: None,
        memory: None,
    }
}

fn empty_summary() -> SnapshotSummary {
    SnapshotSummary {
        os: None,
        exception: None,
        thread_count: None,
        top_frames: None,
        modules: None,
        unloaded_module_count: None,
        memory_region_count: None,
        misc_info: None,
    }
}

fn stack() -> Memory {
    Memory::with_section(Section::with_endian(Endian::Little).append_repeated(0, 0x100), 0x1000)
}

fn system(platform: u32, arch: u16) -> SynthSystemInfo {
    SynthSystemInfo::new(Endian::Little).set_platform_id(platform).set_processor_architecture(arch)
}

fn threads_only() -> Vec<u8> {
    let context = x86_context(Endian::Little, 0xabcd1234, 0x1010);
    let memory = stack();
    let thread = Thread::new(Endian::Little, 0x1234, &memory, &context);
    SynthMinidump::with_endian(Endian::Little)
        .add_thread(thread)
        .add(context)
        .add_memory(memory)
        .finish()
        .unwrap()
}

#[test]
fn size_between_base_and_end() {
    assert_eq!(projected_size(0x1000, 0x1500), 0x500);
    assert_eq!(projected_size(0, u64::MAX), u64::MAX);
    assert_eq!(projected_size(7, 7), 0);
}

#[test]
fn size_of_an_inverted_range_is_zero() {
    assert_eq!(projected_size(0x1500, 0x1000), 0);
    assert_eq!(projected_size(u64::MAX, 0), 0);
}

#[test]
fn end_of_a_module_stops_at_the_last_address() {
    assert_eq!(end_address(0x1000, 0x500), 0x1500);
    assert_eq!(end_address(u64::MAX - 1, 1), u64::MAX);
    assert_eq!(end_address(u64::MAX - 1, 2), u64::MAX);
    assert_eq!(end_address(u64::MAX, u64::MAX), u64::MAX);
}

#[test]
fn pointer_is_written_as_hex_or_marked_unavailable() {
    assert_eq!(format_pointer(Some(0xdeadbeef)), "0xdeadbeef");
    assert_eq!(format_pointer(Some(0)), "0x0");
    assert_eq!(format_pointer(None), "unavailable");
}

#[test]
fn module_with_base_and_end_projects_its_size() {
    let record = ModuleRecord {
        name: "libc.so".to_string(),
        version: Some("2.31".to_string()),
        base_address: 0x1000,
        end_address: 0x1500,
    };
    assert_eq!(
        project_module(&record),
        ModuleSummary {
            name: "libc.so".to_string(),
            version: "2.31".to_string(),
            base_address: "0x1000".to_string(),
            size: 0x500,
        }
    );
}

#[test]
fn module_with_end_before_base_projects_size_zero() {
    let record = ModuleRecord {
        name: "odd".to_string(),
        version: None,
        base_address: 0x1500,
        end_address: 0x1000,
    };
    let summary = project_module(&record);
    assert_eq!(summary.size, 0);
    assert_eq!(summary.version, "");
    assert_eq!(summary.base_address, "0x1500");
}

#[test]
fn exception_without_reason_is_unknown() {
    assert_eq!(
        project_exception(&ExceptionRecord { thread_id: 9, reason: None }),
        ExceptionSummary { reason: "Unknown".to_string(), thread_id: 9 }
    );
    assert_eq!(
        project_exception(&ExceptionRecord { thread_id: 3, reason: Some("SIGSEGV".to_string()) }),
        ExceptionSummary { reason: "SIGSEGV".to_string(), thread_id: 3 }
    );
}

#[test]
fn empty_analysis_projects_to_an_empty_summary() {
    assert_eq!(project(&empty_analysis()), empty_summary());
}

#[test]
fn full_analysis_projects_every_field() {
    let misc = MiscInfo {
        process_id: Some(42),
        process_create_time: None,
        processor_max_mhz: Some(3000),
        processor_current_mhz: None,
    };
    let analysis = Analysis {
        system: Some(SystemInfo { family: "Linux".to_string(), cpu: "X86_64".to_string() }),
        exception: Some(ExceptionRecord { thread_id: 7, reason: Some("SIGSEGV".to_string()) }),
        threads: Some(vec![Some(0x10), None, Some(0xabc)]),
        misc: Some(misc),
        modules: Some(vec![ModuleRecord {
            name: "a".to_string(),
            version: None,
            base_address: 0x400000,
            end_address: 0x401000,
        }]),
        unloaded_modules: Some(2),
        memory: Some(MemoryRegions::Descriptors(5)),
    };
    assert_eq!(
        project(&analysis),
        SnapshotSummary {
            os: Some(SystemInfo { family: "Linux".to_string(), cpu: "X86_64".to_string() }),
            exception: Some(ExceptionSummary { reason: "SIGSEGV".to_string(), thread_id: 7 }),
            thread_count: Some(3),
            top_frames: Some(vec![
                "0x10".to_string(),
                "unavailable".to_string(),
                "0xabc".to_string()
            ]),
            modules: Some(ModulesSummary {
                count: 1,
                list: vec![ModuleSummary {
                    name: "a".to_string(),
                    version: String::new(),
                    base_address: "0x400000".to_string(),
                    size: 0x1000,
                }],
            }),
            unloaded_module_count: Some(2),
            memory_region_count: Some(5),
            misc_info: Some(misc),
        }
    );
}

#[test]
fn older_memory_list_gives_the_region_count_too() {
    let mut analysis = empty_analysis();
    analysis.memory = Some(MemoryRegions::FullList(11));
    assert_eq!(project(&analysis).memory_region_count, Some(11));
}

#[test]
fn bytes_that_are_no_snapshot_give_nothing() {
    assert_eq!(summarize(&[]), None);
    assert_eq!(summarize(b"not a snapshot at all, just some text"), None);
    assert_eq!(analyze(&[0u8; 64]), None);
}

#[test]
fn snapshot_without_sections_has_an_empty_summary() {
    let bytes = SynthMinidump::with_endian(Endian::Little).finish().unwrap();
    assert_eq!(summarize(&bytes), Some(empty_summary()));
    assert_eq!(analyze(&bytes), Some(empty_analysis()));
}

#[test]
fn threads_without_exception_are_still_counted() {
    let summary = summarize(&threads_only()).unwrap();
    assert_eq!(summary.exception, None);
    assert_eq!(summary.thread_count, Some(1));
}

#[test]
fn threads_without_system_section_are_unavailable() {
    let summary = summarize(&threads_only()).unwrap();
    assert_eq!(summary.os, None);
    assert_eq!(summary.top_frames, Some(vec!["unavailable".to_string()]));
    // the thread's memory is found in the older memory list
    assert_eq!(summary.memory_region_count, Some(1));
}

#[test]
fn thread_pointer_is_resolved_with_the_system_section() {
    let context = x86_context(Endian::Little, 0xabcd1234, 0x1010);
    let memory = stack();
    let thread = Thread::new(Endian::Little, 0x1234, &memory, &context);
    let bytes = SynthMinidump::with_endian(Endian::Little)
        .add_thread(thread)
        .add(context)
        .add_memory(memory)
        .add_system_info(system(WINDOWS, X86))
        .finish()
        .unwrap();
    let summary = summarize(&bytes).unwrap();
    assert_eq!(summary.thread_count, Some(1));
    assert_eq!(summary.top_frames, Some(vec!["0xabcd1234".to_string()]));
    assert_eq!(
        summary.os,
        Some(SystemInfo { family: "Windows".to_string(), cpu: "X86".to_string() })
    );
}

#[test]
fn each_thread_has_its_own_entry() {
    let first = amd64_context(Endian::Little, 0x1234abcd1234abcd, 0x1000000010000000);
    let second = amd64_context(Endian::Little, 0x7fff00001111, 0x1000000010000100);
    let memory = stack();
    let one = Thread::new(Endian::Little, 1, &memory, &first);
    let two = Thread::new(Endian::Little, 2, &memory, &second);
    let bytes = SynthMinidump::with_endian(Endian::Little)
        .add_thread(one)
        .add_thread(two)
        .add(first)
        .add(second)
        .add_memory(memory)
        .add_system_info(system(LINUX, AMD64))
        .finish()
        .unwrap();
    let analysis = analyze(&bytes).unwrap();
    assert_eq!(analysis.threads, Some(vec![Some(0x1234abcd1234abcd), Some(0x7fff00001111)]));
    let summary = project(&analysis);
    assert_eq!(summary.thread_count, Some(2));
    assert_eq!(
        summary.top_frames,
        Some(vec!["0x1234abcd1234abcd".to_string(), "0x7fff00001111".to_string()])
    );
    assert_eq!(
        summary.os,
        Some(SystemInfo { family: "Linux".to_string(), cpu: "X86_64".to_string() })
    );
}

#[test]
fn crash_reason_is_read_with_the_system_section() {
    let mut exception = Exception::new(Endian::Little);
    exception.thread_id = 0x77;
    exception.exception_record.exception_code = 0xc0000005;
    exception.exception_record.number_parameters = 2;
    exception.exception_record.exception_information[0] = 1;
    let bytes = SynthMinidump::with_endian(Endian::Little)
        .add_system_info(system(WINDOWS, X86))
        .add_exception(exception)
        .finish()
        .unwrap();
    let summary = summarize(&bytes).unwrap();
    assert_eq!(
        summary.exception,
        Some(ExceptionSummary {
            reason: "WindowsAccessViolation(WRITE)".to_string(),
            thread_id: 0x77
        })
    );
    assert_eq!(summary.thread_count, None);
}

#[test]
fn crash_reason_without_system_section_is_unknown() {
    let mut exception = Exception::new(Endian::Little);
    exception.thread_id = 5;
    exception.exception_record.exception_code = 0xc0000005;
    let bytes =
        SynthMinidump::with_endian(Endian::Little).add_exception(exception).finish().unwrap();
    let analysis = analyze(&bytes).unwrap();
    assert_eq!(analysis.exception, Some(ExceptionRecord { thread_id: 5, reason: None }));
    assert_eq!(
        project(&analysis).exception,
        Some(ExceptionSummary { reason: "Unknown".to_string(), thread_id: 5 })
    );
}

#[test]
fn misc_fields_that_were_not_filled_are_none() {
    let mut misc = MiscStream::new(Endian::Little);
    misc.process_id = Some(0x1234abcd);
    misc.process_times = Some(MiscFieldsProcessTimes {
        process_create_time: 0xf0f0b0b0,
        process_user_time: 1,
        process_kernel_time: 2,
    });
    let bytes = SynthMinidump::with_endian(Endian::Little).add_stream(misc).finish().unwrap();
    let summary = summarize(&bytes).unwrap();
    assert_eq!(
        summary.misc_info,
        Some(MiscInfo {
            process_id: Some(0x1234abcd),
            process_create_time: Some(0xf0f0b0b0),
            processor_max_mhz: None,
            processor_current_mhz: None,
        })
    );
}

#[test]
fn misc_power_fields_are_read() {
    let mut misc = MiscStream::new(Endian::Little);
    misc.power_info = Some(MiscFieldsPowerInfo {
        processor_max_mhz: 3600,
        processor_current_mhz: 1800,
        processor_mhz_limit: 3600,
        processor_max_idle_state: 1,
        processor_current_idle_state: 1,
    });
    let bytes = SynthMinidump::with_endian(Endian::Little).add_stream(misc).finish().unwrap();
    let summary = summarize(&bytes).unwrap();
    assert_eq!(
        summary.misc_info,
        Some(MiscInfo {
            process_id: None,
            process_create_time: None,
            processor_max_mhz: Some(3600),
            processor_current_mhz: Some(1800),
        })
    );
}

#[test]
fn loaded_modules_are_listed_and_counted() {
    let first = DumpString::new("first.dll", Endian::Little);
    let second = DumpString::new("second.dll", Endian::Little);
    let one = Module::new(Endian::Little, 0x400000, 0x1500, &first, 1, 2, Some(&STOCK_VERSION_INFO));
    let two = Module::new(Endian::Little, 0x800000, 0x20, &second, 3, 4, Some(&STOCK_VERSION_INFO));
    let bytes = SynthMinidump::with_endian(Endian::Little)
        .add_module(one)
        .add_module(two)
        .add(first)
        .add(second)
        .add_system_info(system(WINDOWS, X86))
        .finish()
        .unwrap();
    let analysis = analyze(&bytes).unwrap();
    assert_eq!(
        analysis.modules,
        Some(vec![
            ModuleRecord {
                name: "first.dll".to_string(),
                version: Some("4369.4369.8738.8738".to_string()),
                base_address: 0x400000,
                end_address: 0x401500,
            },
            ModuleRecord {
                name: "second.dll".to_string(),
                version: Some("4369.4369.8738.8738".to_string()),
                base_address: 0x800000,
                end_address: 0x800020,
            },
        ])
    );
    let modules = project(&analysis).modules.unwrap();
    assert_eq!(modules.count, 2);
    assert_eq!(modules.list.len(), 2);
    assert_eq!(
        modules.list[0],
        ModuleSummary {
            name: "first.dll".to_string(),
            version: "4369.4369.8738.8738".to_string(),
            base_address: "0x400000".to_string(),
            size: 0x1500,
        }
    );
    assert_eq!(modules.list[1].size, 0x20);
}

#[test]
fn unloaded_modules_are_only_counted() {
    let name = DumpString::new("gone.dll", Endian::Little);
    let one = UnloadedModule::new(Endian::Little, 0x1000, 0x100, &name, 1, 2);
    let two = UnloadedModule::new(Endian::Little, 0x2000, 0x100, &name, 3, 4);
    let three = UnloadedModule::new(Endian::Little, 0x3000, 0x100, &name, 5, 6);
    let bytes = SynthMinidump::with_endian(Endian::Little)
        .add_unloaded_module(one)
        .add_unloaded_module(two)
        .add_unloaded_module(three)
        .add(name)
        .finish()
        .unwrap();
    let summary = summarize(&bytes).unwrap();
    assert_eq!(summary.unloaded_module_count, Some(3));
    assert_eq!(summary.modules, None);
}

#[test]
fn memory_descriptors_give_the_region_count() {
    let bytes = SynthMinidump::with_endian(Endian::Little)
        .add_memory_info(MemoryInfo::new(Endian::Little, 0x1000, 0x1000, 4, 0x1000, 0x1000, 4, 0))
        .add_memory_info(MemoryInfo::new(Endian::Little, 0x9000, 0x9000, 4, 0x2000, 0x1000, 4, 0))
        .finish()
        .unwrap();
    assert_eq!(analyze(&bytes).unwrap().memory, Some(MemoryRegions::Descriptors(2)));
    assert_eq!(summarize(&bytes).unwrap().memory_region_count, Some(2));
}

#[test]
fn older_memory_list_counts_where_there_are_no_descriptors() {
    let bytes = SynthMinidump::with_endian(Endian::Little)
        .add_memory(stack())
        .add_memory(Memory::with_section(
            Section::with_endian(Endian::Little).append_repeated(1, 0x40),
            0x9000,
        ))
        .add_memory(Memory::with_section(
            Section::with_endian(Endian::Little).append_repeated(2, 0x40),
            0xa000,
        ))
        .finish()
        .unwrap();
    assert_eq!(analyze(&bytes).unwrap().memory, Some(MemoryRegions::FullList(3)));
    assert_eq!(summarize(&bytes).unwrap().memory_region_count, Some(3));
}

#[test]
fn descriptors_win_over_the_older_memory_list() {
    let bytes = SynthMinidump::with_endian(Endian::Little)
        .add_memory(stack())
        .add_memory(Memory::with_section(
            Section::with_endian(Endian::Little).append_repeated(1, 0x40),
            0x9000,
        ))
        .add_memory_info(MemoryInfo::new(Endian::Little, 0x1000, 0x1000, 4, 0x1000, 0x1000, 4, 0))
        .finish()
        .unwrap();
    assert_eq!(analyze(&bytes).unwrap().memory, Some(MemoryRegions::Descriptors(1)));
    assert_eq!(summarize(&bytes).unwrap().memory_region_count, Some(1));
}

#[test]
fn summarising_twice_gives_the_same_summary() {
    let context = x86_context(Endian::Little, 0x401000, 0x1010);
    let memory = stack();
    let thread = Thread::new(Endian::Little, 1, &memory, &context);
    let name = DumpString::new("app.exe", Endian::Little);
    let module = Module::new(Endian::Little, 0x400000, 0x2000, &name, 1, 2, Some(&STOCK_VERSION_INFO));
    let bytes = SynthMinidump::with_endian(Endian::Little)
        .add_thread(thread)
        .add(context)
        .add_memory(memory)
        .add_module(module)
        .add(name)
        .add_system_info(system(WINDOWS, X86))
        .finish()
        .unwrap();
    let first = summarize(&bytes);
    let second = summarize(&bytes);
    assert!(first.is_some());
    assert_eq!(first, second);
    assert_eq!(format!("{:?}", first), format!("{:?}", second));
    assert_eq!(analyze(&bytes), analyze(&bytes));
}

#[test]
fn summary_is_the_projection_of_the_analysis() {
    let bytes = threads_only();
    assert_eq!(summarize(&bytes), analyze(&bytes).map(|analysis| project(&analysis)));
}
