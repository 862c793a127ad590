//! Page tables, guards, clocks, shared buffers and the loader.
use axkernel::clock::{
    is_scmi_clock_protocol, is_scmi_provider, plan_clock, ClockPlan, ScmiClockOps,
};
use axkernel::download::{
    append_download_chunk, checked_kernel_size, download_percent, download_sized_body, human_size,
    BindingOutcome, BindingSearch, Download, DownloadError, DownloadProgress, DownloadStep,
    HttpRetry, HumanSize, KernelLoadError, RetryStep,
};
use axkernel::guard::{
    BaseGuard, GuardStep, IrqSave, KernelGuardIf, LocalCpu, NoOp, NoPreempt, NoPreemptIrqSave,
    PreemptExit,
};
use axkernel::ion::{
    is_power_of_two, DmaFailure, DmaRegion, IonBuffer, IonError, IonHeapManager, IonHeapType,
};
use axkernel::paging::{
    A64Pte, A64Regime, ArchPagingMeta, La64Pte, MemAttributes, PagingArch, PteConfig, Rv64Pte,
    RvVendor, X64Pte,
};
use fdt_edit::{Node, Property};

#[test]
fn identifies_scmi_clock_protocol_provider() {
    let mut scmi_clock = Node::new("protocol@14");
    scmi_clock.add_property(Property::new("reg", 0x14_u32.to_be_bytes().to_vec()));

    assert!(is_scmi_clock_protocol(&scmi_clock));
}

#[test]
fn does_not_treat_cru_as_scmi_clock_protocol() {
    let mut cru = Node::new("clock-controller@fd7c0000");
    cru.add_property(Property::new("reg", 0xfd7c0000_u32.to_be_bytes().to_vec()));

    assert!(!is_scmi_clock_protocol(&cru));
}

#[test]
fn a_clock_provider_needs_both_name_and_number() {
    let nameless = Node::new("protocol@14");
    assert!(!is_scmi_clock_protocol(&nameless));

    let mut short = Node::new("protocol@14");
    short.add_property(Property::new("reg", vec![0x14]));
    assert!(!is_scmi_clock_protocol(&short));

    let mut swapped = Node::new("protocol@14");
    swapped.add_property(Property::new("reg", 0x14_u32.to_le_bytes().to_vec()));
    assert!(!is_scmi_clock_protocol(&swapped));

    let mut twice = Node::new("protocol@14,1");
    twice.add_property(Property::new("reg", 0x13_u32.to_be_bytes().to_vec()));
    assert!(!is_scmi_clock_protocol(&twice));
    twice.add_property(Property::new("reg", 0x14_u32.to_be_bytes().to_vec()));
    assert!(is_scmi_clock_protocol(&twice));

    assert!(is_scmi_provider("protocol@14", Some(0x14)));
    assert!(!is_scmi_provider("protocol@1", Some(0x14)));
    assert!(!is_scmi_provider("protocol@14", None));
}

#[test]
fn clocks_are_switched_on_by_their_provider() {
    let mut provider = Node::new("protocol@14");
    provider.add_property(Property::new("reg", 0x14_u32.to_be_bytes().to_vec()));
    let clock = ScmiClockOps::from_ref(7, Some(&provider), &vec![42, 1]);

    assert_eq!(
        clock,
        Some(ScmiClockOps {
            phandle: 7,
            clock_id: 42
        })
    );
    assert_eq!(ScmiClockOps::from_ref(7, Some(&provider), &vec![]), None);
    assert_eq!(ScmiClockOps::from_ref(7, None, &vec![42]), None);
    assert_eq!(
        ScmiClockOps::from_ref(7, Some(&Node::new("cru")), &vec![42]),
        None
    );
    assert_eq!(plan_clock(Some(0), clock), ClockPlan::Skip);
    assert_eq!(plan_clock(Some(3), clock), ClockPlan::Scmi(clock.unwrap()));
    assert_eq!(plan_clock(None, None), ClockPlan::Line);
}

fn page() -> PteConfig {
    PteConfig {
        paddr: 0x1234_5678_9000,
        valid: true,
        read: true,
        writable: true,
        executable: false,
        lower: true,
        dirty: false,
        global: false,
        is_dir: false,
        huge: false,
        mem_attr: MemAttributes::Normal,
    }
}

#[test]
fn x64_entries_read_back() {
    let entry = X64Pte::from_config(page());
    assert_eq!(entry.raw, 0x8000_1234_5678_9007);
    assert_eq!(entry.to_config(false), page());
    assert!(entry.valid());

    let device = PteConfig {
        mem_attr: MemAttributes::Device,
        executable: true,
        huge: true,
        is_dir: true,
        ..page()
    };
    let entry = X64Pte::from_config(device);
    assert_eq!(entry.raw, 0x1234_5678_909f);
    assert_eq!(entry.to_config(true).mem_attr, MemAttributes::Uncached);
    assert!(entry.to_config(true).huge);

    let table = X64Pte::from_config(PteConfig {
        is_dir: true,
        ..page()
    });
    assert_eq!(table.raw, 0x1234_5678_9007);
    assert!(table.to_config(true).is_dir);
    let none = X64Pte::from_config(PteConfig {
        valid: false,
        ..page()
    });
    assert_eq!(none.raw, 0);
    assert!(!none.valid());
}

#[test]
fn rv_entries_read_back() {
    let entry = Rv64Pte::from_config(page(), RvVendor::Standard);
    assert_eq!(entry.raw, (0x1234_5678_9000 >> 2) | 0xd7);
    let read = entry.to_config(false);
    assert_eq!(
        read,
        PteConfig {
            dirty: true,
            ..page()
        }
    );
    let vendor = Rv64Pte::from_config(page(), RvVendor::XuantieC9xx);
    assert_eq!(vendor.raw ^ entry.raw, 0x7000_0000_0000_0000);
    assert_eq!(vendor.to_config(false), read);
    let device = Rv64Pte::from_config(
        PteConfig {
            mem_attr: MemAttributes::Device,
            ..page()
        },
        RvVendor::XuantieC9xx,
    );
    assert_eq!(device.raw ^ entry.raw, 0x9000_0000_0000_0000);

    let table = Rv64Pte::from_config(
        PteConfig {
            is_dir: true,
            ..page()
        },
        RvVendor::Standard,
    );
    assert_eq!(table.raw, (0x1234_5678_9000 >> 2) | 1);
    assert!(table.to_config(true).is_dir);
    assert!(!table.to_config(true).huge);
    assert!(table.valid());
}

#[test]
fn a64_descriptors_read_back() {
    let entry = A64Pte::from_config(page(), A64Regime::El1);
    assert_eq!(entry.raw, 0x0060_1234_5678_9747);
    let read = entry.to_config(false, A64Regime::El1);
    assert_eq!(
        read,
        PteConfig {
            dirty: true,
            global: true,
            mem_attr: MemAttributes::Device,
            ..page()
        }
    );
    let kernel = A64Pte::from_config(
        PteConfig {
            lower: false,
            executable: true,
            writable: false,
            ..page()
        },
        A64Regime::El1,
    );
    assert_eq!(kernel.raw, 0x0040_1234_5678_9787);
    assert!(kernel.to_config(false, A64Regime::El1).executable);
    assert!(!kernel.to_config(false, A64Regime::El1).writable);
    let hypervisor = A64Pte::from_config(page(), A64Regime::El2);
    assert_eq!(hypervisor.raw, 0x0040_1234_5678_9707);
    assert!(!hypervisor.to_config(false, A64Regime::El2).executable);
    let unreadable = A64Pte::from_config(
        PteConfig {
            read: false,
            ..page()
        },
        A64Regime::El1,
    );
    assert!(!unreadable.valid());
    let block = A64Pte::from_config(
        PteConfig {
            huge: true,
            is_dir: true,
            ..page()
        },
        A64Regime::El1,
    );
    assert!(block.to_config(true, A64Regime::El1).huge);
}

#[test]
fn la_entries_read_back() {
    let entry = La64Pte::from_config(page());
    assert_eq!(entry.raw, 0x4000_1234_5678_919e);
    assert_eq!(
        entry.to_config(false),
        PteConfig {
            dirty: true,
            global: true,
            ..page()
        }
    );
    let table = La64Pte::from_config(PteConfig {
        is_dir: true,
        ..page()
    });
    assert_eq!(table.raw, 0x1234_5678_9000);
    assert!(table.to_config(true).is_dir);
    assert!(table.to_config(true).valid);
    assert!(!table.to_config(false).valid);
    assert!(table.valid());
    for (mem_attr, bits) in [
        (MemAttributes::Device, 0u64),
        (MemAttributes::Uncached, 0x20),
        (MemAttributes::Normal, 0x10),
    ] {
        let entry = La64Pte::from_config(PteConfig { mem_attr, ..page() });
        assert_eq!(entry.raw & 0x30, bits);
        assert_eq!(entry.to_config(false).mem_attr, mem_attr);
    }
}

#[test]
fn page_tables_have_their_shape() {
    let riscv = ArchPagingMeta {
        arch: PagingArch::Rv64,
    };
    let arm = ArchPagingMeta {
        arch: PagingArch::A64,
    };
    assert_eq!(riscv.level_bits(), vec![9, 9, 9]);
    assert_eq!(arm.level_bits(), vec![9, 9, 9, 9]);
    assert_eq!(arm.page_size(), 4096);
    assert_eq!(arm.max_block_level(), 3);
    assert!(!arm.strict_address_width());
}

#[test]
fn guards_nest() {
    let mut cpu = LocalCpu::new(true, true);
    let outer = NoPreemptIrqSave::new(&mut cpu);
    assert!(!cpu.irqs_enabled);
    assert_eq!(cpu.preempt_depth, 1);
    let inner = NoPreempt::new(&mut cpu);
    assert_eq!(cpu.preempt_depth, 2);
    inner.end(&mut cpu);
    assert_eq!(cpu.last_exit, None);
    outer.end(&mut cpu);
    assert_eq!(
        cpu,
        LocalCpu {
            last_exit: Some(PreemptExit::Task),
            previous_step: Some(GuardStep::RestoreIrqs { state: 1 }),
            last_step: Some(GuardStep::EnablePreempt),
            ..LocalCpu::new(true, true)
        }
    );
}

#[test]
fn preemption_goes_off_before_interrupts_do() {
    let mut cpu = LocalCpu::new(true, true);
    let guard = NoPreemptIrqSave::new(&mut cpu);
    assert_eq!(cpu.previous_step, Some(GuardStep::DisablePreempt));
    assert_eq!(cpu.last_step, Some(GuardStep::DisableIrqs));
    guard.end(&mut cpu);
    assert_eq!(cpu.previous_step, Some(GuardStep::RestoreIrqs { state: 1 }));
    assert_eq!(cpu.last_step, Some(GuardStep::EnablePreempt));
}

#[test]
fn the_scheduler_is_put_off_while_interrupts_are_off() {
    let mut cpu = LocalCpu::new(true, true);
    let muted = IrqSave::new(&mut cpu);
    let guard = NoPreempt::new(&mut cpu);
    guard.end(&mut cpu);
    assert_eq!(cpu.last_exit, Some(PreemptExit::Deferred));
    muted.end(&mut cpu);
    assert!(cpu.irqs_enabled);
}

#[test]
fn an_interrupt_may_schedule_before_it_returns() {
    let mut cpu = LocalCpu::new(true, true);
    let mut muted = IrqSave::new(&mut cpu);
    let guard = muted.disable_preempt_for_irq_return(&mut cpu);
    guard.end(&mut cpu);
    assert_eq!(cpu.last_exit, Some(PreemptExit::IrqReturn));
    assert!(!cpu.irqs_enabled);
    muted.end(&mut cpu);
    assert!(cpu.irqs_enabled);
}

#[test]
fn a_kernel_without_preemption_counts_nothing() {
    let mut cpu = LocalCpu::new(false, false);
    let guard = NoPreempt::new(&mut cpu);
    assert_eq!(cpu, LocalCpu::new(false, false));
    guard.end(&mut cpu);
    assert_eq!(cpu, LocalCpu::new(false, false));
    let _ = NoOp::new();
    assert_eq!(IrqSave::acquire(&mut cpu), 0);
    IrqSave::release(&mut cpu, 1);
    assert!(cpu.irqs_enabled);
    cpu.disable_preempt();
    assert_eq!(cpu.preempt_depth, 1);
}

#[test]
fn locks_without_preemption_are_watched() {
    assert!(!NoOp::lockdep_enabled());
    assert!(!IrqSave::lockdep_enabled());
    assert!(NoPreempt::lockdep_enabled());
    assert!(NoPreemptIrqSave::lockdep_enabled());
}

#[test]
fn buffers_are_refused_by_name() {
    let heap = IonHeapManager::new();
    let region = DmaRegion {
        address: 0x8000,
        len: 64,
    };
    assert_eq!(
        heap.alloc_buffer(64, 16, IonHeapType::System, Ok(region)),
        Ok(IonBuffer { region, size: 64 })
    );
    assert_eq!(
        heap.alloc_buffer(0, 16, IonHeapType::Carveout, Ok(region)),
        Err(IonError::InvalidArg)
    );
    assert_eq!(
        heap.alloc_buffer(64, 16, IonHeapType::Carveout, Ok(region)),
        Err(IonError::NotSupported)
    );
    for align in [0, 3, 24] {
        assert_eq!(
            heap.check_request(64, align, IonHeapType::DmaCoherent),
            Err(IonError::InvalidArg)
        );
        assert!(!is_power_of_two(align));
    }
    assert_eq!(
        heap.check_request(isize::MAX as usize, 2, IonHeapType::System),
        Err(IonError::InvalidArg)
    );
    assert_eq!(
        heap.check_request(isize::MAX as usize, 1, IonHeapType::System),
        Ok(())
    );
    assert!(is_power_of_two(4096));
    assert_eq!(
        heap.alloc_buffer(64, 16, IonHeapType::DmaCoherent, Err(DmaFailure::Layout)),
        Err(IonError::InvalidArg)
    );
    assert_eq!(
        heap.alloc_buffer(64, 16, IonHeapType::DmaCoherent, Err(DmaFailure::Other)),
        Err(IonError::NoMemory)
    );
}

#[test]
fn a_layout_is_what_the_allocator_takes() {
    for (size, align) in [
        (64, 16),
        (64, 24),
        (1, 0),
        (isize::MAX as usize, 1),
        (isize::MAX as usize, 2),
        (isize::MAX as usize - 4095, 4096),
        (isize::MAX as usize - 4094, 4096),
    ] {
        assert_eq!(
            IonHeapManager::new()
                .check_request(size, align, IonHeapType::System)
                .is_ok(),
            std::alloc::Layout::from_size_align(size, align).is_ok()
        );
    }
}

#[test]
fn kernels_are_loaded_up_to_a_size() {
    assert_eq!(checked_kernel_size(0), Err(KernelLoadError::ZeroSize));
    assert_eq!(checked_kernel_size(1), Ok(1));
    assert_eq!(checked_kernel_size(256 * 1024 * 1024), Ok(268_435_456));
    assert_eq!(
        checked_kernel_size(256 * 1024 * 1024 + 1),
        Err(KernelLoadError::SizeTooLarge)
    );
}

#[test]
fn a_kernel_is_put_together_from_its_parts() {
    let replies = vec![
        Ok(vec![3, 4]),
        Err(DownloadError::ResponseFailed),
        Ok(vec![5]),
    ];
    assert_eq!(
        download_sized_body(5, true, &vec![1, 2], &replies),
        Ok(vec![1, 2, 3, 4, 5])
    );
    assert_eq!(
        download_sized_body(2, true, &vec![1, 2], &replies),
        Ok(vec![1, 2])
    );
}

#[test]
fn downloads_fail_by_name() {
    let none = Vec::new();
    assert_eq!(
        download_sized_body(0, true, &vec![], &none),
        Err(KernelLoadError::ZeroSize)
    );
    assert_eq!(
        download_sized_body(4, false, &vec![1], &none),
        Err(KernelLoadError::Download(DownloadError::UnexpectedStatus))
    );
    assert_eq!(
        download_sized_body(1, true, &vec![1, 2], &none),
        Err(KernelLoadError::Download(DownloadError::BodyTooLarge))
    );
    assert_eq!(
        download_sized_body(3, true, &vec![1, 2], &vec![Ok(vec![3, 4])]),
        Err(KernelLoadError::Download(DownloadError::BodyTooLarge))
    );
    assert_eq!(
        download_sized_body(3, true, &vec![1, 2], &vec![Ok(vec![])]),
        Err(KernelLoadError::Download(DownloadError::ResponseFailed))
    );
    let mut failing: Vec<Result<Vec<u8>, DownloadError>> = Vec::new();
    for _ in 0..7 {
        failing.push(Err(DownloadError::RequestFailed));
    }
    let mut recovering = failing.clone();
    recovering.push(Ok(vec![3]));
    assert_eq!(
        download_sized_body(3, true, &vec![1, 2], &recovering),
        Ok(vec![1, 2, 3])
    );
    failing.push(Err(DownloadError::ConfigureFailed));
    failing.push(Ok(vec![3]));
    assert_eq!(
        download_sized_body(3, true, &vec![1, 2], &failing),
        Err(KernelLoadError::Download(DownloadError::ConfigureFailed))
    );
}

#[test]
fn a_download_goes_step_by_step() {
    let mut download = Download::new(3);
    assert_eq!(download.first(true, &vec![7]), DownloadStep::Receive);
    assert_eq!(
        download.part_failed(DownloadError::ResponseFailed),
        DownloadStep::Pause
    );
    assert_eq!(download.part(&vec![8, 9]), DownloadStep::Done);
    assert_eq!(download.body, vec![7, 8, 9]);

    let mut body = vec![1];
    assert_eq!(append_download_chunk(&mut body, 3, &vec![2, 3]), Ok(3));
    assert_eq!(
        append_download_chunk(&mut body, 3, &vec![4]),
        Err(DownloadError::BodyTooLarge)
    );
    assert_eq!(body, vec![1, 2, 3]);

    let mut retry = HttpRetry::new();
    for _ in 0..7 {
        assert_eq!(retry.failed(DownloadError::ResponseFailed), RetryStep::Again);
    }
    assert_eq!(
        retry.failed(DownloadError::RequestFailed),
        RetryStep::GiveUp(DownloadError::RequestFailed)
    );
}

#[test]
fn progress_is_shown_once_per_step() {
    assert_eq!(download_percent(1, 0), 0);
    assert_eq!(download_percent(1, 3), 33);
    assert_eq!(human_size(1023), HumanSize::Bytes(1023));
    assert_eq!(
        human_size(1536),
        HumanSize::Kib {
            whole: 1,
            hundredths: 50
        }
    );
    assert_eq!(
        human_size(3 * 1024 * 1024 + 10_486),
        HumanSize::Mib {
            whole: 3,
            hundredths: 1
        }
    );
    let mut progress = DownloadProgress::new(200);
    assert_eq!(progress.maybe_line(1), None);
    let line = progress.maybe_line(100).unwrap();
    assert_eq!((line.percent, line.filled), (50, 25));
    assert_eq!(progress.next_percent, 51);
    assert_eq!(progress.maybe_line(101), None);
    assert_eq!(progress.maybe_line(200).unwrap().filled, 50);
}

#[test]
fn the_first_card_that_can_be_configured_is_used() {
    let mut search = BindingSearch::new();
    assert_eq!(search.result, Err(DownloadError::NoHttpBinding));
    search.note(BindingOutcome::ConfigureFailed);
    assert_eq!(search.result, Err(DownloadError::ConfigureFailed));
    search.note(BindingOutcome::OpenFailed);
    assert_eq!(search.result, Err(DownloadError::HttpUnavailable));
    search.note(BindingOutcome::Configured);
    search.note(BindingOutcome::Configured);
    assert_eq!(search.result, Ok(2));
}
