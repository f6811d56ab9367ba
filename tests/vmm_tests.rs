use firecracker::block::{BlockDeviceConfig, DriveError};
use firecracker::logger_api::{APILoggerDescription, APILoggerError, APILoggerLevel, Level};
use firecracker::machine_config::{
    CpuFeaturesTemplate, MachineConfiguration, PutMachineConfigurationError,
};
use firecracker::net::{DeviceState, MacAddr, NetworkInterfaceBody, NetworkInterfaceError};
use firecracker::vmm::{
    BootSourceBody, BootSourceConfigError, ErrorType, HostChecks, InstanceState, InternalError,
    LocalImage, UserError, Vmm, VmmAction, VmmError, VmmResponse,
};

#[derive(Debug)]
struct DummyEpollHandler {
    evt: Option<u16>,
}

fn create_vmm_object(state: InstanceState) -> Vmm<DummyEpollHandler> {
    let mut vmm = Vmm::new("TEST_ID".to_string(), 2);
    vmm.set_instance_state(state);
    vmm
}

fn default_kernel_config(vmm: &mut Vmm<DummyEpollHandler>) {
    let state = vmm.instance_state();
    vmm.set_instance_state(InstanceState::Uninitialized);
    assert!(vmm.configure_boot_source(true, None).is_ok());
    vmm.set_instance_state(state);
}

fn drive(id: &str, path: &str, root: bool, partuuid: Option<&str>, ro: bool) -> BlockDeviceConfig {
    BlockDeviceConfig {
        drive_id: String::from(id),
        path_on_host: String::from(path),
        is_root_device: root,
        partuuid: partuuid.map(|p| p.to_string()),
        is_read_only: ro,
        rate_limiter: None,
    }
}

fn netif(id: &str, host: &str, mac: Option<MacAddr>) -> NetworkInterfaceBody {
    NetworkInterfaceBody {
        iface_id: String::from(id),
        state: DeviceState::Attached,
        host_dev_name: String::from(host),
        guest_mac: mac,
        rx_rate_limiter: None,
        tx_rate_limiter: None,
        allow_mmds_requests: false,
    }
}

fn host() -> HostChecks {
    HostChecks { kernel_file_opened: true, path_exists: true, file_opened: true, tap_opened: true }
}

#[test]
fn test_put_block_device() {
    let mut vmm = create_vmm_object(InstanceState::Uninitialized);
    let root_block_device = drive("root", "/tmp/block_file", true, None, false);
    assert!(vmm.insert_block_device(root_block_device.clone(), true).is_ok());
    assert!(vmm.block_device_configs().config_list().contains(&root_block_device));

    let root_block_device = drive("root", "/tmp/block_file", true, None, true);
    assert!(vmm.insert_block_device(root_block_device.clone(), true).is_ok());
    assert!(vmm.block_device_configs().config_list().contains(&root_block_device));
}

#[test]
fn test_put_net_device() {
    let mut vmm = create_vmm_object(InstanceState::Uninitialized);
    assert!(vmm.insert_net_device(netif("netif", "hostname", None), true).is_ok());
    let mac = MacAddr { value: 0x0123_4567_890A };
    assert!(vmm.insert_net_device(netif("netif", "hostname2", Some(mac)), true).is_ok());
    assert_eq!(vmm.network_interface_configs().len(), 1);
}

#[test]
fn test_machine_configuration() {
    let mut vmm = create_vmm_object(InstanceState::Uninitialized);

    assert_eq!(vmm.vm_config().vcpu_count, Some(1));
    assert_eq!(vmm.vm_config().mem_size_mib, Some(128));
    assert_eq!(vmm.vm_config().ht_enabled, Some(false));
    assert!(vmm.vm_config().cpu_template.is_none());

    let machine_config = MachineConfiguration {
        vcpu_count: Some(3),
        mem_size_mib: None,
        ht_enabled: None,
        cpu_template: None,
    };
    assert!(vmm.set_vm_configuration(machine_config).is_ok());
    assert_eq!(vmm.vm_config().vcpu_count, Some(3));
    assert_eq!(vmm.vm_config().mem_size_mib, Some(128));
    assert_eq!(vmm.vm_config().ht_enabled, Some(false));

    let machine_config = MachineConfiguration {
        vcpu_count: None,
        mem_size_mib: Some(256),
        ht_enabled: None,
        cpu_template: None,
    };
    assert!(vmm.set_vm_configuration(machine_config).is_ok());
    assert_eq!(vmm.vm_config().vcpu_count, Some(3));
    assert_eq!(vmm.vm_config().mem_size_mib, Some(256));
    assert_eq!(vmm.vm_config().ht_enabled, Some(false));

    let machine_config = MachineConfiguration {
        vcpu_count: Some(0),
        mem_size_mib: None,
        ht_enabled: None,
        cpu_template: None,
    };
    assert_eq!(
        vmm.set_vm_configuration(machine_config).unwrap_err(),
        PutMachineConfigurationError::InvalidVcpuCount
    );
    assert_eq!(vmm.vm_config().vcpu_count, Some(3));

    let machine_config = MachineConfiguration {
        vcpu_count: Some(1),
        mem_size_mib: Some(0),
        ht_enabled: Some(false),
        cpu_template: Some(CpuFeaturesTemplate::T2),
    };
    assert_eq!(
        vmm.set_vm_configuration(machine_config).unwrap_err(),
        PutMachineConfigurationError::InvalidMemorySize
    );
    assert_eq!(vmm.vm_config().vcpu_count, Some(3));
    assert_eq!(vmm.vm_config().mem_size_mib, Some(256));
    assert_eq!(vmm.vm_config().ht_enabled, Some(false));
    assert!(vmm.vm_config().cpu_template.is_none());

    let machine_config = MachineConfiguration {
        vcpu_count: None,
        mem_size_mib: None,
        ht_enabled: Some(true),
        cpu_template: None,
    };
    assert_eq!(
        vmm.set_vm_configuration(machine_config).unwrap_err(),
        PutMachineConfigurationError::InvalidVcpuCount
    );
    assert_eq!(vmm.vm_config().ht_enabled, Some(false));

    let machine_config = MachineConfiguration {
        vcpu_count: Some(2),
        mem_size_mib: None,
        ht_enabled: Some(true),
        cpu_template: Some(CpuFeaturesTemplate::T2),
    };
    assert!(vmm.set_vm_configuration(machine_config).is_ok());
    assert_eq!(vmm.vm_config().vcpu_count, Some(2));
    assert_eq!(vmm.vm_config().ht_enabled, Some(true));
    assert_eq!(vmm.vm_config().cpu_template, Some(CpuFeaturesTemplate::T2));
}

#[test]
fn test_check_health() {
    let mut vmm = create_vmm_object(InstanceState::Uninitialized);
    assert!(vmm.check_health().is_err());
    default_kernel_config(&mut vmm);
    assert!(vmm.check_health().is_ok());
}

#[test]
fn test_is_instance_initialized() {
    let vmm = create_vmm_object(InstanceState::Uninitialized);
    assert_eq!(vmm.is_instance_initialized(), false);
    let vmm = create_vmm_object(InstanceState::Starting);
    assert_eq!(vmm.is_instance_initialized(), true);
    let vmm = create_vmm_object(InstanceState::Halting);
    assert_eq!(vmm.is_instance_initialized(), true);
    let vmm = create_vmm_object(InstanceState::Halted);
    assert_eq!(vmm.is_instance_initialized(), true);
    let vmm = create_vmm_object(InstanceState::Running);
    assert_eq!(vmm.is_instance_initialized(), true);
}

#[test]
fn test_attach_block_devices() {
    // Root drive without PARTUUID.
    let mut vmm = create_vmm_object(InstanceState::Uninitialized);
    let root_block_device = drive("root", "/tmp/block_file", true, None, false);
    assert!(vmm.insert_block_device(root_block_device.clone(), true).is_ok());
    default_kernel_config(&mut vmm);
    assert!(vmm.attach_block_devices().is_ok());
    assert!(vmm.get_kernel_cmdline_str().contains("root=/dev/vda"));

    // Root drive with PARTUUID.
    let mut vmm = create_vmm_object(InstanceState::Uninitialized);
    let root_block_device = drive("root", "/tmp/block_file", true, Some("0eaa91a0-01"), false);
    assert!(vmm.insert_block_device(root_block_device.clone(), true).is_ok());
    default_kernel_config(&mut vmm);
    assert!(vmm.attach_block_devices().is_ok());
    assert!(vmm.get_kernel_cmdline_str().contains("root=PARTUUID=0eaa91a0-01"));

    // No root drive.
    let mut vmm = create_vmm_object(InstanceState::Uninitialized);
    let non_root_block_device =
        drive("not_root", "/tmp/block_file", false, Some("0eaa91a0-01"), false);
    assert!(vmm.insert_block_device(non_root_block_device.clone(), true).is_ok());
    default_kernel_config(&mut vmm);
    assert!(vmm.attach_block_devices().is_ok());
    assert!(!vmm.get_kernel_cmdline_str().contains("root=PARTUUID="));
    assert!(!vmm.get_kernel_cmdline_str().contains("root=/dev/vda"));
    assert!(vmm.drive_device_index(&non_root_block_device.drive_id).is_some());

    // Pointing the drive at another file.
    assert!(vmm
        .set_block_device_path("not_root", String::from("/tmp/new_block"), true, true)
        .is_ok());
}

#[test]
fn test_attach_net_devices() {
    let mut vmm = create_vmm_object(InstanceState::Uninitialized);
    default_kernel_config(&mut vmm);
    assert!(vmm.insert_net_device(netif("netif", "hostname3", None), true).is_ok());
    assert!(vmm.attach_net_devices().is_ok());
    // The TAP device was taken by the first attach.
    assert!(vmm.attach_net_devices().is_err());
}

#[test]
fn test_init_devices() {
    let mut vmm = create_vmm_object(InstanceState::Uninitialized);
    default_kernel_config(&mut vmm);
    assert!(vmm.init_devices().is_ok());
}

#[test]
fn test_rescan() {
    let mut vmm = create_vmm_object(InstanceState::Uninitialized);
    default_kernel_config(&mut vmm);
    let root_block_device = drive("root", "/tmp/root_file", true, None, false);
    let non_root_block_device = drive("not_root", "/tmp/scratch_file", false, None, true);
    assert!(vmm.insert_block_device(root_block_device.clone(), true).is_ok());
    assert!(vmm.insert_block_device(non_root_block_device.clone(), true).is_ok());

    vmm.set_mmio_address(String::from("not_root"), 0xd000_0000);
    vmm.set_instance_state(InstanceState::Running);

    assert!(vmm.rescan_block_device("not_root").is_ok());
    assert!(vmm.rescan_block_device("foo").is_err());
    vmm.remove_mmio_address("not_root");
    assert!(vmm.rescan_block_device("not_root").is_err());

    let mut vmm = create_vmm_object(InstanceState::Uninitialized);
    assert!(vmm.insert_block_device(non_root_block_device.clone(), true).is_ok());
    assert_eq!(
        vmm.rescan_block_device("not_root").unwrap_err(),
        DriveError::OperationNotAllowedPreBoot
    );
}

#[test]
fn test_init_logger_from_api() {
    let desc = APILoggerDescription {
        log_fifo: String::from("log"),
        metrics_fifo: String::from("metrics"),
        level: Some(APILoggerLevel::Warning),
        show_level: Some(true),
        show_log_origin: Some(true),
    };
    let mut vmm = create_vmm_object(InstanceState::Running);
    assert!(vmm.init_logger(desc.clone()).is_err());

    vmm.set_instance_state(InstanceState::Uninitialized);
    let settings = vmm.init_logger(desc).unwrap();
    assert_eq!(settings.level, Some(Level::Warn));
    assert_eq!(settings.include_level, Some(true));
    assert_eq!(settings.include_origin, Some(true));
    assert_eq!(settings.instance_id, "TEST_ID");
    assert_eq!(settings.log_fifo, "log");
    assert_eq!(settings.metrics_fifo, "metrics");
}

#[test]
fn test_generate_response_logger_error() {
    let e = APILoggerError::InitializationFailure("Could not initialize log system".to_string());
    let response = e.generate_response();
    assert_eq!(response.status, 400);
    assert_eq!(
        response.fault_message,
        "Cannot initialize logging system! Could not initialize log system"
    );
    assert!(format!("{:?}", e).contains("InitializationFailure"));
}

#[test]
fn test_into_parsed_request() {
    let desc = APILoggerDescription {
        log_fifo: String::from("log"),
        metrics_fifo: String::from("metrics"),
        level: None,
        show_level: None,
        show_log_origin: None,
    };
    format!("{:?}", desc);
    assert!(desc.clone().into_parsed_request().is_ok());
    match desc.clone().into_parsed_request() {
        Ok(VmmAction::ConfigureLogger(d)) => {
            assert_eq!(d.log_fifo, desc.log_fifo);
            assert_eq!(d.metrics_fifo, desc.metrics_fifo);
        }
        _ => panic!("not a logger request"),
    }
}

#[test]
fn default_machine_config_of_fresh_instance() {
    let vmm = create_vmm_object(InstanceState::Uninitialized);
    let c = vmm.vm_config();
    assert_eq!(c.vcpu_count, Some(1));
    assert_eq!(c.mem_size_mib, Some(128));
    assert_eq!(c.ht_enabled, Some(false));
    assert_eq!(c.cpu_template, None);
}

#[test]
fn zero_vcpus_refused_and_config_kept() {
    let mut vmm = create_vmm_object(InstanceState::Uninitialized);
    let before = vmm.vm_config();
    let req = MachineConfiguration { vcpu_count: Some(0), mem_size_mib: None, ht_enabled: None, cpu_template: None };
    assert_eq!(vmm.set_vm_configuration(req), Err(PutMachineConfigurationError::InvalidVcpuCount));
    assert_eq!(vmm.vm_config(), before);
}

#[test]
fn ht_on_odd_vcpus_refused() {
    let mut vmm = create_vmm_object(InstanceState::Uninitialized);
    let req = MachineConfiguration { vcpu_count: Some(3), mem_size_mib: None, ht_enabled: None, cpu_template: None };
    assert!(vmm.set_vm_configuration(req).is_ok());
    let req = MachineConfiguration { vcpu_count: None, mem_size_mib: None, ht_enabled: Some(true), cpu_template: None };
    assert_eq!(vmm.set_vm_configuration(req), Err(PutMachineConfigurationError::InvalidVcpuCount));
    assert_eq!(vmm.vm_config().ht_enabled, Some(false));
    // One vCPU is allowed with hyperthreading.
    let req = MachineConfiguration { vcpu_count: Some(1), mem_size_mib: None, ht_enabled: Some(true), cpu_template: None };
    assert!(vmm.set_vm_configuration(req).is_ok());
    assert_eq!(vmm.vm_config().ht_enabled, Some(true));
    // Going to three vCPUs with hyperthreading on is refused.
    let req = MachineConfiguration { vcpu_count: Some(3), mem_size_mib: None, ht_enabled: None, cpu_template: None };
    assert_eq!(vmm.set_vm_configuration(req), Err(PutMachineConfigurationError::InvalidVcpuCount));
    assert_eq!(vmm.vm_config().vcpu_count, Some(1));
}

#[test]
fn machine_config_refused_after_boot() {
    let mut vmm = create_vmm_object(InstanceState::Running);
    let req = MachineConfiguration { vcpu_count: Some(2), mem_size_mib: None, ht_enabled: None, cpu_template: None };
    assert_eq!(
        vmm.set_vm_configuration(req),
        Err(PutMachineConfigurationError::UpdateNotAllowPostBoot)
    );
}

#[test]
fn root_with_partuuid_after_start() {
    let mut vmm = create_vmm_object(InstanceState::Uninitialized);
    default_kernel_config(&mut vmm);
    let root = drive("root", "/tmp/root_file", true, Some("0eaa91a0-01"), false);
    assert!(vmm.insert_block_device(root, true).is_ok());
    let plan = vmm.start_instance();
    assert!(plan.is_ok());
    let line = vmm.get_kernel_cmdline_str().to_string();
    assert!(line.contains("root=PARTUUID=0eaa91a0-01"));
    assert!(!line.contains("root=/dev/vda"));
    assert_eq!(vmm.instance_state(), InstanceState::Starting);
    assert!(vmm.finish_start(true).is_ok());
    assert_eq!(vmm.instance_state(), InstanceState::Running);
}

#[test]
fn finish_start_outcomes() {
    let mut vmm = create_vmm_object(InstanceState::Uninitialized);
    assert_eq!(
        vmm.finish_start(true),
        Err(VmmError::Internal(InternalError::BootNotInProgress))
    );
    default_kernel_config(&mut vmm);
    assert!(vmm.start_instance().is_ok());
    assert_eq!(vmm.finish_start(false), Err(VmmError::Internal(InternalError::GuestBootFailed)));
    assert_eq!(vmm.instance_state(), InstanceState::Starting);
    assert_eq!(vmm.finish_start(true), Ok(()));
    assert_eq!(vmm.instance_state(), InstanceState::Running);
}

#[test]
fn stop_empties_exit_and_stdin_slots() {
    let mut vmm = create_vmm_object(InstanceState::Uninitialized);
    assert_eq!(vmm.stop(), None);
    default_kernel_config(&mut vmm);
    let plan = vmm.start_instance().unwrap();
    let exit = plan.exit_dispatch_index;
    assert_eq!(vmm.epoll_context().dispatch(exit), Some(firecracker::dispatch::EpollDispatch::Exit));
    vmm.enable_stdin_event(true);
    let stdin = vmm.epoll_context().stdin_index();
    assert_eq!(vmm.epoll_context().dispatch(stdin), Some(firecracker::dispatch::EpollDispatch::Stdin));
    assert_eq!(vmm.stop(), Some(exit));
    assert_eq!(vmm.epoll_context().dispatch(exit), None);
    assert_eq!(vmm.epoll_context().dispatch(stdin), None);
    assert_eq!(vmm.stop(), None);
}

#[test]
fn drive_path_after_boot() {
    let mut vmm = create_vmm_object(InstanceState::Uninitialized);
    default_kernel_config(&mut vmm);
    assert!(vmm.insert_block_device(drive("data", "/tmp/d", false, None, false), true).is_ok());
    assert!(vmm.insert_block_device(drive("late", "/tmp/l", false, None, false), true).is_ok());
    let plan = vmm.start_instance().unwrap();
    assert!(vmm.finish_start(true).is_ok());
    vmm.set_mmio_address(String::from("data"), 0xd000_0000);
    // No handler sent yet for the device.
    assert_eq!(
        vmm.set_block_device_path("data", String::from("/tmp/d2"), true, true).err(),
        Some(DriveError::BlockDeviceUpdateFailed)
    );
    assert!(plan.blocks[0].sender.send(DummyEpollHandler { evt: None }).is_ok());
    match vmm.set_block_device_path("data", String::from("/tmp/d3"), true, true) {
        Ok(Some(u)) => {
            assert_eq!(u.device_idx, 0);
            assert_eq!(u.rescan.address, 0xd000_0000);
            assert_eq!(u.rescan.path_on_host, "/tmp/d3");
        }
        other => panic!("{:?}", other.err()),
    }
    // The handler is installed, but the drive has no MMIO address.
    assert!(plan.blocks[1].sender.send(DummyEpollHandler { evt: Some(1) }).is_ok());
    assert_eq!(
        vmm.set_block_device_path("late", String::from("/tmp/l2"), true, true).err(),
        Some(DriveError::InvalidBlockDeviceID)
    );
}

#[test]
fn start_request_reports_the_error() {
    let mut vmm = create_vmm_object(InstanceState::Uninitialized);
    match vmm.run_vmm_action(VmmAction::StartMicroVm, host()) {
        VmmResponse::Start(Err(f)) => {
            assert_eq!(f.kind, ErrorType::UserError);
            assert_eq!(f.error, VmmError::User(UserError::MissingKernelConfig));
        }
        _ => panic!("start without a kernel accepted"),
    }
    let body = BootSourceBody { local_image: None, boot_args: None };
    assert!(matches!(
        vmm.run_vmm_action(VmmAction::ConfigureBootSource(body), host()),
        VmmResponse::BootSource(Err(BootSourceConfigError::EmptyKernelPath))
    ));
    let body = BootSourceBody {
        local_image: Some(LocalImage { kernel_image_path: String::from("/k") }),
        boot_args: Some(String::from("console=ttyS0")),
    };
    assert!(matches!(
        vmm.run_vmm_action(VmmAction::ConfigureBootSource(body), host()),
        VmmResponse::BootSource(Ok(()))
    ));
    assert_eq!(vmm.get_kernel_cmdline_str(), "console=ttyS0");
    assert!(matches!(vmm.run_vmm_action(VmmAction::StartMicroVm, host()), VmmResponse::Start(Ok(_))));
}

#[test]
fn root_cmdline_exact_text() {
    let mut vmm = create_vmm_object(InstanceState::Uninitialized);
    assert!(vmm.configure_boot_source(true, Some(String::from("console=ttyS0"))).is_ok());
    let root = drive("root", "/tmp/root_file", true, None, true);
    assert!(vmm.insert_block_device(root, true).is_ok());
    assert!(vmm.start_instance().is_ok());
    assert_eq!(vmm.get_kernel_cmdline_str(), "console=ttyS0  root=/dev/vda  ro");
}

#[test]
fn no_root_no_root_argument() {
    let mut vmm = create_vmm_object(InstanceState::Uninitialized);
    default_kernel_config(&mut vmm);
    let d = drive("data", "/tmp/data", false, None, false);
    assert!(vmm.insert_block_device(d, true).is_ok());
    assert!(vmm.start_instance().is_ok());
    assert!(!vmm.get_kernel_cmdline_str().contains("root="));
}

#[test]
fn start_plan_tokens() {
    let mut vmm = create_vmm_object(InstanceState::Uninitialized);
    default_kernel_config(&mut vmm);
    assert!(vmm.insert_block_device(drive("root", "/tmp/a", true, None, false), true).is_ok());
    assert!(vmm.insert_block_device(drive("data", "/tmp/b", false, None, false), true).is_ok());
    assert!(vmm.insert_net_device(netif("eth0", "tap0", None), true).is_ok());
    let plan = vmm.start_instance().unwrap();
    assert_eq!(plan.blocks.len(), 2);
    assert_eq!(plan.blocks[0].dispatch_base, 3);
    assert_eq!(plan.blocks[1].dispatch_base, 5);
    assert_eq!(plan.nets.len(), 1);
    assert_eq!(plan.nets[0].dispatch_base, 7);
    assert_eq!(plan.nets[0].device_idx, 2);
    assert_eq!(plan.exit_dispatch_index, 12);
    assert_eq!(vmm.drive_device_index("root"), Some(0));
    assert_eq!(vmm.drive_device_index("data"), Some(1));
}

#[test]
fn start_twice_and_without_kernel() {
    let mut vmm = create_vmm_object(InstanceState::Uninitialized);
    assert_eq!(vmm.start_instance().err(), Some(VmmError::User(UserError::MissingKernelConfig)));
    default_kernel_config(&mut vmm);
    assert!(vmm.start_instance().is_ok());
    assert_eq!(vmm.start_instance().err(), Some(VmmError::User(UserError::MicroVMAlreadyRunning)));
}

#[test]
fn start_fails_when_tap_already_taken() {
    let mut vmm = create_vmm_object(InstanceState::Uninitialized);
    default_kernel_config(&mut vmm);
    assert!(vmm.insert_net_device(netif("eth0", "tap0", None), true).is_ok());
    assert!(vmm.attach_net_devices().is_ok());
    assert_eq!(
        vmm.start_instance().err(),
        Some(VmmError::Internal(InternalError::NetDeviceUnconfigured))
    );
}

#[test]
fn rescan_lifecycle() {
    let mut vmm = create_vmm_object(InstanceState::Uninitialized);
    assert!(vmm.insert_block_device(drive("not_root", "/tmp/s", false, None, false), true).is_ok());
    assert_eq!(vmm.rescan_block_device("not_root").err(), Some(DriveError::OperationNotAllowedPreBoot));
    vmm.set_mmio_address(String::from("not_root"), 0xd000_1000);
    vmm.set_instance_state(InstanceState::Running);
    let t = vmm.rescan_block_device("not_root").unwrap();
    assert_eq!(t.address, 0xd000_1000);
    assert_eq!(t.path_on_host, "/tmp/s");
    assert_eq!(vmm.rescan_block_device("unknown").err(), Some(DriveError::InvalidBlockDeviceID));
    // An address without a drive configuration.
    vmm.set_mmio_address(String::from("ghost"), 0xd000_2000);
    assert_eq!(vmm.rescan_block_device("ghost").err(), Some(DriveError::BlockDeviceUpdateFailed));
}

#[test]
fn logger_after_boot_message() {
    let vmm = create_vmm_object(InstanceState::Running);
    let desc = APILoggerDescription {
        log_fifo: String::from("l"),
        metrics_fifo: String::from("m"),
        level: None,
        show_level: None,
        show_log_origin: None,
    };
    match vmm.init_logger(desc) {
        Err(APILoggerError::InitializationFailure(m)) => {
            assert_eq!(m, "Cannot initialize logger after boot.")
        }
        _ => panic!("logger accepted after boot"),
    }
}

#[test]
fn logger_request_keeps_machine_config() {
    let mut vmm = create_vmm_object(InstanceState::Uninitialized);
    let req = MachineConfiguration { vcpu_count: Some(4), mem_size_mib: Some(512), ht_enabled: Some(true), cpu_template: Some(CpuFeaturesTemplate::C3) };
    assert!(vmm.set_vm_configuration(req).is_ok());
    let desc = APILoggerDescription {
        log_fifo: String::from("l"),
        metrics_fifo: String::from("m"),
        level: Some(APILoggerLevel::Debug),
        show_level: None,
        show_log_origin: None,
    };
    assert!(matches!(vmm.run_vmm_action(VmmAction::ConfigureLogger(desc), host()), VmmResponse::Logger(Ok(_))));
    match vmm.run_vmm_action(VmmAction::GetMachineConfiguration, host()) {
        VmmResponse::MachineConfiguration(c) => assert_eq!(c, req),
        _ => panic!("wrong response"),
    }
}

#[test]
fn insert_same_drive_twice() {
    let mut vmm = create_vmm_object(InstanceState::Uninitialized);
    let d = drive("data", "/tmp/data", false, None, false);
    assert!(vmm.insert_block_device(d.clone(), true).is_ok());
    assert!(vmm.insert_block_device(d.clone(), true).is_ok());
    assert_eq!(vmm.block_device_configs().len(), 1);
    assert_eq!(vmm.block_device_configs().config_list()[0], d);
}

#[test]
fn second_root_refused_and_root_stays_first() {
    let mut vmm = create_vmm_object(InstanceState::Uninitialized);
    assert!(vmm.insert_block_device(drive("a", "/tmp/a", false, None, false), true).is_ok());
    assert!(vmm.insert_block_device(drive("root", "/tmp/r", true, None, false), true).is_ok());
    assert_eq!(vmm.block_device_configs().config_list()[0].drive_id, "root");
    assert_eq!(
        vmm.insert_block_device(drive("root2", "/tmp/r2", true, None, false), true),
        Err(DriveError::RootBlockDeviceAlreadyAdded)
    );
    // Making "a" root while "root" is root is refused too.
    assert_eq!(
        vmm.insert_block_device(drive("a", "/tmp/a", true, None, false), true),
        Err(DriveError::RootBlockDeviceAlreadyAdded)
    );
    // Demote "root", then promote "a": "a" moves first.
    assert!(vmm.insert_block_device(drive("root", "/tmp/r", false, None, false), true).is_ok());
    assert!(vmm.insert_block_device(drive("a", "/tmp/a", true, None, false), true).is_ok());
    let list = vmm.block_device_configs().config_list();
    assert_eq!(list[0].drive_id, "a");
    assert!(list[0].is_root_device);
    assert_eq!(list[1].drive_id, "root");
    assert!(!list[1].is_root_device);
}

#[test]
fn drive_errors() {
    let mut vmm = create_vmm_object(InstanceState::Uninitialized);
    assert_eq!(
        vmm.insert_block_device(drive("a", "/tmp/a", false, None, false), false),
        Err(DriveError::InvalidBlockDevicePath)
    );
    assert!(vmm.insert_block_device(drive("a", "/tmp/a", false, None, false), true).is_ok());
    assert_eq!(
        vmm.insert_block_device(drive("b", "/tmp/a", false, None, false), true),
        Err(DriveError::BlockDevicePathAlreadyExists)
    );
    assert_eq!(
        vmm.set_block_device_path("zzz", String::from("/tmp/x"), true, true).err(),
        Some(DriveError::InvalidBlockDeviceID)
    );
    assert_eq!(
        vmm.set_block_device_path("a", String::from("/tmp/x"), false, true).err(),
        Some(DriveError::CannotOpenBlockDevice)
    );
    assert_eq!(
        vmm.set_block_device_path("a", String::from("/tmp/x"), true, false).err(),
        Some(DriveError::InvalidBlockDevicePath)
    );
    assert!(matches!(vmm.set_block_device_path("a", String::from("/tmp/x"), true, true), Ok(None)));
    assert_eq!(vmm.block_device_configs().config_list()[0].path_on_host, "/tmp/x");
    let mut vmm = create_vmm_object(InstanceState::Running);
    assert_eq!(
        vmm.insert_block_device(drive("a", "/tmp/a", false, None, false), true),
        Err(DriveError::UpdateNotAllowedPostBoot)
    );
}
