use firecracker::cmdline::{Cmdline, CmdlineError};
use firecracker::net::{DeviceState, MacAddr, NetworkInterfaceBody, NetworkInterfaceConfigs, NetworkInterfaceError};
use firecracker::vcpu::{boot_time, vcpu_action, VcpuAction, VcpuExit, VcpuRunResult};

#[test]
fn cmdline_insert() {
    let mut c = Cmdline::new(20);
    assert_eq!(c.insert_str("a=b"), Ok(()));
    assert_eq!(c.insert_str("cd"), Ok(()));
    assert_eq!(c.as_str(), "a=b cd");
    assert_eq!(c.insert_str("é"), Err(CmdlineError::InvalidAscii));
    assert_eq!(c.insert_str("0123456789012"), Err(CmdlineError::TooLarge));
    assert_eq!(c.insert_str("012345678901"), Ok(()));
    assert_eq!(c.as_str().len(), 19);
}

#[test]
fn vcpu_exit_policy() {
    assert_eq!(vcpu_action(VcpuRunResult::Exit(VcpuExit::IoOut(0x3f0, Some(123)))), VcpuAction::WriteIoBus(0x3f0, true));
    assert_eq!(vcpu_action(VcpuRunResult::Exit(VcpuExit::IoOut(0x3f0, Some(1)))), VcpuAction::WriteIoBus(0x3f0, false));
    assert_eq!(vcpu_action(VcpuRunResult::Exit(VcpuExit::IoOut(0x3f8, Some(123)))), VcpuAction::WriteIoBus(0x3f8, false));
    assert_eq!(vcpu_action(VcpuRunResult::Exit(VcpuExit::IoIn(0x60))), VcpuAction::ReadIoBus(0x60));
    assert_eq!(vcpu_action(VcpuRunResult::Exit(VcpuExit::MmioRead(0xd000_0000))), VcpuAction::ReadMmioBus(0xd000_0000));
    assert_eq!(vcpu_action(VcpuRunResult::Exit(VcpuExit::MmioWrite(8))), VcpuAction::WriteMmioBus(8));
    assert_eq!(vcpu_action(VcpuRunResult::Exit(VcpuExit::Hlt)), VcpuAction::Stop(false));
    assert_eq!(vcpu_action(VcpuRunResult::Exit(VcpuExit::Shutdown)), VcpuAction::Stop(false));
    assert_eq!(vcpu_action(VcpuRunResult::Exit(VcpuExit::FailEntry)), VcpuAction::Stop(true));
    assert_eq!(vcpu_action(VcpuRunResult::Exit(VcpuExit::Other)), VcpuAction::Stop(true));
    assert_eq!(vcpu_action(VcpuRunResult::Failed(11)), VcpuAction::Retry);
    assert_eq!(vcpu_action(VcpuRunResult::Failed(4)), VcpuAction::Retry);
    assert_eq!(vcpu_action(VcpuRunResult::Failed(22)), VcpuAction::Stop(true));
}

#[test]
fn boot_time_units() {
    assert_eq!(boot_time(5_123_456_789, 1_000_000_000), (4_123_456, 4_123));
}

fn body(id: &str, host: &str, mac: Option<u64>) -> NetworkInterfaceBody {
    NetworkInterfaceBody {
        iface_id: id.to_string(),
        state: DeviceState::Attached,
        host_dev_name: host.to_string(),
        guest_mac: mac.map(|value| MacAddr { value }),
        rx_rate_limiter: None,
        tx_rate_limiter: None,
        allow_mmds_requests: true,
    }
}

#[test]
fn net_uniqueness() {
    let mut c = NetworkInterfaceConfigs::new();
    assert_eq!(c.insert(body("a", "tap0", Some(1)), true), Ok(()));
    assert_eq!(c.insert(body("b", "tap0", None), true), Err(NetworkInterfaceError::HostDeviceNameInUse));
    assert_eq!(c.insert(body("b", "tap1", Some(1)), true), Err(NetworkInterfaceError::GuestMacAddressInUse));
    assert_eq!(c.insert(body("b", "tap1", Some(2)), false), Err(NetworkInterfaceError::OpenTap));
    assert_eq!(c.insert(body("b", "tap1", Some(2)), true), Ok(()));
    // Same id: replaced in place, its own name and address do not clash.
    assert_eq!(c.insert(body("a", "tap0", Some(1)), true), Ok(()));
    assert_eq!(c.len(), 2);
    assert!(c.take_tap(0));
    assert!(!c.take_tap(0));
}
