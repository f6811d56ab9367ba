use vstd::prelude::*;
use vstd::string::*;

use std::sync::mpsc::Sender;

use crate::block::{
    configs_wf, contains_id, has_root, index_of_id, insert_spec, update_spec, BlockDeviceConfig,
    BlockDeviceConfigs, BlockDeviceView, DriveError,
};
use crate::cmdline::{appended, insert_spec as cmdline_insert_spec, Cmdline, CmdlineError};
use crate::dispatch::{add_event_spec, allocate_spec, DispatchError, EpollContext, EpollDispatch};
use crate::logger_api::{level_of, to_level, APILoggerDescription, APILoggerError, LoggerSettings};
use crate::machine_config::{MachineConfiguration, PutMachineConfigurationError};
use crate::net::{
    body_config, net_ids_unique, net_insert_spec, NetView, NetworkInterfaceBody,
    NetworkInterfaceConfigs, NetworkInterfaceError,
};
use crate::text::str_eq;

verus! {

pub const DEFAULT_KERNEL_CMDLINE: &'static str = "reboot=k panic=1 pci=off nomodules 8250.nr_uarts=0";

/// Room for the kernel command line, its final NUL included.
pub const CMDLINE_MAX_SIZE: usize = 0x10000;

/// Guest address the kernel command line is loaded at.
pub const CMDLINE_START: u64 = 0x20000;

/// Readiness tokens of one virtio block device.
pub const BLOCK_EVENTS_COUNT: usize = 2;

/// Readiness tokens of one virtio net device.
pub const NET_EVENTS_COUNT: usize = 5;

pub const LOGGER_AFTER_BOOT: &'static str = "Cannot initialize logger after boot.";

pub const ROOT_DEV_VDA: &'static str = " root=/dev/vda";
pub const ROOT_PARTUUID: &'static str = " root=PARTUUID=";
pub const READ_ONLY: &'static str = " ro";

/// The life cycle of the microVM.
#[derive(Clone, Copy, Debug, PartialEq, Eq, Structural)]
pub enum InstanceState {
    Uninitialized,
    Starting,
    Running,
    Halting,
    Halted,
}

/// What the API side may read of the monitor.
#[derive(Debug)]
pub struct InstanceInfo {
    pub id: String,
    pub state: InstanceState,
}

/// The kernel command line and the guest address it goes to. The kernel
/// image file itself is held by whoever opened it.
pub struct KernelConfig {
    pub cmdline: Cmdline,
    pub cmdline_addr: u64,
}

#[derive(Clone, Copy, Debug, PartialEq, Eq, Structural)]
pub enum BootSourceConfigError {
    EmptyKernelPath,
    InvalidKernelCommandLine,
    InvalidKernelPath,
    UpdateNotAllowedPostBoot,
}

/// Errors caused by the request or the host configuration.
#[derive(Clone, Copy, Debug, PartialEq, Eq, Structural)]
pub enum UserError {
    MicroVMAlreadyRunning,
    MissingKernelConfig,
}

/// Errors of the monitor's own making.
#[derive(Clone, Copy, Debug, PartialEq, Eq, Structural)]
pub enum InternalError {
    /// A fragment could not be added to the kernel command line.
    RegisterBlockDevice(CmdlineError),
    /// A net device's TAP device was already taken.
    NetDeviceUnconfigured,
    /// The boot was not under way.
    BootNotInProgress,
    /// Building or starting the guest failed.
    GuestBootFailed,
}

#[derive(Clone, Copy, Debug, PartialEq, Eq, Structural)]
pub enum VmmError {
    User(UserError),
    Internal(InternalError),
}

#[derive(Clone, Copy, Debug, PartialEq, Eq, Structural)]
pub enum ErrorType {
    UserError,
    InternalError,
}

pub open spec fn error_type_of(e: VmmError) -> ErrorType {
    match e {
        VmmError::User(_) => ErrorType::UserError,
        VmmError::Internal(_) => ErrorType::InternalError,
    }
}

/// A block device the boot is to build: the drive (by its position in the
/// drive table), its device index, its first readiness token and the channel
/// its handler is to be sent on.
#[verifier::reject_recursive_types(H)]
pub struct BlockAttachment<H> {
    pub drive_index: usize,
    pub device_idx: usize,
    pub dispatch_base: u64,
    pub sender: Sender<H>,
}

/// A net device the boot is to build, likewise.
#[verifier::reject_recursive_types(H)]
pub struct NetAttachment<H> {
    pub iface_index: usize,
    pub device_idx: usize,
    pub dispatch_base: u64,
    pub sender: Sender<H>,
}

/// What is left to do to boot once the monitor has wired the configuration:
/// build these devices, and watch the exit event under its token.
#[verifier::reject_recursive_types(H)]
pub struct BootPlan<H> {
    pub blocks: Vec<BlockAttachment<H>>,
    pub nets: Vec<NetAttachment<H>>,
    pub exit_dispatch_index: u64,
}

/// A drive to be re-read by the guest: its MMIO address and backing file.
#[derive(Debug)]
pub struct RescanTarget {
    pub address: u64,
    pub path_on_host: String,
}

/// A drive whose backing file changed while the guest runs: the device whose
/// handler takes the new file, then the rescan.
#[derive(Debug)]
pub struct LiveDriveUpdate {
    pub device_idx: usize,
    pub rescan: RescanTarget,
}

/// The root device's fragments of the kernel command line, in the order they
/// are added: where a root drive exists, exactly one `root=` fragment (by
/// PARTUUID where the drive has one, else `/dev/vda`), then ` ro` for a
/// read-only root.
pub open spec fn root_fragments(s: Seq<BlockDeviceView>) -> Seq<Seq<char>> {
    if !has_root(s) {
        Seq::empty()
    } else {
        let root_arg = match s[0].partuuid {
            None => ROOT_DEV_VDA@,
            Some(u) => ROOT_PARTUUID@ + u,
        };
        if s[0].is_read_only {
            seq![root_arg, READ_ONLY@]
        } else {
            seq![root_arg]
        }
    }
}

/// The line after inserting `frags` in order; the first refusal ends it.
pub open spec fn insert_all(line: Seq<char>, capacity: nat, frags: Seq<Seq<char>>) -> Result<
    Seq<char>,
    CmdlineError,
>
    decreases frags.len(),
{
    if frags.len() == 0 {
        Ok(line)
    } else {
        match insert_all(line, capacity, frags.drop_last()) {
            Err(e) => Err(e),
            Ok(l) => cmdline_insert_spec(l, capacity, frags.last()),
        }
    }
}

pub open spec fn is_root_arg(f: Seq<char>) -> bool {
    f == ROOT_DEV_VDA@ || (f.len() >= ROOT_PARTUUID@.len() && f.subrange(
        0,
        ROOT_PARTUUID@.len() as int,
    ) == ROOT_PARTUUID@)
}

/// The boot adds exactly one `root=` fragment where a root drive is
/// configured, and none where none is: `root=PARTUUID=<uuid>` where the root
/// drive has a PARTUUID, `root=/dev/vda` where it has none.
pub proof fn lemma_one_root_argument(s: Seq<BlockDeviceView>)
    ensures
        has_root(s) ==> root_fragments(s).len() >= 1 && is_root_arg(root_fragments(s)[0])
            && (forall|i: int|
            1 <= i < root_fragments(s).len() ==> !is_root_arg(#[trigger] root_fragments(s)[i])),
        !has_root(s) ==> root_fragments(s).len() == 0,
        has_root(s) && s[0].partuuid is None ==> root_fragments(s)[0] == ROOT_DEV_VDA@,
        has_root(s) ==> (s[0].partuuid matches Some(u) ==> root_fragments(s)[0] == ROOT_PARTUUID@
            + u),
{
    reveal_strlit(" root=/dev/vda");
    reveal_strlit(" root=PARTUUID=");
    reveal_strlit(" ro");
    if has_root(s) {
        if let Some(u) = s[0].partuuid {
            assert((ROOT_PARTUUID@ + u).subrange(0, ROOT_PARTUUID@.len() as int) =~= ROOT_PARTUUID@);
        }
        if s[0].is_read_only {
            assert(root_fragments(s)[1] == READ_ONLY@);
            assert(READ_ONLY@ != ROOT_DEV_VDA@);
        }
    }
}

/// The table after `n` devices, numbered from `first`, each reserve `count`
/// tokens.
pub open spec fn allocate_many(
    t: Seq<Option<EpollDispatch>>,
    first: nat,
    n: nat,
    count: usize,
) -> Seq<Option<EpollDispatch>>
    decreases n,
{
    if n == 0 {
        t
    } else {
        allocate_spec(allocate_many(t, first, (n - 1) as nat, count), (first + n - 1) as usize, count)
    }
}

/// The table after the wiring of a boot: tokens for each drive, then for
/// each interface, then the exit event.
pub open spec fn boot_table(
    t: Seq<Option<EpollDispatch>>,
    handlers: nat,
    drives: nat,
    ifaces: nat,
) -> Seq<Option<EpollDispatch>> {
    add_event_spec(
        allocate_many(
            allocate_many(t, handlers, drives, BLOCK_EVENTS_COUNT),
            handlers + drives,
            ifaces,
            NET_EVENTS_COUNT,
        ),
        EpollDispatch::Exit,
    )
}

pub open spec fn taps_taken(s: Seq<NetView>) -> Seq<NetView> {
    s.map_values(|v: NetView| NetView { has_tap: false, ..v })
}

pub open spec fn all_taps_available(s: Seq<NetView>) -> bool {
    forall|i: int| 0 <= i < s.len() ==> (#[trigger] s[i]).has_tap
}

/// `needle` occurs in `hay`.
pub open spec fn contains_text(hay: Seq<char>, needle: Seq<char>) -> bool {
    exists|i: int|
        0 <= i && i + needle.len() <= hay.len() && #[trigger] hay.subrange(i, i + needle.len())
            == needle
}

/// Where the root drive's arguments were added to a kernel command line, the
/// line holds the `root=` argument; where there is no root drive, the line
/// is left as it was.
pub proof fn lemma_root_argument_in_line(
    base: Seq<char>,
    capacity: nat,
    s: Seq<BlockDeviceView>,
    line: Seq<char>,
)
    requires
        insert_all(base, capacity, root_fragments(s)) == Ok::<Seq<char>, CmdlineError>(line),
    ensures
        has_root(s) ==> contains_text(line, root_fragments(s)[0]),
        !has_root(s) ==> line == base,
{
    let frags = root_fragments(s);
    if has_root(s) {
        let f0 = frags[0];
        assert(seq![f0].drop_last() =~= Seq::<Seq<char>>::empty());
        let l1 = appended(base, f0);
        assert(insert_all(base, capacity, Seq::<Seq<char>>::empty()) == Ok::<Seq<char>, CmdlineError>(base));
        assert(insert_all(base, capacity, seq![f0]) == cmdline_insert_spec(base, capacity, f0));
        let i = l1.len() - f0.len();
        assert(l1.subrange(i, i + f0.len()) =~= f0);
        if frags.len() == 2 {
            assert(frags.drop_last() =~= seq![f0]);
            assert(line == appended(l1, frags[1]));
            if l1.len() > 0 {
                assert(line.subrange(i, i + f0.len()) =~= f0);
            } else {
                assert(f0.len() == 0);
                assert(line.subrange(0, 0) =~= f0);
            }
        } else {
            assert(frags =~= seq![f0]);
            assert(line == l1);
        }
    } else {
        assert(frags =~= Seq::<Seq<char>>::empty());
    }
}

/// `r` is the rescan that `o` decides.
pub open spec fn rescan_matches(r: Result<RescanTarget, DriveError>, o: Result<(u64, Seq<char>), DriveError>) -> bool {
    match o {
        Ok((a, p)) => r matches Ok(t) && t.address == a && t.path_on_host@ == p,
        Err(e) => r == Err::<RescanTarget, DriveError>(e),
    }
}

/// `r` is the live update of device `d` with the rescan that `o` decides.
pub open spec fn live_update_matches(
    r: Result<Option<LiveDriveUpdate>, DriveError>,
    d: usize,
    o: Result<(u64, Seq<char>), DriveError>,
) -> bool {
    match o {
        Ok((a, p)) => r matches Ok(Some(u)) && u.device_idx == d && u.rescan.address == a
            && u.rescan.path_on_host@ == p,
        Err(e) => r == Err::<Option<LiveDriveUpdate>, DriveError>(e),
    }
}

pub open spec fn is_pre_boot_state(s: InstanceState) -> bool {
    s == InstanceState::Uninitialized
}

/// The monitor's control plane: the pending configuration, the life-cycle
/// state, and the dispatch table of the readiness loop.
#[verifier::reject_recursive_types(H)]
pub struct Vmm<H> {
    vm_config: MachineConfiguration,
    shared_info: InstanceInfo,
    kernel_config: Option<KernelConfig>,
    block_device_configs: BlockDeviceConfigs,
    network_interface_configs: NetworkInterfaceConfigs,
    drive_handler_id_map: Vec<(String, usize)>,
    mmio_addresses: Vec<(String, u64)>,
    epoll_context: EpollContext<H>,
    exit_evt: Option<u64>,
    api_event: u64,
    write_metrics_event: u64,
    seccomp_level: u32,
}

pub open spec fn pairs_view<T>(v: Seq<(String, T)>) -> Seq<(Seq<char>, T)> {
    v.map_values(|p: (String, T)| (p.0@, p.1))
}

/// The value paired with the first `key` of `v`.
pub open spec fn lookup<T>(v: Seq<(Seq<char>, T)>, key: Seq<char>) -> Option<T>
    decreases v.len(),
{
    if v.len() == 0 {
        None
    } else if v[0].0 == key {
        Some(v[0].1)
    } else {
        lookup(v.drop_first(), key)
    }
}

fn find_pair<T: Copy>(v: &Vec<(String, T)>, key: &str) -> (r: Option<T>)
    ensures
        r == lookup(pairs_view(v@), key@),
{
    let mut i: usize = 0;
    assert(pairs_view(v@).subrange(0, v@.len() as int) =~= pairs_view(v@));
    while i < v.len()
        invariant
            i <= v.len(),
            lookup(pairs_view(v@), key@) == lookup(pairs_view(v@).subrange(i as int, v@.len() as int), key@),
        decreases v.len() - i,
    {
        let ghost rest = pairs_view(v@).subrange(i as int, v@.len() as int);
        assert(rest.drop_first() =~= pairs_view(v@).subrange(i + 1, v@.len() as int));
        if str_eq(v[i].0.as_str(), key) {
            return Some(v[i].1);
        }
        i = i + 1;
    }
    None
}

impl<H> Vmm<H> {
    pub closed spec fn state(&self) -> InstanceState {
        self.shared_info.state
    }

    pub closed spec fn machine_config(&self) -> MachineConfiguration {
        self.vm_config
    }

    pub closed spec fn drives(&self) -> Seq<BlockDeviceView> {
        self.block_device_configs@
    }

    pub closed spec fn interfaces(&self) -> Seq<NetView> {
        self.network_interface_configs@
    }

    /// The kernel command line, where a kernel is configured.
    pub closed spec fn kernel_cmdline(&self) -> Option<Seq<char>> {
        match self.kernel_config {
            Some(k) => Some(k.cmdline.line_view()),
            None => None,
        }
    }

    pub closed spec fn cmdline_capacity(&self) -> nat {
        self.kernel_config->0.cmdline.capacity_view()
    }

    pub closed spec fn mmio_map(&self) -> Seq<(Seq<char>, u64)> {
        pairs_view(self.mmio_addresses@)
    }

    pub closed spec fn drive_devices(&self) -> Seq<(Seq<char>, usize)> {
        pairs_view(self.drive_handler_id_map@)
    }

    pub closed spec fn dispatch_table(&self) -> Seq<Option<EpollDispatch>> {
        self.epoll_context.table()
    }

    /// The token of the exit event, once it is registered.
    pub closed spec fn exit_event(&self) -> Option<u64> {
        self.exit_evt
    }

    pub closed spec fn id_view(&self) -> Seq<char> {
        self.shared_info.id@
    }

    pub closed spec fn handler_installed(&self, i: int) -> bool {
        self.epoll_context.installed(i)
    }

    pub closed spec fn handler_count(&self) -> nat {
        self.epoll_context.handler_count()
    }

    pub closed spec fn wf(&self) -> bool {
        &&& self.vm_config.wf()
        &&& configs_wf(self.block_device_configs@)
        &&& net_ids_unique(self.network_interface_configs@)
        &&& self.epoll_context.wf()
        &&& (self.exit_evt matches Some(i) ==> i < self.epoll_context.table().len())
        &&& (self.kernel_config matches Some(k) ==> k.cmdline.wf())
        &&& (forall|i: int|
            0 <= i < self.drive_handler_id_map@.len() ==> (#[trigger] self.drive_handler_id_map@[i]).1
                < self.epoll_context.handler_count())
    }

    /// The configuration held when nothing has changed it but `other`.
    pub open spec fn same_config(&self, other: &Self) -> bool {
        &&& self.machine_config() == other.machine_config()
        &&& self.drives() == other.drives()
        &&& self.interfaces() == other.interfaces()
        &&& self.kernel_cmdline() == other.kernel_cmdline()
        &&& self.cmdline_capacity() == other.cmdline_capacity()
        &&& self.state() == other.state()
    }

    /// A monitor for instance `id`, before boot, with the default machine
    /// configuration; the API request source and the metrics timer hold the
    /// two tokens after the standard-input slot.
    pub fn new(id: String, seccomp_level: u32) -> (r: Self)
        ensures
            r.wf(),
            r.state() == InstanceState::Uninitialized,
            r.machine_config() == MachineConfiguration::spec_default(),
            r.drives() == Seq::<BlockDeviceView>::empty(),
            r.interfaces() == Seq::<NetView>::empty(),
            r.kernel_cmdline() is None,
            r.dispatch_table() == seq![
                None,
                Some(EpollDispatch::VmmActionRequest),
                Some(EpollDispatch::WriteMetrics),
            ],
            r.handler_count() == 0,
            r.mmio_map() == Seq::<(Seq<char>, u64)>::empty(),
            r.drive_devices() == Seq::<(Seq<char>, usize)>::empty(),
            r.exit_event() is None,
            r.id_view() == id@,
    {
        let ghost idv = id@;
        let mut epoll_context: EpollContext<H> = EpollContext::new();
        let api_event = epoll_context.add_event((), EpollDispatch::VmmActionRequest).dispatch_index;
        let write_metrics_event = epoll_context.add_event(
            (),
            EpollDispatch::WriteMetrics,
        ).dispatch_index;
        let r = Vmm {
            vm_config: MachineConfiguration::default(),
            shared_info: InstanceInfo { id, state: InstanceState::Uninitialized },
            kernel_config: None,
            block_device_configs: BlockDeviceConfigs::new(),
            network_interface_configs: NetworkInterfaceConfigs::new(),
            drive_handler_id_map: Vec::new(),
            mmio_addresses: Vec::new(),
            epoll_context,
            exit_evt: None,
            api_event,
            write_metrics_event,
            seccomp_level,
        };
        assert(r.dispatch_table() =~= seq![
            None,
            Some(EpollDispatch::VmmActionRequest),
            Some(EpollDispatch::WriteMetrics),
        ]);
        assert(r.mmio_map() =~= Seq::<(Seq<char>, u64)>::empty());
        assert(r.drive_devices() =~= Seq::<(Seq<char>, usize)>::empty());
        r
    }

    pub fn api_event_index(&self) -> u64 {
        self.api_event
    }

    pub fn write_metrics_index(&self) -> u64 {
        self.write_metrics_event
    }

    pub fn seccomp_level(&self) -> u32 {
        self.seccomp_level
    }

    pub fn epoll_context(&self) -> (r: &EpollContext<H>)
        ensures
            r.table() == self.dispatch_table(),
            r.handler_count() == self.handler_count(),
            r.stdin_slot() == self.stdin_slot(),
    {
        &self.epoll_context
    }

    pub fn instance_state(&self) -> (r: InstanceState)
        ensures
            r == self.state(),
    {
        self.shared_info.state
    }

    pub fn instance_id(&self) -> &String {
        &self.shared_info.id
    }

    /// Moves the life cycle on, as the boot and the shutdown progress.
    pub fn set_instance_state(&mut self, state: InstanceState)
        requires
            old(self).wf(),
        ensures
            final(self).wf(),
            final(self).state() == state,
            final(self).machine_config() == old(self).machine_config(),
            final(self).drives() == old(self).drives(),
            final(self).interfaces() == old(self).interfaces(),
            final(self).kernel_cmdline() == old(self).kernel_cmdline(),
            final(self).mmio_map() == old(self).mmio_map(),
            final(self).dispatch_table() == old(self).dispatch_table(),
    {
        self.shared_info.state = state;
    }

    /// The machine configuration, as a `GetMachineConfiguration` request
    /// reports it.
    pub fn vm_config(&self) -> (r: MachineConfiguration)
        ensures
            r == self.machine_config(),
    {
        self.vm_config
    }

    pub fn block_device_configs(&self) -> (r: &BlockDeviceConfigs)
        ensures
            r@ == self.drives(),
    {
        &self.block_device_configs
    }

    pub fn network_interface_configs(&self) -> (r: &NetworkInterfaceConfigs)
        ensures
            r@ == self.interfaces(),
    {
        &self.network_interface_configs
    }

    /// The kernel command line, empty where no kernel is configured.
    pub fn get_kernel_cmdline_str(&self) -> (r: &str)
        ensures
            self.kernel_cmdline() matches Some(l) ==> r@ == l,
    {
        match &self.kernel_config {
            Some(k) => k.cmdline.as_str(),
            None => "",
        }
    }

    pub fn kernel_cmdline_addr(&self) -> Option<u64> {
        match &self.kernel_config {
            Some(k) => Some(k.cmdline_addr),
            None => None,
        }
    }

    /// Whether the microVM has left the pre-boot state.
    pub fn is_instance_initialized(&self) -> (r: bool)
        ensures
            r == !is_pre_boot_state(self.state()),
    {
        match self.shared_info.state {
            InstanceState::Uninitialized => false,
            _ => true,
        }
    }

    /// A boot needs a kernel.
    pub fn check_health(&self) -> (r: Result<(), VmmError>)
        ensures
            r is Ok <==> self.kernel_cmdline() is Some,
            r is Err ==> r == Err::<(), VmmError>(VmmError::User(UserError::MissingKernelConfig)),
    {
        if self.kernel_config.is_none() {
            return Err(VmmError::User(UserError::MissingKernelConfig));
        }
        Ok(())
    }

    /// Sets the kernel: `kernel_file_opened` tells whether its image could be
    /// opened; the command line is `kernel_cmdline`, or the default one.
    pub fn configure_boot_source(
        &mut self,
        kernel_file_opened: bool,
        kernel_cmdline: Option<String>,
    ) -> (r: Result<(), BootSourceConfigError>)
        requires
            old(self).wf(),
        ensures
            final(self).wf(),
            final(self).state() == old(self).state(),
            final(self).machine_config() == old(self).machine_config(),
            final(self).drives() == old(self).drives(),
            final(self).interfaces() == old(self).interfaces(),
            final(self).mmio_map() == old(self).mmio_map(),
            final(self).drive_devices() == old(self).drive_devices(),
            final(self).dispatch_table() == old(self).dispatch_table(),
            final(self).exit_event() == old(self).exit_event(),
            Self::boot_source_post(
                old(self),
                final(self),
                kernel_file_opened,
                match kernel_cmdline {
                    Some(s) => Some(s@),
                    None => None,
                },
                r,
            ),
    {
        if self.is_instance_initialized() {
            return Err(BootSourceConfigError::UpdateNotAllowedPostBoot);
        }
        if !kernel_file_opened {
            return Err(BootSourceConfigError::InvalidKernelPath);
        }
        let mut cmdline = Cmdline::new(CMDLINE_MAX_SIZE);
        let inserted = match &kernel_cmdline {
            Some(s) => cmdline.insert_str(s.as_str()),
            None => cmdline.insert_str(DEFAULT_KERNEL_CMDLINE),
        };
        if inserted.is_err() {
            return Err(BootSourceConfigError::InvalidKernelCommandLine);
        }
        self.kernel_config = Some(KernelConfig { cmdline, cmdline_addr: CMDLINE_START });
        Ok(())
    }

    /// Applies a partial machine configuration, before boot only.
    pub fn set_vm_configuration(&mut self, machine_config: MachineConfiguration) -> (r: Result<
        (),
        PutMachineConfigurationError,
    >)
        requires
            old(self).wf(),
        ensures
            final(self).wf(),
            final(self).machine_config().wf(),
            final(self).state() == old(self).state(),
            final(self).drives() == old(self).drives(),
            final(self).interfaces() == old(self).interfaces(),
            final(self).kernel_cmdline() == old(self).kernel_cmdline(),
            final(self).cmdline_capacity() == old(self).cmdline_capacity(),
            final(self).mmio_map() == old(self).mmio_map(),
            final(self).drive_devices() == old(self).drive_devices(),
            final(self).dispatch_table() == old(self).dispatch_table(),
            final(self).exit_event() == old(self).exit_event(),
            !is_pre_boot_state(old(self).state()) ==> r == Err::<(), _>(
                PutMachineConfigurationError::UpdateNotAllowPostBoot,
            ) && final(self).machine_config() == old(self).machine_config(),
            is_pre_boot_state(old(self).state()) ==> match old(self).machine_config().updated_by(
                machine_config,
            ) {
                Ok(c) => r is Ok && final(self).machine_config() == c,
                Err(e) => r == Err::<(), _>(e) && final(self).machine_config() == old(self).machine_config(),
            },
    {
        if self.is_instance_initialized() {
            return Err(PutMachineConfigurationError::UpdateNotAllowPostBoot);
        }
        match self.vm_config.apply_update(&machine_config) {
            Ok(c) => {
                self.vm_config = c;
                Ok(())
            },
            Err(e) => Err(e),
        }
    }

    /// Adds a network interface, or replaces the one with its id, before
    /// boot only; `tap_opened` tells whether its TAP device could be opened.
    pub fn insert_net_device(&mut self, body: NetworkInterfaceBody, tap_opened: bool) -> (r:
        Result<(), NetworkInterfaceError>)
        requires
            old(self).wf(),
        ensures
            final(self).wf(),
            final(self).state() == old(self).state(),
            final(self).machine_config() == old(self).machine_config(),
            final(self).drives() == old(self).drives(),
            final(self).kernel_cmdline() == old(self).kernel_cmdline(),
            final(self).cmdline_capacity() == old(self).cmdline_capacity(),
            final(self).mmio_map() == old(self).mmio_map(),
            final(self).drive_devices() == old(self).drive_devices(),
            final(self).dispatch_table() == old(self).dispatch_table(),
            final(self).exit_event() == old(self).exit_event(),
            !is_pre_boot_state(old(self).state()) ==> r == Err::<(), _>(
                NetworkInterfaceError::UpdateNotAllowPostBoot,
            ) && final(self).interfaces() == old(self).interfaces(),
            is_pre_boot_state(old(self).state()) ==> match net_insert_spec(
                old(self).interfaces(),
                body_config(body),
                tap_opened,
            ) {
                Ok(t) => r is Ok && final(self).interfaces() == t,
                Err(e) => r == Err::<(), _>(e) && final(self).interfaces() == old(self).interfaces(),
            },
    {
        if self.is_instance_initialized() {
            return Err(NetworkInterfaceError::UpdateNotAllowPostBoot);
        }
        self.network_interface_configs.insert(body, tap_opened)
    }

    /// Adds a drive, or updates the one with its id, before boot only;
    /// `path_exists` tells whether its backing file exists.
    pub fn insert_block_device(&mut self, block_device_config: BlockDeviceConfig, path_exists: bool) -> (r:
        Result<(), DriveError>)
        requires
            old(self).wf(),
        ensures
            final(self).wf(),
            configs_wf(final(self).drives()),
            final(self).state() == old(self).state(),
            final(self).machine_config() == old(self).machine_config(),
            final(self).interfaces() == old(self).interfaces(),
            final(self).kernel_cmdline() == old(self).kernel_cmdline(),
            final(self).cmdline_capacity() == old(self).cmdline_capacity(),
            final(self).mmio_map() == old(self).mmio_map(),
            final(self).drive_devices() == old(self).drive_devices(),
            final(self).dispatch_table() == old(self).dispatch_table(),
            final(self).exit_event() == old(self).exit_event(),
            !is_pre_boot_state(old(self).state()) ==> r == Err::<(), _>(
                DriveError::UpdateNotAllowedPostBoot,
            ) && final(self).drives() == old(self).drives(),
            is_pre_boot_state(old(self).state()) ==> match insert_spec(
                old(self).drives(),
                block_device_config@,
                path_exists,
            ) {
                Ok(t) => r is Ok && final(self).drives() == t,
                Err(e) => r == Err::<(), _>(e) && final(self).drives() == old(self).drives(),
            },
    {
        if self.is_instance_initialized() {
            return Err(DriveError::UpdateNotAllowedPostBoot);
        }
        self.block_device_configs.insert(block_device_config, path_exists)
    }

    /// Decides a logger request: refused after boot, else the settings the
    /// logger is to take.
    pub fn init_logger(&self, api_logger: APILoggerDescription) -> (r: Result<
        LoggerSettings,
        APILoggerError,
    >)
        ensures
            self.logger_post(api_logger, r),
    {
        if self.is_instance_initialized() {
            return Err(APILoggerError::InitializationFailure(String::from_str(LOGGER_AFTER_BOOT)));
        }
        let level = match api_logger.level {
            Some(l) => Some(to_level(l)),
            None => None,
        };
        Ok(
            LoggerSettings {
                level,
                include_origin: api_logger.show_log_origin,
                include_level: api_logger.show_level,
                instance_id: self.shared_info.id.clone(),
                log_fifo: api_logger.log_fifo,
                metrics_fifo: api_logger.metrics_fifo,
            },
        )
    }

    /// Adds the root drive's fragments to the kernel command line.
    fn insert_root_args(&mut self) -> (r: Result<(), CmdlineError>)
        requires
            old(self).wf(),
            old(self).kernel_cmdline() is Some,
        ensures
            final(self).wf(),
            final(self).same_config_but_cmdline(old(self)),
            final(self).kernel_cmdline() is Some,
            final(self).stdin_slot() == old(self).stdin_slot(),
            final(self).dispatch_table() == old(self).dispatch_table(),
            final(self).handler_count() == old(self).handler_count(),
            final(self).drive_devices() == old(self).drive_devices(),
            final(self).mmio_map() == old(self).mmio_map(),
            match insert_all(
                old(self).kernel_cmdline()->0,
                old(self).cmdline_capacity(),
                root_fragments(old(self).drives()),
            ) {
                Ok(l) => r is Ok && final(self).kernel_cmdline() == Some(l),
                Err(e) => r == Err::<(), CmdlineError>(e),
            },
    {
        let ghost base = self.kernel_cmdline()->0;
        let ghost frags = root_fragments(self.drives());
        if !self.block_device_configs.has_root_block_device() {
            assert(frags =~= Seq::<Seq<char>>::empty());
            return Ok(());
        }
        let root = self.block_device_configs.get(0);
        let read_only = root.is_read_only;
        let root_arg = match &root.partuuid {
            None => String::from_str(ROOT_DEV_VDA),
            Some(u) => String::from_str(ROOT_PARTUUID).concat(u.as_str()),
        };
        let ghost cap = self.cmdline_capacity();
        assert(root_arg@ == frags[0]);
        assert(seq![frags[0]].drop_last() =~= Seq::<Seq<char>>::empty());
        assert(insert_all(base, cap, Seq::<Seq<char>>::empty()) == Ok::<Seq<char>, CmdlineError>(base));
        assert(insert_all(base, cap, seq![frags[0]]) == cmdline_insert_spec(base, cap, frags[0]));
        let first = match &mut self.kernel_config {
            Some(k) => k.cmdline.insert_str(root_arg.as_str()),
            None => Ok(()),
        };
        if let Err(e) = first {
            if read_only {
                assert(frags.drop_last() =~= seq![frags[0]]);
            } else {
                assert(frags =~= seq![frags[0]]);
            }
            return Err(e);
        }
        if read_only {
            assert(frags.drop_last() =~= seq![frags[0]]);
            assert(frags.last() == READ_ONLY@);
            match &mut self.kernel_config {
                Some(k) => k.cmdline.insert_str(READ_ONLY),
                None => Ok(()),
            }
        } else {
            assert(frags =~= seq![frags[0]]);
            Ok(())
        }
    }

    /// The configuration but the kernel command line is that of `other`.
    pub open spec fn same_config_but_cmdline(&self, other: &Self) -> bool {
        &&& self.machine_config() == other.machine_config()
        &&& self.drives() == other.drives()
        &&& self.interfaces() == other.interfaces()
        &&& self.state() == other.state()
    }

    /// Reserves tokens for each drive, in order, and records each drive's
    /// device index.
    fn allocate_block_tokens(&mut self) -> (r: Vec<BlockAttachment<H>>)
        requires
            old(self).wf(),
        ensures
            final(self).wf(),
            final(self).same_config(old(self)),
            final(self).mmio_map() == old(self).mmio_map(),
            final(self).dispatch_table() == allocate_many(
                old(self).dispatch_table(),
                old(self).handler_count(),
                old(self).drives().len(),
                BLOCK_EVENTS_COUNT,
            ),
            final(self).handler_count() == old(self).handler_count() + old(self).drives().len(),
            final(self).stdin_slot() == old(self).stdin_slot(),
            r@.len() == old(self).drives().len(),
            forall|i: int|
                0 <= i < r@.len() ==> (#[trigger] r@[i]).drive_index == i && r@[i].device_idx
                    == old(self).handler_count() + i,
            forall|i: int|
                0 <= i < old(self).drives().len() ==> lookup(
                    final(self).drive_devices(),
                    (#[trigger] old(self).drives()[i]).drive_id,
                ) == Some((old(self).handler_count() + i) as usize),
    {
        let ghost old_self = *self;
        let ghost t0 = self.dispatch_table();
        let ghost h0 = self.handler_count();
        let ghost drives = self.drives();
        let n = self.block_device_configs.len();
        let mut blocks: Vec<BlockAttachment<H>> = Vec::new();
        let mut i: usize = 0;
        while i < n
            invariant
                self.wf(),
                self.same_config(&old_self),
                self.mmio_map() == old_self.mmio_map(),
                self.stdin_slot() == old_self.stdin_slot(),
                drives == self.drives(),
                n == drives.len(),
                i <= n,
                self.dispatch_table() == allocate_many(t0, h0, i as nat, BLOCK_EVENTS_COUNT),
                self.handler_count() == h0 + i,
                blocks@.len() == i,
                forall|j: int|
                    0 <= j < i ==> (#[trigger] blocks@[j]).drive_index == j && blocks@[j].device_idx
                        == h0 + j,
                forall|j: int|
                    0 <= j < i ==> lookup(self.drive_devices(), (#[trigger] drives[j]).drive_id)
                        == Some((h0 + j) as usize),
            decreases n - i,
        {
            let device_idx = self.epoll_context.device_handlers_len();
            let (dispatch_base, sender) = self.epoll_context.allocate_tokens(BLOCK_EVENTS_COUNT);
            let id = self.block_device_configs.get(i).drive_id.clone();
            let ghost before = self.drive_devices();
            self.drive_handler_id_map.insert(0, (id, device_idx));
            assert(self.drive_devices() =~= seq![(drives[i as int].drive_id, device_idx)] + before);
            assert forall|j: int| 0 <= j <= i implies lookup(self.drive_devices(), (#[trigger] drives[j]).drive_id)
                == Some((h0 + j) as usize) by {
                assert(self.drive_devices().drop_first() =~= before);
                if j < i {
                    assert(drives[j].drive_id != drives[i as int].drive_id);
                }
            }
            blocks.push(BlockAttachment { drive_index: i, device_idx, dispatch_base, sender });
            i = i + 1;
        }
        blocks
    }

    /// Adds the root drive's arguments to the kernel command line, then
    /// reserves tokens for each drive and records its device index.
    pub fn attach_block_devices(&mut self) -> (r: Result<Vec<BlockAttachment<H>>, VmmError>)
        requires
            old(self).wf(),
            old(self).kernel_cmdline() is Some,
        ensures
            final(self).wf(),
            final(self).machine_config() == old(self).machine_config(),
            final(self).drives() == old(self).drives(),
            final(self).interfaces() == old(self).interfaces(),
            final(self).state() == old(self).state(),
            match insert_all(
                old(self).kernel_cmdline()->0,
                old(self).cmdline_capacity(),
                root_fragments(old(self).drives()),
            ) {
                Err(e) => r == Err::<Vec<BlockAttachment<H>>, VmmError>(
                    VmmError::Internal(InternalError::RegisterBlockDevice(e)),
                ),
                Ok(line) => final(self).kernel_cmdline() == Some(line) && (r matches Ok(blocks)
                    && blocks@.len() == old(self).drives().len() && (forall|i: int|
                    0 <= i < blocks@.len() ==> (#[trigger] blocks@[i]).drive_index == i
                        && blocks@[i].device_idx == old(self).handler_count() + i))
                    && final(self).dispatch_table() == allocate_many(
                    old(self).dispatch_table(),
                    old(self).handler_count(),
                    old(self).drives().len(),
                    BLOCK_EVENTS_COUNT,
                ) && final(self).handler_count() == old(self).handler_count() + old(
                    self).drives().len() && (forall|i: int|
                    0 <= i < old(self).drives().len() ==> lookup(
                        final(self).drive_devices(),
                        (#[trigger] old(self).drives()[i]).drive_id,
                    ) == Some((old(self).handler_count() + i) as usize)),
            },
    {
        if let Err(e) = self.insert_root_args() {
            return Err(VmmError::Internal(InternalError::RegisterBlockDevice(e)));
        }
        Ok(self.allocate_block_tokens())
    }

    /// Wires every drive, then every interface.
    pub fn init_devices(&mut self) -> (r: Result<(Vec<BlockAttachment<H>>, Vec<NetAttachment<H>>), VmmError>)
        requires
            old(self).wf(),
            old(self).kernel_cmdline() is Some,
        ensures
            final(self).wf(),
            final(self).machine_config() == old(self).machine_config(),
            final(self).drives() == old(self).drives(),
            final(self).state() == old(self).state(),
            match insert_all(
                old(self).kernel_cmdline()->0,
                old(self).cmdline_capacity(),
                root_fragments(old(self).drives()),
            ) {
                Err(e) => r == Err::<(Vec<BlockAttachment<H>>, Vec<NetAttachment<H>>), VmmError>(
                    VmmError::Internal(InternalError::RegisterBlockDevice(e)),
                ),
                Ok(line) => final(self).kernel_cmdline() == Some(line) && (r is Ok
                    <==> all_taps_available(old(self).interfaces())),
            },
    {
        let blocks = match self.attach_block_devices() {
            Ok(b) => b,
            Err(e) => {
                return Err(e);
            },
        };
        match self.attach_net_devices() {
            Ok(nets) => Ok((blocks, nets)),
            Err(e) => Err(e),
        }
    }

    /// Reserves tokens for each interface, in order, and takes its TAP
    /// device; an interface whose TAP device was already taken ends it.
    pub fn attach_net_devices(&mut self) -> (r: Result<Vec<NetAttachment<H>>, VmmError>)
        requires
            old(self).wf(),
        ensures
            final(self).wf(),
            final(self).same_config_but_taps(old(self)),
            final(self).mmio_map() == old(self).mmio_map(),
            final(self).drive_devices() == old(self).drive_devices(),
            final(self).stdin_slot() == old(self).stdin_slot(),
            r is Ok <==> all_taps_available(old(self).interfaces()),
            r is Err ==> r == Err::<Vec<NetAttachment<H>>, VmmError>(
                VmmError::Internal(InternalError::NetDeviceUnconfigured),
            ),
            r matches Ok(nets) ==> {
                &&& final(self).interfaces() == taps_taken(old(self).interfaces())
                &&& final(self).dispatch_table() == allocate_many(
                    old(self).dispatch_table(),
                    old(self).handler_count(),
                    old(self).interfaces().len(),
                    NET_EVENTS_COUNT,
                )
                &&& final(self).handler_count() == old(self).handler_count() + old(self).interfaces().len()
                &&& nets@.len() == old(self).interfaces().len()
                &&& forall|i: int|
                    0 <= i < nets@.len() ==> (#[trigger] nets@[i]).iface_index == i
                        && nets@[i].device_idx == old(self).handler_count() + i
            },
    {
        let ghost old_self = *self;
        let ghost t0 = self.dispatch_table();
        let ghost h0 = self.handler_count();
        let ghost ifaces = self.interfaces();
        let n = self.network_interface_configs.len();
        let mut nets: Vec<NetAttachment<H>> = Vec::new();
        let mut i: usize = 0;
        while i < n
            invariant
                self.wf(),
                self.same_config_but_taps(&old_self),
                old_self == *old(self),
                ifaces == old(self).interfaces(),
                self.drive_devices() == old_self.drive_devices(),
                self.mmio_map() == old_self.mmio_map(),
                self.stdin_slot() == old_self.stdin_slot(),
                n == ifaces.len(),
                i <= n,
                self.interfaces().len() == n,
                forall|j: int| 0 <= j < i ==> (#[trigger] ifaces[j]).has_tap,
                forall|j: int|
                    0 <= j < n ==> #[trigger] self.interfaces()[j] == (if j < i {
                        NetView { has_tap: false, ..ifaces[j] }
                    } else {
                        ifaces[j]
                    }),
                self.dispatch_table() == allocate_many(t0, h0, i as nat, NET_EVENTS_COUNT),
                self.handler_count() == h0 + i,
                nets@.len() == i,
                forall|j: int|
                    0 <= j < i ==> (#[trigger] nets@[j]).iface_index == j && nets@[j].device_idx
                        == h0 + j,
            decreases n - i,
        {
            let device_idx = self.epoll_context.device_handlers_len();
            let (dispatch_base, sender) = self.epoll_context.allocate_tokens(NET_EVENTS_COUNT);
            let ghost before = self.interfaces();
            let taken = self.network_interface_configs.take_tap(i);
            proof {
                let after = self.interfaces();
                assert(after =~= before.update(i as int, NetView { has_tap: false, ..before[i as int] }));
                assert(net_ids_unique(after)) by {
                    assert forall|a: int, b: int|
                        0 <= a < after.len() && 0 <= b < after.len() && a != b implies #[trigger] after[a].iface_id
                            != #[trigger] after[b].iface_id by {
                        assert(after[a].iface_id == before[a].iface_id);
                        assert(after[b].iface_id == before[b].iface_id);
                    }
                }
                assert forall|j: int| 0 <= j < after.len() implies (#[trigger] after[j]).iface_id
                    == old_self.interfaces()[j].iface_id by {
                    assert(after[j].iface_id == before[j].iface_id);
                }
                assert(self.same_config_but_taps(&old_self));
                assert(self.mmio_map() == old_self.mmio_map());
                assert(self.wf());
            }
            assert(before[i as int] == ifaces[i as int]);
            if !taken {
                assert(!ifaces[i as int].has_tap);
                return Err(VmmError::Internal(InternalError::NetDeviceUnconfigured));
            }
            nets.push(NetAttachment { iface_index: i, device_idx, dispatch_base, sender });
            i = i + 1;
        }
        assert(self.interfaces() =~= taps_taken(ifaces));
        Ok(nets)
    }

    /// The configuration but the interfaces' TAP devices is that of `other`.
    pub open spec fn same_config_but_taps(&self, other: &Self) -> bool {
        &&& self.machine_config() == other.machine_config()
        &&& self.drives() == other.drives()
        &&& self.kernel_cmdline() == other.kernel_cmdline()
        &&& self.state() == other.state()
        &&& self.interfaces().len() == other.interfaces().len()
        &&& forall|i: int|
            0 <= i < self.interfaces().len() ==> (#[trigger] self.interfaces()[i]).iface_id
                == other.interfaces()[i].iface_id
    }

    pub closed spec fn stdin_slot(&self) -> int {
        self.epoll_context.stdin_slot()
    }

    /// Registers the exit event under the next token; gives the token.
    fn register_events(&mut self) -> (r: u64)
        requires
            old(self).wf(),
        ensures
            final(self).wf(),
            final(self).same_config(old(self)),
            final(self).mmio_map() == old(self).mmio_map(),
            final(self).drive_devices() == old(self).drive_devices(),
            final(self).handler_count() == old(self).handler_count(),
            final(self).stdin_slot() == old(self).stdin_slot(),
            r == old(self).dispatch_table().len(),
            final(self).exit_event() == Some(r),
            final(self).dispatch_table() == add_event_spec(
                old(self).dispatch_table(),
                EpollDispatch::Exit,
            ),
    {
        let exit = self.epoll_context.add_event((), EpollDispatch::Exit).dispatch_index;
        self.exit_evt = Some(exit);
        exit
    }

    /// Whether the wiring of a boot succeeds, and with which error it fails.
    pub open spec fn start_outcome(&self) -> Result<(), VmmError> {
        if !is_pre_boot_state(self.state()) {
            Err(VmmError::User(UserError::MicroVMAlreadyRunning))
        } else if self.kernel_cmdline() is None {
            Err(VmmError::User(UserError::MissingKernelConfig))
        } else {
            match insert_all(
                self.kernel_cmdline()->0,
                self.cmdline_capacity(),
                root_fragments(self.drives()),
            ) {
                Err(e) => Err(VmmError::Internal(InternalError::RegisterBlockDevice(e))),
                Ok(_) => if all_taps_available(self.interfaces()) {
                    Ok(())
                } else {
                    Err(VmmError::Internal(InternalError::NetDeviceUnconfigured))
                },
            }
        }
    }

    /// The first phase of a boot, the wiring of the configuration: refused
    /// after boot and without a kernel; otherwise the state becomes
    /// `Starting`, the root drive's arguments are added to the kernel command
    /// line, every drive and interface gets its tokens (each interface taking
    /// its TAP device) and the exit event is registered. The guest is then
    /// built from the plan, and `finish_start` ends the boot.
    pub fn start_instance(&mut self) -> (r: Result<BootPlan<H>, VmmError>)
        requires
            old(self).wf(),
        ensures
            final(self).wf(),
            final(self).machine_config() == old(self).machine_config(),
            final(self).drives() == old(self).drives(),
            final(self).mmio_map() == old(self).mmio_map(),
            r is Ok <==> old(self).start_outcome() is Ok,
            r matches Err(e) ==> old(self).start_outcome() == Err::<(), VmmError>(e),
            !is_pre_boot_state(old(self).state()) ==> r == Err::<BootPlan<H>, VmmError>(
                VmmError::User(UserError::MicroVMAlreadyRunning),
            ) && final(self).same_config(old(self)) && final(self).dispatch_table() == old(
                self).dispatch_table() && final(self).exit_event() == old(self).exit_event(),
            is_pre_boot_state(old(self).state()) && old(self).kernel_cmdline() is None ==> r
                == Err::<BootPlan<H>, VmmError>(VmmError::User(UserError::MissingKernelConfig))
                && final(self).same_config(old(self)) && final(self).dispatch_table() == old(
                self).dispatch_table() && final(self).exit_event() == old(self).exit_event(),
            is_pre_boot_state(old(self).state()) && old(self).kernel_cmdline() is Some ==> {
                &&& final(self).state() == InstanceState::Starting
                &&& match insert_all(
                    old(self).kernel_cmdline()->0,
                    old(self).cmdline_capacity(),
                    root_fragments(old(self).drives()),
                ) {
                    Err(e) => r == Err::<BootPlan<H>, VmmError>(
                        VmmError::Internal(InternalError::RegisterBlockDevice(e)),
                    ),
                    Ok(line) => {
                        &&& final(self).kernel_cmdline() == Some(line)
                        &&& (r is Ok <==> all_taps_available(old(self).interfaces()))
                        &&& (r is Err ==> r == Err::<BootPlan<H>, VmmError>(
                            VmmError::Internal(InternalError::NetDeviceUnconfigured),
                        ))
                    },
                }
            },
            r matches Ok(plan) ==> {
                let h = old(self).handler_count();
                let nd = old(self).drives().len();
                let ni = old(self).interfaces().len();
                &&& final(self).interfaces() == taps_taken(old(self).interfaces())
                &&& final(self).dispatch_table() == boot_table(
                    old(self).dispatch_table(),
                    h,
                    nd,
                    ni,
                )
                &&& final(self).exit_event() == Some(plan.exit_dispatch_index)
                &&& final(self).state() == InstanceState::Starting
                &&& plan.exit_dispatch_index == allocate_many(
                    allocate_many(old(self).dispatch_table(), h, nd, BLOCK_EVENTS_COUNT),
                    h + nd,
                    ni,
                    NET_EVENTS_COUNT,
                ).len()
                &&& plan.blocks@.len() == nd
                &&& (forall|i: int|
                    0 <= i < nd ==> (#[trigger] plan.blocks@[i]).drive_index == i
                        && plan.blocks@[i].device_idx == h + i)
                &&& (forall|i: int|
                    0 <= i < nd ==> lookup(
                        final(self).drive_devices(),
                        (#[trigger] old(self).drives()[i]).drive_id,
                    ) == Some((h + i) as usize))
                &&& plan.nets@.len() == ni
                &&& (forall|i: int|
                    0 <= i < ni ==> (#[trigger] plan.nets@[i]).iface_index == i
                        && plan.nets@[i].device_idx == h + nd + i)
            },
    {
        if self.is_instance_initialized() {
            return Err(VmmError::User(UserError::MicroVMAlreadyRunning));
        }
        if let Err(e) = self.check_health() {
            return Err(e);
        }
        self.shared_info.state = InstanceState::Starting;
        if let Err(e) = self.insert_root_args() {
            return Err(VmmError::Internal(InternalError::RegisterBlockDevice(e)));
        }
        let ghost mid = *self;
        let blocks = self.allocate_block_tokens();
        let ghost mid2 = *self;
        let nets = match self.attach_net_devices() {
            Ok(n) => n,
            Err(e) => {
                return Err(e);
            },
        };
        proof {
            assert forall|i: int| 0 <= i < old(self).drives().len() implies lookup(
                self.drive_devices(),
                (#[trigger] old(self).drives()[i]).drive_id,
            ) == Some((old(self).handler_count() + i) as usize) by {
                assert(lookup(mid2.drive_devices(), old(self).drives()[i].drive_id) == Some((old(self).handler_count() + i) as usize));
            }
        }
        let exit_dispatch_index = self.register_events();
        Ok(BootPlan { blocks, nets, exit_dispatch_index })
    }

    /// What a rescan of drive `id` decides: refused before boot; the drive
    /// must have an MMIO address and a configuration; gives the address and
    /// the backing file.
    pub open spec fn rescan_outcome(&self, id: Seq<char>) -> Result<(u64, Seq<char>), DriveError> {
        if is_pre_boot_state(self.state()) {
            Err(DriveError::OperationNotAllowedPreBoot)
        } else {
            match lookup(self.mmio_map(), id) {
                None => Err(DriveError::InvalidBlockDeviceID),
                Some(a) => if contains_id(self.drives(), id) {
                    Ok((a, self.drives()[index_of_id(self.drives(), id)].path_on_host))
                } else {
                    Err(DriveError::BlockDeviceUpdateFailed)
                },
            }
        }
    }

    /// The outcome of pointing drive `id` at `path` in `old`, giving `new`
    /// and `r`: `file_opened` and `path_exists` are what the host found of
    /// the file. Before boot only the table changes. After boot the drive's
    /// device index must have been recorded and its handler be installed
    /// (whether a handler not yet installed has been sent is up to the
    /// sending side), then the rescan is decided.
    pub open spec fn set_path_post(
        old: &Self,
        new: &Self,
        id: Seq<char>,
        path: Seq<char>,
        file_opened: bool,
        path_exists: bool,
        r: Result<Option<LiveDriveUpdate>, DriveError>,
    ) -> bool {
        if !contains_id(old.drives(), id) {
            r == Err::<Option<LiveDriveUpdate>, _>(DriveError::InvalidBlockDeviceID)
                && new.drives() == old.drives()
        } else if !file_opened {
            r == Err::<Option<LiveDriveUpdate>, _>(DriveError::CannotOpenBlockDevice)
                && new.drives() == old.drives()
        } else {
            let cfg = old.drives()[index_of_id(old.drives(), id)];
            let updated = BlockDeviceView { path_on_host: path, ..cfg };
            match update_spec(old.drives(), updated, path_exists) {
                Err(e) => r == Err::<Option<LiveDriveUpdate>, _>(e) && new.drives() == old.drives(),
                Ok(t) => new.drives() == t && if is_pre_boot_state(old.state()) {
                    r matches Ok(None)
                } else {
                    match lookup(old.drive_devices(), id) {
                        None => r == Err::<Option<LiveDriveUpdate>, _>(
                            DriveError::BlockDeviceUpdateFailed,
                        ),
                        Some(d) => {
                            &&& (old.handler_installed(d as int) ==> live_update_matches(
                                r,
                                d,
                                new.rescan_outcome(id),
                            ))
                            &&& (!old.handler_installed(d as int) ==> (r == Err::<
                                Option<LiveDriveUpdate>,
                                _,
                            >(DriveError::BlockDeviceUpdateFailed) || live_update_matches(
                                r,
                                d,
                                new.rescan_outcome(id),
                            )))
                        },
                    }
                }
            }
        }
    }

    /// The outcome of a boot source request on `old`, giving `new` and `r`.
    pub open spec fn boot_source_post(
        old: &Self,
        new: &Self,
        kernel_file_opened: bool,
        kernel_cmdline: Option<Seq<char>>,
        r: Result<(), BootSourceConfigError>,
    ) -> bool {
        let args = match kernel_cmdline {
            Some(s) => s,
            None => DEFAULT_KERNEL_CMDLINE@,
        };
        &&& (r is Err ==> new.kernel_cmdline() == old.kernel_cmdline() && new.cmdline_capacity()
            == old.cmdline_capacity())
        &&& if !is_pre_boot_state(old.state()) {
            r == Err::<(), _>(BootSourceConfigError::UpdateNotAllowedPostBoot)
        } else if !kernel_file_opened {
            r == Err::<(), _>(BootSourceConfigError::InvalidKernelPath)
        } else {
            match cmdline_insert_spec(Seq::empty(), CMDLINE_MAX_SIZE as nat, args) {
                Ok(l) => r is Ok && new.kernel_cmdline() == Some(l) && new.cmdline_capacity()
                    == CMDLINE_MAX_SIZE,
                Err(_) => r == Err::<(), _>(BootSourceConfigError::InvalidKernelCommandLine),
            }
        }
    }

    /// The outcome of a logger request on `self`.
    pub open spec fn logger_post(
        &self,
        api_logger: APILoggerDescription,
        r: Result<LoggerSettings, APILoggerError>,
    ) -> bool {
        if !is_pre_boot_state(self.state()) {
            r matches Err(APILoggerError::InitializationFailure(m)) && m@ == LOGGER_AFTER_BOOT@
        } else {
            r matches Ok(s) && s.log_fifo@ == api_logger.log_fifo@ && s.metrics_fifo@
                == api_logger.metrics_fifo@ && s.include_level == api_logger.show_level
                && s.include_origin == api_logger.show_log_origin && s.instance_id@
                == self.id_view() && s.level == match api_logger.level {
                Some(l) => Some(level_of(l)),
                None => None,
            }
        }
    }

    /// Records the MMIO address the device of drive `drive_id` was given.
    pub fn set_mmio_address(&mut self, drive_id: String, address: u64)
        requires
            old(self).wf(),
        ensures
            final(self).wf(),
            final(self).same_config(old(self)),
            final(self).dispatch_table() == old(self).dispatch_table(),
            final(self).mmio_map() == seq![(drive_id@, address)] + old(self).mmio_map(),
    {
        let ghost before = self.mmio_map();
        let ghost id = drive_id@;
        self.mmio_addresses.insert(0, (drive_id, address));
        assert(self.mmio_map() =~= seq![(id, address)] + before);
    }

    /// Forgets the MMIO address of drive `drive_id`.
    pub fn remove_mmio_address(&mut self, drive_id: &str)
        requires
            old(self).wf(),
        ensures
            final(self).wf(),
            final(self).same_config(old(self)),
            final(self).dispatch_table() == old(self).dispatch_table(),
            lookup(final(self).mmio_map(), drive_id@) is None,
            forall|k: Seq<char>|
                k != drive_id@ ==> #[trigger] lookup(final(self).mmio_map(), k) == lookup(
                    old(self).mmio_map(),
                    k,
                ),
    {
        let ghost m0 = self.mmio_map();
        let mut kept: Vec<(String, u64)> = Vec::new();
        let mut i: usize = 0;
        while i < self.mmio_addresses.len()
            invariant
                m0 == pairs_view(self.mmio_addresses@),
                i <= m0.len(),
                lookup(pairs_view(kept@), drive_id@) is None,
                forall|k: Seq<char>|
                    k != drive_id@ ==> #[trigger] lookup(pairs_view(kept@), k) == lookup(
                        m0.subrange(0, i as int),
                        k,
                    ),
            decreases m0.len() - i,
        {
            let ghost prefix = m0.subrange(0, i as int);
            let ghost kv = pairs_view(kept@);
            proof {
                assert(m0.subrange(0, i + 1) =~= prefix.push(m0[i as int]));
                assert forall|k: Seq<char>| #![auto] true implies lookup(prefix.push(m0[i as int]), k)
                    == (if lookup(prefix, k) is Some { lookup(prefix, k) } else if m0[i as int].0 == k {
                    Some(m0[i as int].1) } else { None }) by {
                    lemma_lookup_push(prefix, m0[i as int], k);
                }
            }
            if !str_eq(self.mmio_addresses[i].0.as_str(), drive_id) {
                let entry = (self.mmio_addresses[i].0.clone(), self.mmio_addresses[i].1);
                kept.push(entry);
                proof {
                    assert(pairs_view(kept@) =~= kv.push(m0[i as int]));
                    assert forall|k: Seq<char>| #![auto] true implies lookup(kv.push(m0[i as int]), k)
                        == (if lookup(kv, k) is Some { lookup(kv, k) } else if m0[i as int].0 == k {
                        Some(m0[i as int].1) } else { None }) by {
                        lemma_lookup_push(kv, m0[i as int], k);
                    }
                }
            }
            i = i + 1;
        }
        proof {
            assert(m0.subrange(0, m0.len() as int) =~= m0);
        }
        self.mmio_addresses = kept;
    }

    /// Decides a rescan of drive `drive_id`: refused before boot; the drive
    /// must have an MMIO address and a configuration. Gives the address and
    /// the backing file, whose size the device is then told.
    pub fn rescan_block_device(&self, drive_id: &str) -> (r: Result<RescanTarget, DriveError>)
        requires
            self.wf(),
        ensures
            rescan_matches(r, self.rescan_outcome(drive_id@)),
    {
        if !self.is_instance_initialized() {
            return Err(DriveError::OperationNotAllowedPreBoot);
        }
        let address = match find_pair(&self.mmio_addresses, drive_id) {
            Some(a) => a,
            None => {
                return Err(DriveError::InvalidBlockDeviceID);
            },
        };
        match self.block_device_configs.position(drive_id) {
            Some(i) => {
                assert(i == index_of_id(self.drives(), drive_id@));
                Ok(
                    RescanTarget {
                        address,
                        path_on_host: self.block_device_configs.get(i).path_on_host.clone(),
                    },
                )
            },
            None => Err(DriveError::BlockDeviceUpdateFailed),
        }
    }

    /// The device index of drive `drive_id`, recorded at boot.
    pub fn drive_device_index(&self, drive_id: &str) -> (r: Option<usize>)
        ensures
            r == lookup(self.drive_devices(), drive_id@),
    {
        find_pair(&self.drive_handler_id_map, drive_id)
    }

    /// The handler of device `device_idx`, installed from its channel on
    /// first use.
    pub fn get_device_handler(&mut self, device_idx: usize) -> (r: Result<&mut H, DispatchError>)
        requires
            old(self).wf(),
            device_idx < old(self).handler_count(),
        ensures
            final(self).wf(),
            final(self).same_config(old(self)),
            final(self).dispatch_table() == old(self).dispatch_table(),
            final(self).handler_count() == old(self).handler_count(),
            final(self).mmio_map() == old(self).mmio_map(),
            final(self).drive_devices() == old(self).drive_devices(),
            final(self).exit_event() == old(self).exit_event(),
            old(self).handler_installed(device_idx as int) ==> r is Ok,
            r is Err ==> !old(self).handler_installed(device_idx as int),
    {
        self.epoll_context.get_device_handler(device_idx)
    }

    /// Points drive `drive_id` at a new backing file; `file_opened` tells
    /// whether the file opened with the drive's permissions, `path_exists`
    /// whether it exists. After boot the drive's handler must be installed,
    /// and the rescan is decided as `rescan_block_device` decides it: the
    /// caller then hands the file to the handler and rescans.
    pub fn set_block_device_path(
        &mut self,
        drive_id: &str,
        path_on_host: String,
        file_opened: bool,
        path_exists: bool,
    ) -> (r: Result<Option<LiveDriveUpdate>, DriveError>)
        requires
            old(self).wf(),
        ensures
            final(self).wf(),
            final(self).machine_config() == old(self).machine_config(),
            final(self).interfaces() == old(self).interfaces(),
            final(self).kernel_cmdline() == old(self).kernel_cmdline(),
            final(self).cmdline_capacity() == old(self).cmdline_capacity(),
            final(self).state() == old(self).state(),
            final(self).mmio_map() == old(self).mmio_map(),
            final(self).drive_devices() == old(self).drive_devices(),
            final(self).dispatch_table() == old(self).dispatch_table(),
            final(self).exit_event() == old(self).exit_event(),
            Self::set_path_post(
                old(self),
                final(self),
                drive_id@,
                path_on_host@,
                file_opened,
                path_exists,
                r,
            ),
            r matches Ok(Some(u)) ==> final(self).handler_count() > u.device_idx,
    {
        let ghost path_view = path_on_host@;
        let i = match self.block_device_configs.position(drive_id) {
            Some(i) => i,
            None => {
                return Err(DriveError::InvalidBlockDeviceID);
            },
        };
        if !file_opened {
            return Err(DriveError::CannotOpenBlockDevice);
        }
        let current = self.block_device_configs.get(i);
        let updated = BlockDeviceConfig {
            drive_id: current.drive_id.clone(),
            path_on_host,
            is_root_device: current.is_root_device,
            partuuid: current.partuuid.clone(),
            is_read_only: current.is_read_only,
            rate_limiter: current.rate_limiter,
        };
        assert(i == index_of_id(self.drives(), drive_id@));
        assert(updated@ == BlockDeviceView { path_on_host: path_on_host@, ..self.drives()[i as int] });
        if let Err(e) = self.block_device_configs.update(updated, path_exists) {
            return Err(e);
        }
        if !self.is_instance_initialized() {
            return Ok(None);
        }
        let device_idx = match find_pair(&self.drive_handler_id_map, drive_id) {
            Some(d) => d,
            None => {
                return Err(DriveError::BlockDeviceUpdateFailed);
            },
        };
        proof {
            lemma_lookup_in(self.drive_devices(), drive_id@);
        }
        assert(device_idx < self.epoll_context.handler_count());
        if self.epoll_context.get_device_handler(device_idx).is_err() {
            return Err(DriveError::BlockDeviceUpdateFailed);
        }
        match self.rescan_block_device(drive_id) {
            Ok(rescan) => Ok(Some(LiveDriveUpdate { device_idx, rescan })),
            Err(e) => Err(e),
        }
    }
}

/// Looking up a key after one more pair.
pub proof fn lemma_lookup_push<T>(s: Seq<(Seq<char>, T)>, x: (Seq<char>, T), k: Seq<char>)
    ensures
        lookup(s.push(x), k) == (if lookup(s, k) is Some {
            lookup(s, k)
        } else if x.0 == k {
            Some(x.1)
        } else {
            None
        }),
    decreases s.len(),
{
    if s.len() > 0 {
        assert(s.push(x)[0] == s[0]);
        assert(s.push(x).drop_first() =~= s.drop_first().push(x));
        lemma_lookup_push(s.drop_first(), x, k);
    } else {
        assert(s.push(x)[0] == x);
        assert(s.push(x).drop_first() =~= Seq::<(Seq<char>, T)>::empty());
        assert(lookup(Seq::<(Seq<char>, T)>::empty(), k) is None);
    }
}

/// A value found by `lookup` is one of the pairs' values.
pub proof fn lemma_lookup_in<T>(s: Seq<(Seq<char>, T)>, k: Seq<char>)
    ensures
        lookup(s, k) matches Some(v) ==> exists|i: int| 0 <= i < s.len() && s[i].1 == v,
    decreases s.len(),
{
    if s.len() > 0 && s[0].0 != k {
        lemma_lookup_in(s.drop_first(), k);
        if let Some(v) = lookup(s, k) {
            let i = choose|i: int| 0 <= i < s.drop_first().len() && s.drop_first()[i].1 == v;
            assert(s[i + 1].1 == v);
        }
    }
}

/// The kernel image named by a boot source request.
#[derive(Clone, Debug)]
pub struct LocalImage {
    pub kernel_image_path: String,
}

/// A boot source request: the kernel image and its optional arguments.
#[derive(Clone, Debug)]
pub struct BootSourceBody {
    pub local_image: Option<LocalImage>,
    pub boot_args: Option<String>,
}

/// A control-plane request.
pub enum VmmAction {
    ConfigureBootSource(BootSourceBody),
    ConfigureLogger(APILoggerDescription),
    GetMachineConfiguration,
    InsertBlockDevice(BlockDeviceConfig),
    InsertNetworkDevice(NetworkInterfaceBody),
    RescanBlockDevice(String),
    StartMicroVm,
    SetVmConfiguration(MachineConfiguration),
    UpdateDrivePath(String, String),
}

/// What the host told of the files a request names: whether the kernel
/// image opened, whether a drive's backing file exists and opened with the
/// drive's permissions, whether the TAP device opened.
#[derive(Clone, Copy, Debug, PartialEq, Eq, Structural)]
pub struct HostChecks {
    pub kernel_file_opened: bool,
    pub path_exists: bool,
    pub file_opened: bool,
    pub tap_opened: bool,
}

/// Why a boot failed, and whose fault it is.
#[derive(Debug)]
pub struct StartFailure {
    pub kind: ErrorType,
    pub error: VmmError,
}

/// The reply to a control-plane request.
#[verifier::reject_recursive_types(H)]
pub enum VmmResponse<H> {
    BootSource(Result<(), BootSourceConfigError>),
    Logger(Result<LoggerSettings, APILoggerError>),
    MachineConfiguration(MachineConfiguration),
    Drive(Result<(), DriveError>),
    NetworkInterface(Result<(), NetworkInterfaceError>),
    Rescan(Result<RescanTarget, DriveError>),
    Start(Result<BootPlan<H>, StartFailure>),
    VmConfiguration(Result<(), PutMachineConfigurationError>),
    DrivePath(Result<Option<LiveDriveUpdate>, DriveError>),
}

/// The request succeeded.
pub open spec fn response_ok<H>(r: VmmResponse<H>) -> bool {
    match r {
        VmmResponse::BootSource(x) => x is Ok,
        VmmResponse::Logger(x) => x is Ok,
        VmmResponse::MachineConfiguration(_) => true,
        VmmResponse::Drive(x) => x is Ok,
        VmmResponse::NetworkInterface(x) => x is Ok,
        VmmResponse::Rescan(x) => x is Ok,
        VmmResponse::Start(x) => x is Ok,
        VmmResponse::VmConfiguration(x) => x is Ok,
        VmmResponse::DrivePath(x) => x is Ok,
    }
}

/// Requests that only a microVM that has not booted may take.
pub open spec fn is_pre_boot_action(a: VmmAction) -> bool {
    match a {
        VmmAction::ConfigureBootSource(_) => true,
        VmmAction::ConfigureLogger(_) => true,
        VmmAction::InsertBlockDevice(_) => true,
        VmmAction::InsertNetworkDevice(_) => true,
        VmmAction::StartMicroVm => true,
        VmmAction::SetVmConfiguration(_) => true,
        _ => false,
    }
}

/// Requests that only a booted microVM may take.
pub open spec fn is_post_boot_action(a: VmmAction) -> bool {
    a is RescanBlockDevice
}

impl<H> Vmm<H> {
    /// Serves one control-plane request. `host` tells what the host found of
    /// the files the request names.
    pub fn run_vmm_action(&mut self, action: VmmAction, host: HostChecks) -> (r: VmmResponse<H>)
        requires
            old(self).wf(),
        ensures
            final(self).wf(),
            final(self).machine_config().wf(),
            response_ok(r) && is_pre_boot_action(action) ==> is_pre_boot_state(old(self).state()),
            response_ok(r) && is_post_boot_action(action) ==> !is_pre_boot_state(
                old(self).state(),
            ),
            !(action is StartMicroVm) ==> final(self).state() == old(self).state(),
            action is StartMicroVm && response_ok(r) ==> final(self).state()
                == InstanceState::Starting,
            !(action is SetVmConfiguration) ==> final(self).machine_config() == old(self).machine_config(),
            match action {
                VmmAction::ConfigureBootSource(body) => (r matches VmmResponse::BootSource(x) && (
                if body.local_image is None {
                    x == Err::<(), BootSourceConfigError>(BootSourceConfigError::EmptyKernelPath)
                        && final(self).kernel_cmdline() == old(self).kernel_cmdline()
                        && final(self).cmdline_capacity() == old(self).cmdline_capacity()
                } else {
                    Self::boot_source_post(
                        old(self),
                        final(self),
                        host.kernel_file_opened,
                        match body.boot_args {
                            Some(a) => Some(a@),
                            None => None,
                        },
                        x,
                    )
                })),
                VmmAction::ConfigureLogger(d) => (r matches VmmResponse::Logger(x) && old(
                    self).logger_post(d, x)) && final(self).same_config(old(self)),
                VmmAction::GetMachineConfiguration => r == VmmResponse::<H>::MachineConfiguration(
                    old(self).machine_config(),
                ) && final(self).same_config(old(self)),
                VmmAction::InsertBlockDevice(c) => r is Drive && (is_pre_boot_state(
                    old(self).state(),
                ) ==> match insert_spec(old(self).drives(), c@, host.path_exists) {
                    Ok(t) => (r matches VmmResponse::Drive(x) && x is Ok) && final(self).drives() == t,
                    Err(e) => r == VmmResponse::<H>::Drive(Err(e)) && final(self).drives() == old(self).drives(),
                }),
                VmmAction::InsertNetworkDevice(b) => r is NetworkInterface && (is_pre_boot_state(
                    old(self).state(),
                ) ==> match net_insert_spec(old(self).interfaces(), body_config(b), host.tap_opened) {
                    Ok(t) => (r matches VmmResponse::NetworkInterface(x) && x is Ok)
                        && final(self).interfaces() == t,
                    Err(e) => r == VmmResponse::<H>::NetworkInterface(Err(e)),
                }),
                VmmAction::RescanBlockDevice(id) => (r matches VmmResponse::Rescan(x)
                    && rescan_matches(x, old(self).rescan_outcome(id@))) && final(self).same_config(
                    old(self)),
                VmmAction::StartMicroVm => (r matches VmmResponse::Start(x) && (x is Ok <==> old(
                    self).start_outcome() is Ok) && (x matches Err(f) ==> old(self).start_outcome()
                    == Err::<(), VmmError>(f.error) && f.kind == error_type_of(f.error))),
                VmmAction::SetVmConfiguration(c) => r is VmConfiguration && (is_pre_boot_state(
                    old(self).state(),
                ) ==> match old(self).machine_config().updated_by(c) {
                    Ok(n) => (r matches VmmResponse::VmConfiguration(x) && x is Ok)
                        && final(self).machine_config() == n,
                    Err(e) => r == VmmResponse::<H>::VmConfiguration(Err(e)),
                }),
                VmmAction::UpdateDrivePath(id, path) => (r matches VmmResponse::DrivePath(x)
                    && Self::set_path_post(
                    old(self),
                    final(self),
                    id@,
                    path@,
                    host.file_opened,
                    host.path_exists,
                    x,
                )),
            },
    {
        match action {
            VmmAction::ConfigureBootSource(body) => {
                if body.local_image.is_some() {
                    let res = self.configure_boot_source(host.kernel_file_opened, body.boot_args);
                    VmmResponse::BootSource(res)
                } else {
                    VmmResponse::BootSource(Err(BootSourceConfigError::EmptyKernelPath))
                }
            },
            VmmAction::ConfigureLogger(desc) => VmmResponse::Logger(self.init_logger(desc)),
            VmmAction::GetMachineConfiguration => VmmResponse::MachineConfiguration(self.vm_config()),
            VmmAction::InsertBlockDevice(c) => VmmResponse::Drive(
                self.insert_block_device(c, host.path_exists),
            ),
            VmmAction::InsertNetworkDevice(b) => VmmResponse::NetworkInterface(
                self.insert_net_device(b, host.tap_opened),
            ),
            VmmAction::RescanBlockDevice(id) => VmmResponse::Rescan(
                self.rescan_block_device(id.as_str()),
            ),
            VmmAction::StartMicroVm => match self.start_instance() {
                Ok(plan) => VmmResponse::Start(Ok(plan)),
                Err(e) => {
                    let kind = match e {
                        VmmError::User(_) => ErrorType::UserError,
                        VmmError::Internal(_) => ErrorType::InternalError,
                    };
                    VmmResponse::Start(Err(StartFailure { kind, error: e }))
                },
            },
            VmmAction::SetVmConfiguration(c) => VmmResponse::VmConfiguration(
                self.set_vm_configuration(c),
            ),
            VmmAction::UpdateDrivePath(id, path) => VmmResponse::DrivePath(
                self.set_block_device_path(id.as_str(), path, host.file_opened, host.path_exists),
            ),
        }
    }

    /// What standard input's readiness leads to: the bytes read go to the
    /// serial console; end of input, or a failed read, unregisters it.
    pub fn handle_stdin_read(&mut self, read: Option<usize>) -> (r: Option<usize>)
        requires
            old(self).wf(),
        ensures
            final(self).wf(),
            final(self).same_config(old(self)),
            (read is Some && read->0 > 0) ==> r == read && final(self).dispatch_table() == old(self).dispatch_table(),
            !(read is Some && read->0 > 0) ==> r is None && final(self).dispatch_table() == old(self).dispatch_table().update(old(self).stdin_slot(), None),
    {
        match read {
            Some(n) => {
                if n > 0 {
                    return Some(n);
                }
            },
            None => {},
        }
        self.epoll_context.disable_stdin_event();
        None
    }

    /// The monitor's part of stopping: the exit event's slot is emptied and
    /// standard input unregistered. Gives the exit event's token, if it was
    /// registered, so that its descriptor can be removed too.
    pub fn stop(&mut self) -> (r: Option<u64>)
        requires
            old(self).wf(),
        ensures
            final(self).wf(),
            final(self).same_config(old(self)),
            r == old(self).exit_event(),
            final(self).exit_event() is None,
            r matches Some(i) ==> final(self).dispatch_table() == old(self).dispatch_table().update(
                i as int,
                None,
            ).update(old(self).stdin_slot(), None),
            r is None ==> final(self).dispatch_table() == old(self).dispatch_table().update(
                old(self).stdin_slot(),
                None,
            ),
    {
        let exit = self.exit_evt.take();
        if let Some(i) = exit {
            self.epoll_context.remove_event(
                crate::dispatch::EpollEvent { dispatch_index: i, fd: () },
            );
        }
        self.epoll_context.disable_stdin_event();
        exit
    }

    /// Every monitor that the library's functions produce keeps its drive
    /// table in order: drive ids are unique, at most one drive is the root
    /// and a root drive is the first.
    pub proof fn lemma_drives_single_root(&self)
        requires
            self.wf(),
        ensures
            configs_wf(self.drives()),
            forall|i: int| 0 < i < self.drives().len() ==> !(#[trigger] self.drives()[i]).is_root_device,
    {
    }

    /// Records whether standard input could be registered as a source: only
    /// then is its slot marked.
    pub fn enable_stdin_event(&mut self, registered: bool)
        requires
            old(self).wf(),
        ensures
            final(self).wf(),
            final(self).same_config(old(self)),
            final(self).exit_event() == old(self).exit_event(),
            registered ==> final(self).dispatch_table() == old(self).dispatch_table().update(
                old(self).stdin_slot(),
                Some(EpollDispatch::Stdin),
            ),
            !registered ==> final(self).dispatch_table() == old(self).dispatch_table(),
    {
        self.epoll_context.enable_stdin_event(registered);
    }

    /// The second phase of a boot: takes whether the guest was built and
    /// started from the plan. A boot under way then ends `Running`; a failed
    /// one stays `Starting` and is to be stopped.
    pub fn finish_start(&mut self, booted: bool) -> (r: Result<(), VmmError>)
        requires
            old(self).wf(),
        ensures
            final(self).wf(),
            final(self).machine_config() == old(self).machine_config(),
            final(self).drives() == old(self).drives(),
            final(self).interfaces() == old(self).interfaces(),
            final(self).kernel_cmdline() == old(self).kernel_cmdline(),
            final(self).dispatch_table() == old(self).dispatch_table(),
            final(self).exit_event() == old(self).exit_event(),
            old(self).state() != InstanceState::Starting ==> r == Err::<(), VmmError>(
                VmmError::Internal(InternalError::BootNotInProgress),
            ) && final(self).state() == old(self).state(),
            old(self).state() == InstanceState::Starting && booted ==> r is Ok && final(
                self).state() == InstanceState::Running,
            old(self).state() == InstanceState::Starting && !booted ==> r == Err::<(), VmmError>(
                VmmError::Internal(InternalError::GuestBootFailed),
            ) && final(self).state() == InstanceState::Starting,
    {
        if self.shared_info.state != InstanceState::Starting {
            return Err(VmmError::Internal(InternalError::BootNotInProgress));
        }
        if !booted {
            return Err(VmmError::Internal(InternalError::GuestBootFailed));
        }
        self.shared_info.state = InstanceState::Running;
        Ok(())
    }
}

impl APILoggerDescription {
    /// The control-plane request this description makes.
    pub fn into_parsed_request(self) -> (r: Result<VmmAction, String>)
        ensures
            r matches Ok(VmmAction::ConfigureLogger(d)) && d == self,
    {
        Ok(VmmAction::ConfigureLogger(self))
    }
}

} // verus!
