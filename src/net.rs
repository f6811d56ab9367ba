use vstd::prelude::*;
use vstd::string::*;

use crate::block::RateLimiterDescription;
use crate::text::str_eq;

verus! {

/// A 48-bit Ethernet address.
#[derive(Clone, Copy, Debug, PartialEq, Eq, Structural)]
pub struct MacAddr {
    pub value: u64,
}

/// The state a network interface is asked to be in.
#[derive(Clone, Copy, Debug, PartialEq, Eq, Structural)]
pub enum DeviceState {
    Attached,
}

/// Why a network interface request was refused.
#[derive(Clone, Copy, Debug, PartialEq, Eq, Structural)]
pub enum NetworkInterfaceError {
    GuestMacAddressInUse,
    HostDeviceNameInUse,
    OpenTap,
    UpdateNotAllowPostBoot,
}

/// A network interface as a request describes it.
#[derive(Clone, Debug)]
pub struct NetworkInterfaceBody {
    pub iface_id: String,
    pub state: DeviceState,
    pub host_dev_name: String,
    pub guest_mac: Option<MacAddr>,
    pub rx_rate_limiter: Option<RateLimiterDescription>,
    pub tx_rate_limiter: Option<RateLimiterDescription>,
    pub allow_mmds_requests: bool,
}

/// A configured interface; `has_tap` tells whether its TAP device is still
/// there to be taken by the device that is built at boot.
pub struct NetworkInterfaceConfig {
    pub iface_id: String,
    pub host_dev_name: String,
    pub guest_mac: Option<MacAddr>,
    pub rx_rate_limiter: Option<RateLimiterDescription>,
    pub tx_rate_limiter: Option<RateLimiterDescription>,
    pub allow_mmds_requests: bool,
    pub has_tap: bool,
}

pub struct NetView {
    pub iface_id: Seq<char>,
    pub host_dev_name: Seq<char>,
    pub guest_mac: Option<MacAddr>,
    pub rx_rate_limiter: Option<RateLimiterDescription>,
    pub tx_rate_limiter: Option<RateLimiterDescription>,
    pub allow_mmds_requests: bool,
    pub has_tap: bool,
}

impl View for NetworkInterfaceConfig {
    type V = NetView;

    open spec fn view(&self) -> NetView {
        NetView {
            iface_id: self.iface_id@,
            host_dev_name: self.host_dev_name@,
            guest_mac: self.guest_mac,
            rx_rate_limiter: self.rx_rate_limiter,
            tx_rate_limiter: self.tx_rate_limiter,
            allow_mmds_requests: self.allow_mmds_requests,
            has_tap: self.has_tap,
        }
    }
}

/// The configuration a request gives, with its TAP device open.
pub open spec fn body_config(b: NetworkInterfaceBody) -> NetView {
    NetView {
        iface_id: b.iface_id@,
        host_dev_name: b.host_dev_name@,
        guest_mac: b.guest_mac,
        rx_rate_limiter: b.rx_rate_limiter,
        tx_rate_limiter: b.tx_rate_limiter,
        allow_mmds_requests: b.allow_mmds_requests,
        has_tap: true,
    }
}

pub open spec fn net_ids_unique(s: Seq<NetView>) -> bool {
    forall|i: int, j: int|
        0 <= i < s.len() && 0 <= j < s.len() && i != j ==> #[trigger] s[i].iface_id
            != #[trigger] s[j].iface_id
}

pub open spec fn contains_iface(s: Seq<NetView>, id: Seq<char>) -> bool {
    exists|i: int| 0 <= i < s.len() && (#[trigger] s[i]).iface_id == id
}

pub open spec fn index_of_iface(s: Seq<NetView>, id: Seq<char>) -> int {
    choose|i: int| 0 <= i < s.len() && (#[trigger] s[i]).iface_id == id
}

/// Another interface than `id` uses the host device `name`.
pub open spec fn host_name_taken(s: Seq<NetView>, id: Seq<char>, name: Seq<char>) -> bool {
    exists|j: int| 0 <= j < s.len() && (#[trigger] s[j]).iface_id != id && s[j].host_dev_name == name
}

/// Another interface than `id` uses the guest address `mac`.
pub open spec fn mac_taken(s: Seq<NetView>, id: Seq<char>, mac: MacAddr) -> bool {
    exists|j: int| 0 <= j < s.len() && (#[trigger] s[j]).iface_id != id && s[j].guest_mac == Some(mac)
}

/// Inserting an interface: host device names and guest addresses stay
/// unique, the TAP device must have opened, and a known id is replaced in
/// place.
pub open spec fn net_insert_spec(s: Seq<NetView>, cfg: NetView, tap_opened: bool) -> Result<
    Seq<NetView>,
    NetworkInterfaceError,
> {
    if host_name_taken(s, cfg.iface_id, cfg.host_dev_name) {
        Err(NetworkInterfaceError::HostDeviceNameInUse)
    } else if cfg.guest_mac matches Some(m) && mac_taken(s, cfg.iface_id, m) {
        Err(NetworkInterfaceError::GuestMacAddressInUse)
    } else if !tap_opened {
        Err(NetworkInterfaceError::OpenTap)
    } else if contains_iface(s, cfg.iface_id) {
        Ok(s.update(index_of_iface(s, cfg.iface_id), cfg))
    } else {
        Ok(s.push(cfg))
    }
}

pub open spec fn net_views(s: Seq<NetworkInterfaceConfig>) -> Seq<NetView> {
    s.map_values(|c: NetworkInterfaceConfig| c@)
}

/// The network interfaces of a microVM.
pub struct NetworkInterfaceConfigs {
    if_list: Vec<NetworkInterfaceConfig>,
}

impl View for NetworkInterfaceConfigs {
    type V = Seq<NetView>;

    closed spec fn view(&self) -> Seq<NetView> {
        net_views(self.if_list@)
    }
}

impl NetworkInterfaceConfigs {
    pub fn new() -> (r: NetworkInterfaceConfigs)
        ensures
            r@ == Seq::<NetView>::empty(),
    {
        let r = NetworkInterfaceConfigs { if_list: Vec::new() };
        assert(r@ =~= Seq::<NetView>::empty());
        r
    }

    pub fn len(&self) -> (r: usize)
        ensures
            r == self@.len(),
    {
        self.if_list.len()
    }

    pub fn get(&self, i: usize) -> (r: &NetworkInterfaceConfig)
        requires
            i < self@.len(),
        ensures
            r@ == self@[i as int],
    {
        &self.if_list[i]
    }

    /// Adds or replaces an interface; `tap_opened` tells whether its TAP
    /// device could be opened.
    pub fn insert(&mut self, body: NetworkInterfaceBody, tap_opened: bool) -> (r: Result<
        (),
        NetworkInterfaceError,
    >)
        requires
            net_ids_unique(old(self)@),
        ensures
            net_ids_unique(final(self)@),
            match net_insert_spec(old(self)@, body_config(body), tap_opened) {
                Ok(t) => r is Ok && final(self)@ == t,
                Err(e) => r == Err::<(), NetworkInterfaceError>(e) && final(self)@ == old(self)@,
            },
    {
        let ghost s = self@;
        let ghost c = body_config(body);
        let mut pos: Option<usize> = None;
        let mut j: usize = 0;
        while j < self.if_list.len()
            invariant
                s == self@,
                net_ids_unique(s),
                c == body_config(body),
                j <= s.len(),
                pos matches Some(p) ==> p < j && s[p as int].iface_id == c.iface_id,
                pos is None ==> forall|k: int| 0 <= k < j ==> s[k].iface_id != c.iface_id,
                forall|k: int|
                    0 <= k < j && #[trigger] s[k].iface_id != c.iface_id ==> s[k].host_dev_name
                        != c.host_dev_name,
                forall|k: int|
                    0 <= k < j && #[trigger] s[k].iface_id != c.iface_id && c.guest_mac is Some
                        ==> s[k].guest_mac != c.guest_mac,
            decreases s.len() - j,
        {
            let other = &self.if_list[j];
            if str_eq(other.iface_id.as_str(), body.iface_id.as_str()) {
                pos = Some(j);
            } else {
                if str_eq(other.host_dev_name.as_str(), body.host_dev_name.as_str()) {
                    assert(s[j as int].host_dev_name == c.host_dev_name);
                    return Err(NetworkInterfaceError::HostDeviceNameInUse);
                }
                if body.guest_mac.is_some() && other.guest_mac == body.guest_mac {
                    assert(s[j as int].guest_mac == c.guest_mac);
                    if host_name_taken_exec(self, &body) {
                        return Err(NetworkInterfaceError::HostDeviceNameInUse);
                    }
                    return Err(NetworkInterfaceError::GuestMacAddressInUse);
                }
            }
            j = j + 1;
        }
        if !tap_opened {
            return Err(NetworkInterfaceError::OpenTap);
        }
        let cfg = NetworkInterfaceConfig {
            iface_id: body.iface_id,
            host_dev_name: body.host_dev_name,
            guest_mac: body.guest_mac,
            rx_rate_limiter: body.rx_rate_limiter,
            tx_rate_limiter: body.tx_rate_limiter,
            allow_mmds_requests: body.allow_mmds_requests,
            has_tap: true,
        };
        assert(cfg@ == c);
        match pos {
            Some(p) => {
                assert(p == index_of_iface(s, c.iface_id));
                self.if_list.set(p, cfg);
                assert(self@ =~= s.update(p as int, c));
            },
            None => {
                self.if_list.push(cfg);
                assert(self@ =~= s.push(c));
            },
        }
        Ok(())
    }

    /// Takes the TAP device of interface `i`, once: `false` where it was
    /// already taken.
    pub fn take_tap(&mut self, i: usize) -> (r: bool)
        requires
            i < old(self)@.len(),
        ensures
            r == old(self)@[i as int].has_tap,
            final(self)@ == old(self)@.update(
                i as int,
                NetView { has_tap: false, ..old(self)@[i as int] },
            ),
    {
        let had = self.if_list[i].has_tap;
        let ghost s = self@;
        let mut cfg = self.if_list.remove(i);
        cfg.has_tap = false;
        self.if_list.insert(i, cfg);
        assert(self@ =~= s.update(i as int, NetView { has_tap: false, ..s[i as int] }));
        had
    }
}

fn host_name_taken_exec(c: &NetworkInterfaceConfigs, body: &NetworkInterfaceBody) -> (r: bool)
    ensures
        r == host_name_taken(c@, body.iface_id@, body.host_dev_name@),
{
    let mut j: usize = 0;
    while j < c.if_list.len()
        invariant
            j <= c@.len(),
            forall|k: int|
                0 <= k < j && #[trigger] c@[k].iface_id != body.iface_id@ ==> c@[k].host_dev_name
                    != body.host_dev_name@,
        decreases c@.len() - j,
    {
        let other = &c.if_list[j];
        if !str_eq(other.iface_id.as_str(), body.iface_id.as_str()) && str_eq(
            other.host_dev_name.as_str(),
            body.host_dev_name.as_str(),
        ) {
            assert(c@[j as int].iface_id != body.iface_id@);
            return true;
        }
        j = j + 1;
    }
    false
}

} // verus!
