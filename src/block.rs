use vstd::prelude::*;
use vstd::string::*;

use crate::text::str_eq;

verus! {

/// One token bucket of a rate limiter: `size` tokens, refilled over
/// `refill_time` milliseconds, with an optional initial burst.
#[derive(Clone, Copy, Debug, PartialEq, Eq, Structural)]
pub struct TokenBucketDescription {
    pub size: u64,
    pub one_time_burst: Option<u64>,
    pub refill_time: u64,
}

/// Rate limits on bandwidth and on operations.
#[derive(Clone, Copy, Debug, PartialEq, Eq, Structural)]
pub struct RateLimiterDescription {
    pub bandwidth: Option<TokenBucketDescription>,
    pub ops: Option<TokenBucketDescription>,
}

/// Why a block device request was refused.
#[derive(Clone, Copy, Debug, PartialEq, Eq, Structural)]
pub enum DriveError {
    CannotOpenBlockDevice,
    InvalidBlockDeviceID,
    InvalidBlockDevicePath,
    BlockDevicePathAlreadyExists,
    BlockDeviceUpdateFailed,
    OperationNotAllowedPreBoot,
    RootBlockDeviceAlreadyAdded,
    UpdateNotAllowedPostBoot,
}

/// The configuration of one virtio block device.
#[derive(Clone, Debug)]
pub struct BlockDeviceConfig {
    pub drive_id: String,
    pub path_on_host: String,
    pub is_root_device: bool,
    pub partuuid: Option<String>,
    pub is_read_only: bool,
    pub rate_limiter: Option<RateLimiterDescription>,
}

pub open spec fn opt_str_view(o: Option<String>) -> Option<Seq<char>> {
    match o {
        Some(s) => Some(s@),
        None => None,
    }
}

/// The value of a block device configuration, strings taken as text.
pub struct BlockDeviceView {
    pub drive_id: Seq<char>,
    pub path_on_host: Seq<char>,
    pub is_root_device: bool,
    pub partuuid: Option<Seq<char>>,
    pub is_read_only: bool,
    pub rate_limiter: Option<RateLimiterDescription>,
}

impl View for BlockDeviceConfig {
    type V = BlockDeviceView;

    open spec fn view(&self) -> BlockDeviceView {
        BlockDeviceView {
            drive_id: self.drive_id@,
            path_on_host: self.path_on_host@,
            is_root_device: self.is_root_device,
            partuuid: opt_str_view(self.partuuid),
            is_read_only: self.is_read_only,
            rate_limiter: self.rate_limiter,
        }
    }
}

fn opt_str_eq(a: &Option<String>, b: &Option<String>) -> (r: bool)
    ensures
        r == (opt_str_view(*a) == opt_str_view(*b)),
{
    match (a, b) {
        (Some(x), Some(y)) => str_eq(x.as_str(), y.as_str()),
        (None, None) => true,
        _ => false,
    }
}

impl PartialEq for BlockDeviceConfig {
    fn eq(&self, other: &BlockDeviceConfig) -> (r: bool)
        ensures
            r == (self@ == other@),
    {
        str_eq(self.drive_id.as_str(), other.drive_id.as_str()) && str_eq(
            self.path_on_host.as_str(),
            other.path_on_host.as_str(),
        ) && self.is_root_device == other.is_root_device && opt_str_eq(
            &self.partuuid,
            &other.partuuid,
        ) && self.is_read_only == other.is_read_only && self.rate_limiter == other.rate_limiter
    }
}

impl vstd::std_specs::cmp::PartialEqSpecImpl for BlockDeviceConfig {
    open spec fn obeys_eq_spec() -> bool {
        true
    }

    open spec fn eq_spec(&self, other: &BlockDeviceConfig) -> bool {
        self@ == other@
    }
}

pub open spec fn views_of(s: Seq<BlockDeviceConfig>) -> Seq<BlockDeviceView> {
    s.map_values(|c: BlockDeviceConfig| c@)
}

/// Drive ids are unique.
pub open spec fn ids_unique(s: Seq<BlockDeviceView>) -> bool {
    forall|i: int, j: int|
        0 <= i < s.len() && 0 <= j < s.len() && i != j ==> #[trigger] s[i].drive_id
            != #[trigger] s[j].drive_id
}

/// Only the first entry may be a root device: there is at most one, and it
/// is exposed to the guest as the first block device.
pub open spec fn root_first(s: Seq<BlockDeviceView>) -> bool {
    forall|i: int| 0 < i < s.len() ==> !(#[trigger] s[i]).is_root_device
}

pub open spec fn configs_wf(s: Seq<BlockDeviceView>) -> bool {
    ids_unique(s) && root_first(s)
}

pub open spec fn has_root(s: Seq<BlockDeviceView>) -> bool {
    s.len() > 0 && s[0].is_root_device
}

pub open spec fn contains_id(s: Seq<BlockDeviceView>, id: Seq<char>) -> bool {
    exists|i: int| 0 <= i < s.len() && (#[trigger] s[i]).drive_id == id
}

pub open spec fn contains_path(s: Seq<BlockDeviceView>, p: Seq<char>) -> bool {
    exists|i: int| 0 <= i < s.len() && (#[trigger] s[i]).path_on_host == p
}

/// The position of drive `id`.
pub open spec fn index_of_id(s: Seq<BlockDeviceView>, id: Seq<char>) -> int {
    choose|i: int| 0 <= i < s.len() && (#[trigger] s[i]).drive_id == id
}

/// Adding a new drive: its backing file must exist and back no other drive;
/// a root drive goes first, and only where there is no root drive yet.
pub open spec fn add_spec(s: Seq<BlockDeviceView>, cfg: BlockDeviceView, path_exists: bool) -> Result<
    Seq<BlockDeviceView>,
    DriveError,
> {
    if !path_exists {
        Err(DriveError::InvalidBlockDevicePath)
    } else if contains_path(s, cfg.path_on_host) {
        Err(DriveError::BlockDevicePathAlreadyExists)
    } else if cfg.is_root_device {
        if has_root(s) {
            Err(DriveError::RootBlockDeviceAlreadyAdded)
        } else {
            Ok(seq![cfg] + s)
        }
    } else {
        Ok(s.push(cfg))
    }
}

/// Replacing the drive with the id of `cfg`: its backing file must exist, and
/// it may become the root drive only where there is none; a root drive is
/// moved first.
pub open spec fn update_spec(s: Seq<BlockDeviceView>, cfg: BlockDeviceView, path_exists: bool) -> Result<
    Seq<BlockDeviceView>,
    DriveError,
> {
    if !path_exists {
        Err(DriveError::InvalidBlockDevicePath)
    } else if !contains_id(s, cfg.drive_id) {
        Err(DriveError::InvalidBlockDeviceID)
    } else {
        let i = index_of_id(s, cfg.drive_id);
        if !s[i].is_root_device && cfg.is_root_device && has_root(s) {
            Err(DriveError::RootBlockDeviceAlreadyAdded)
        } else if cfg.is_root_device {
            Ok(seq![cfg] + s.remove(i))
        } else {
            Ok(s.update(i, cfg))
        }
    }
}

/// An insert is an update where the drive id is known, an add otherwise.
pub open spec fn insert_spec(s: Seq<BlockDeviceView>, cfg: BlockDeviceView, path_exists: bool) -> Result<
    Seq<BlockDeviceView>,
    DriveError,
> {
    if contains_id(s, cfg.drive_id) {
        update_spec(s, cfg, path_exists)
    } else {
        add_spec(s, cfg, path_exists)
    }
}

/// Whatever the inserts, drive ids stay unique and a root drive, if any,
/// stays first.
pub proof fn lemma_insert_keeps_single_root(
    s: Seq<BlockDeviceView>,
    cfg: BlockDeviceView,
    path_exists: bool,
)
    requires
        configs_wf(s),
    ensures
        insert_spec(s, cfg, path_exists) matches Ok(t) ==> configs_wf(t),
{
    if let Ok(t) = insert_spec(s, cfg, path_exists) {
        if contains_id(s, cfg.drive_id) {
            let i = index_of_id(s, cfg.drive_id);
            if cfg.is_root_device {
                let r = s.remove(i);
                assert(t =~= seq![cfg] + r);
                assert forall|a: int, b: int|
                    0 <= a < t.len() && 0 <= b < t.len() && a != b implies #[trigger] t[a].drive_id
                    != #[trigger] t[b].drive_id by {
                    let ia = if a == 0 { i } else if a - 1 < i { a - 1 } else { a };
                    let ib = if b == 0 { i } else if b - 1 < i { b - 1 } else { b };
                    assert(t[a].drive_id == s[ia].drive_id);
                    assert(t[b].drive_id == s[ib].drive_id);
                }
                assert forall|a: int| 0 < a < t.len() implies !(#[trigger] t[a]).is_root_device by {
                    let ia = if a - 1 < i { a - 1 } else { a };
                    assert(t[a] == s[ia]);
                    if ia == 0 {
                        assert(i != 0);
                        assert(!s[i].is_root_device);
                    }
                }
            } else {
                assert forall|a: int, b: int|
                    0 <= a < t.len() && 0 <= b < t.len() && a != b implies #[trigger] t[a].drive_id
                    != #[trigger] t[b].drive_id by {
                    assert(t[a].drive_id == s[a].drive_id);
                    assert(t[b].drive_id == s[b].drive_id);
                }
            }
        } else {
            if cfg.is_root_device {
                assert(t =~= seq![cfg] + s);
                assert forall|a: int, b: int|
                    0 <= a < t.len() && 0 <= b < t.len() && a != b implies #[trigger] t[a].drive_id
                    != #[trigger] t[b].drive_id by {
                    if a > 0 {
                        assert(t[a] == s[a - 1]);
                    }
                    if b > 0 {
                        assert(t[b] == s[b - 1]);
                    }
                }
                assert forall|a: int| 0 < a < t.len() implies !(#[trigger] t[a]).is_root_device by {
                    assert(t[a] == s[a - 1]);
                }
            } else {
                assert forall|a: int, b: int|
                    0 <= a < t.len() && 0 <= b < t.len() && a != b implies #[trigger] t[a].drive_id
                    != #[trigger] t[b].drive_id by {
                    if a < s.len() {
                        assert(t[a] == s[a]);
                    }
                    if b < s.len() {
                        assert(t[b] == s[b]);
                    }
                }
            }
        }
    }
}

/// Inserting the same drive twice: the second insert is an update that
/// leaves the table as the first one left it.
pub proof fn lemma_insert_block_device_twice(
    s: Seq<BlockDeviceView>,
    cfg: BlockDeviceView,
    path_exists: bool,
)
    requires
        configs_wf(s),
        insert_spec(s, cfg, path_exists) is Ok,
    ensures
        insert_spec(insert_spec(s, cfg, path_exists)->Ok_0, cfg, path_exists) == insert_spec(
            s,
            cfg,
            path_exists,
        ),
{
    lemma_insert_keeps_single_root(s, cfg, path_exists);
    let t = insert_spec(s, cfg, path_exists)->Ok_0;
    let j: int = if cfg.is_root_device {
        0
    } else if contains_id(s, cfg.drive_id) {
        index_of_id(s, cfg.drive_id)
    } else {
        s.len() as int
    };
    assert(t[j] == cfg);
    assert(contains_id(t, cfg.drive_id));
    let k = index_of_id(t, cfg.drive_id);
    assert(k == j);
    if cfg.is_root_device {
        assert(seq![cfg] + t.remove(0) =~= t);
    } else {
        assert(t.update(j, cfg) =~= t);
    }
}

/// The block devices of a microVM, in the order they are exposed to the
/// guest.
pub struct BlockDeviceConfigs {
    config_list: Vec<BlockDeviceConfig>,
}

impl View for BlockDeviceConfigs {
    type V = Seq<BlockDeviceView>;

    closed spec fn view(&self) -> Seq<BlockDeviceView> {
        views_of(self.config_list@)
    }
}

impl BlockDeviceConfigs {
    pub fn new() -> (r: BlockDeviceConfigs)
        ensures
            r@ == Seq::<BlockDeviceView>::empty(),
    {
        let r = BlockDeviceConfigs { config_list: Vec::new() };
        assert(r@ =~= Seq::<BlockDeviceView>::empty());
        r
    }

    pub fn config_list(&self) -> (r: &Vec<BlockDeviceConfig>)
        ensures
            views_of(r@) == self@,
    {
        &self.config_list
    }

    pub fn len(&self) -> (r: usize)
        ensures
            r == self@.len(),
    {
        self.config_list.len()
    }

    pub fn get(&self, i: usize) -> (r: &BlockDeviceConfig)
        requires
            i < self@.len(),
        ensures
            r@ == self@[i as int],
    {
        &self.config_list[i]
    }

    pub fn has_root_block_device(&self) -> (r: bool)
        ensures
            r == has_root(self@),
    {
        self.config_list.len() > 0 && self.config_list[0].is_root_device
    }

    /// The position of drive `drive_id`, if it is known.
    pub fn position(&self, drive_id: &str) -> (r: Option<usize>)
        ensures
            r matches Some(i) ==> i < self@.len() && self@[i as int].drive_id == drive_id@,
            r is None ==> !contains_id(self@, drive_id@),
    {
        let mut i: usize = 0;
        while i < self.config_list.len()
            invariant
                i <= self@.len(),
                forall|k: int| 0 <= k < i ==> self@[k].drive_id != drive_id@,
            decreases self@.len() - i,
        {
            if str_eq(self.config_list[i].drive_id.as_str(), drive_id) {
                return Some(i);
            }
            i = i + 1;
        }
        None
    }

    pub fn contains_drive_id(&self, drive_id: &str) -> (r: bool)
        ensures
            r == contains_id(self@, drive_id@),
    {
        self.position(drive_id).is_some()
    }

    pub fn contains_drive_path(&self, path: &str) -> (r: bool)
        ensures
            r == contains_path(self@, path@),
    {
        let mut i: usize = 0;
        while i < self.config_list.len()
            invariant
                i <= self@.len(),
                forall|k: int| 0 <= k < i ==> self@[k].path_on_host != path@,
            decreases self@.len() - i,
        {
            if str_eq(self.config_list[i].path_on_host.as_str(), path) {
                assert(self@[i as int].path_on_host == path@);
                return true;
            }
            i = i + 1;
        }
        false
    }

    /// Adds a drive whose id is not known yet.
    pub fn add(&mut self, cfg: BlockDeviceConfig, path_exists: bool) -> (r: Result<(), DriveError>)
        requires
            configs_wf(old(self)@),
            !contains_id(old(self)@, cfg@.drive_id),
        ensures
            match add_spec(old(self)@, cfg@, path_exists) {
                Ok(t) => r is Ok && final(self)@ == t,
                Err(e) => r == Err::<(), DriveError>(e) && final(self)@ == old(self)@,
            },
            configs_wf(final(self)@),
    {
        proof {
            lemma_insert_keeps_single_root(self@, cfg@, path_exists);
        }
        if !path_exists {
            return Err(DriveError::InvalidBlockDevicePath);
        }
        if self.contains_drive_path(cfg.path_on_host.as_str()) {
            return Err(DriveError::BlockDevicePathAlreadyExists);
        }
        let ghost before = self@;
        if cfg.is_root_device {
            if self.has_root_block_device() {
                return Err(DriveError::RootBlockDeviceAlreadyAdded);
            }
            let ghost c = cfg@;
            self.config_list.insert(0, cfg);
            assert(self@ =~= seq![c] + before);
        } else {
            let ghost c = cfg@;
            self.config_list.push(cfg);
            assert(self@ =~= before.push(c));
        }
        Ok(())
    }

    /// Replaces the drive with the id of `cfg`.
    pub fn update(&mut self, cfg: BlockDeviceConfig, path_exists: bool) -> (r: Result<(), DriveError>)
        requires
            configs_wf(old(self)@),
        ensures
            match update_spec(old(self)@, cfg@, path_exists) {
                Ok(t) => r is Ok && final(self)@ == t,
                Err(e) => r == Err::<(), DriveError>(e) && final(self)@ == old(self)@,
            },
            configs_wf(final(self)@),
    {
        proof {
            lemma_insert_keeps_single_root(self@, cfg@, path_exists);
        }
        if !path_exists {
            return Err(DriveError::InvalidBlockDevicePath);
        }
        let i = match self.position(cfg.drive_id.as_str()) {
            Some(i) => i,
            None => {
                return Err(DriveError::InvalidBlockDeviceID);
            },
        };
        let ghost before = self@;
        assert(i == index_of_id(before, cfg@.drive_id));
        if !self.config_list[i].is_root_device && cfg.is_root_device
            && self.has_root_block_device() {
            return Err(DriveError::RootBlockDeviceAlreadyAdded);
        }
        let ghost c = cfg@;
        if cfg.is_root_device {
            self.config_list.remove(i);
            assert(self@ =~= before.remove(i as int));
            self.config_list.insert(0, cfg);
            assert(self@ =~= seq![c] + before.remove(i as int));
        } else {
            self.config_list.set(i, cfg);
            assert(self@ =~= before.update(i as int, c));
        }
        Ok(())
    }

    /// Adds the drive, or updates it where its id is known.
    pub fn insert(&mut self, cfg: BlockDeviceConfig, path_exists: bool) -> (r: Result<(), DriveError>)
        requires
            configs_wf(old(self)@),
        ensures
            match insert_spec(old(self)@, cfg@, path_exists) {
                Ok(t) => r is Ok && final(self)@ == t,
                Err(e) => r == Err::<(), DriveError>(e) && final(self)@ == old(self)@,
            },
            configs_wf(final(self)@),
    {
        if self.contains_drive_id(cfg.drive_id.as_str()) {
            self.update(cfg, path_exists)
        } else {
            self.add(cfg, path_exists)
        }
    }
}

} // verus!
