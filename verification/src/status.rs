//! Status snapshots reported to remote viewers: connection states, storage
//! capacity and history, and the aggregated view of the whole control plane.

use vstd::prelude::*;

use crate::device::ImagerProperties;
use crate::params::{CameraParams, ImageParams};

verus! {

/// State of one connection-like aspect of the system.
#[derive(Clone, Copy, PartialEq, Eq, Structural, Debug)]
pub enum ConnectionState {
    Disconnected,
    Connecting,
    Established,
}

impl Default for ConnectionState {
    fn default() -> (r: Self)
        ensures
            r == ConnectionState::Disconnected,
    {
        ConnectionState::Disconnected
    }
}

/// Free and total capacity of the storage filesystem, in kilobytes as the
/// disk-usage probe reports them.
#[derive(Clone, Copy, PartialEq, Eq, Structural, Debug)]
pub struct StorageCapacity {
    pub total_kilobytes: u64,
    pub free_kilobytes: u64,
}

/// Last known state of the storage filesystem.
#[derive(PartialEq, Eq, Debug)]
pub enum StorageState {
    Unknown,
    Available(StorageCapacity),
    Error(String),
}

impl StorageState {
    /// Same variant with equal contents.
    pub open spec fn eqv(self, other: Self) -> bool {
        match (self, other) {
            (StorageState::Unknown, StorageState::Unknown) => true,
            (StorageState::Available(a), StorageState::Available(b)) => a == b,
            (StorageState::Error(a), StorageState::Error(b)) => a@ == b@,
            _ => false,
        }
    }

    pub fn same_as(&self, other: &Self) -> (r: bool)
        ensures
            r == self.eqv(*other),
    {
        match (self, other) {
            (StorageState::Unknown, StorageState::Unknown) => true,
            (StorageState::Available(a), StorageState::Available(b)) => *a == *b,
            (StorageState::Error(a), StorageState::Error(b)) => *a == *b,
            _ => false,
        }
    }
}

impl Clone for StorageState {
    fn clone(&self) -> (r: Self)
        ensures
            r.eqv(*self),
    {
        match self {
            StorageState::Unknown => StorageState::Unknown,
            StorageState::Available(c) => StorageState::Available(*c),
            StorageState::Error(e) => StorageState::Error(e.clone()),
        }
    }
}

/// Outcome of one save attempt.
#[derive(PartialEq, Eq, Debug)]
pub enum StorageLogStatus {
    Success,
    Error(String),
}

impl StorageLogStatus {
    /// Same variant with equal contents.
    pub open spec fn eqv(self, other: Self) -> bool {
        match (self, other) {
            (StorageLogStatus::Success, StorageLogStatus::Success) => true,
            (StorageLogStatus::Error(a), StorageLogStatus::Error(b)) => a@ == b@,
            _ => false,
        }
    }

    pub fn same_as(&self, other: &Self) -> (r: bool)
        ensures
            r == self.eqv(*other),
    {
        match (self, other) {
            (StorageLogStatus::Success, StorageLogStatus::Success) => true,
            (StorageLogStatus::Error(a), StorageLogStatus::Error(b)) => *a == *b,
            _ => false,
        }
    }
}

impl Clone for StorageLogStatus {
    fn clone(&self) -> (r: Self)
        ensures
            r.eqv(*self),
    {
        match self {
            StorageLogStatus::Success => StorageLogStatus::Success,
            StorageLogStatus::Error(e) => StorageLogStatus::Error(e.clone()),
        }
    }
}

/// One entry of the bounded save log: the file name attempted and how the
/// attempt ended.
#[derive(PartialEq, Eq, Debug)]
pub struct StorageLogRecord {
    pub name: String,
    pub status: StorageLogStatus,
}

impl StorageLogRecord {
    /// Both fields are equal.
    pub open spec fn eqv(self, other: Self) -> bool {
        self.name@ == other.name@ && self.status.eqv(other.status)
    }

    pub fn same_as(&self, other: &Self) -> (r: bool)
        ensures
            r == self.eqv(*other),
    {
        self.name == other.name && self.status.same_as(&other.status)
    }
}

impl Clone for StorageLogRecord {
    fn clone(&self) -> (r: Self)
        ensures
            r.eqv(*self),
    {
        StorageLogRecord { name: self.name.clone(), status: self.status.clone() }
    }
}

/// Element-wise [`StorageLogRecord::eqv`] over two logs.
pub open spec fn log_eqv(a: Seq<StorageLogRecord>, b: Seq<StorageLogRecord>) -> bool {
    &&& a.len() == b.len()
    &&& forall|i: int| 0 <= i < a.len() ==> #[trigger] a[i].eqv(b[i])
}

/// Snapshot of the storage manager exposed to remote viewers.  The cadence is
/// in milliseconds.
#[derive(PartialEq, Eq, Debug)]
pub struct StorageDetail {
    pub storage_name: String,
    pub cadence_ms: u64,
    pub counter: usize,
    pub storage_log: Vec<StorageLogRecord>,
    pub storage_enabled: bool,
    pub state: StorageState,
}

impl StorageDetail {
    /// All fields are equal, the log element-wise.
    pub open spec fn eqv(self, other: Self) -> bool {
        &&& self.storage_name@ == other.storage_name@
        &&& self.cadence_ms == other.cadence_ms
        &&& self.counter == other.counter
        &&& log_eqv(self.storage_log@, other.storage_log@)
        &&& self.storage_enabled == other.storage_enabled
        &&& self.state.eqv(other.state)
    }

    pub fn same_as(&self, other: &Self) -> (r: bool)
        ensures
            r == self.eqv(*other),
    {
        if !(self.storage_name == other.storage_name && self.cadence_ms == other.cadence_ms
            && self.counter == other.counter && self.storage_enabled == other.storage_enabled
            && self.state.same_as(&other.state)) {
            return false;
        }
        if self.storage_log.len() != other.storage_log.len() {
            return false;
        }
        let n = self.storage_log.len();
        let mut i: usize = 0;
        while i < n
            invariant
                i <= n,
                n == self.storage_log.len(),
                n == other.storage_log.len(),
                forall|j: int|
                    0 <= j < i ==> #[trigger] self.storage_log@[j].eqv(other.storage_log@[j]),
            decreases n - i,
        {
            if !self.storage_log[i].same_as(&other.storage_log[i]) {
                return false;
            }
            i = i + 1;
        }
        true
    }
}

impl Clone for StorageDetail {
    fn clone(&self) -> (r: Self)
        ensures
            r.eqv(*self),
    {
        let mut log: Vec<StorageLogRecord> = Vec::new();
        let n = self.storage_log.len();
        let mut i: usize = 0;
        while i < n
            invariant
                i <= n,
                n == self.storage_log.len(),
                log.len() == i,
                forall|j: int| 0 <= j < i ==> #[trigger] log@[j].eqv(self.storage_log@[j]),
            decreases n - i,
        {
            log.push(self.storage_log[i].clone());
            i = i + 1;
        }
        StorageDetail {
            storage_name: self.storage_name.clone(),
            cadence_ms: self.cadence_ms,
            counter: self.counter,
            storage_log: log,
            storage_enabled: self.storage_enabled,
            state: self.state.clone(),
        }
    }
}

impl Default for StorageDetail {
    fn default() -> (r: Self)
        ensures
            r.storage_name@ == "?"@,
            r.cadence_ms == 60_000,
            r.counter == 0,
            r.storage_log@.len() == 0,
            !r.storage_enabled,
            r.state is Unknown,
    {
        StorageDetail {
            storage_name: String::from_str("?"),
            cadence_ms: 60_000,
            counter: 0,
            storage_log: Vec::new(),
            storage_enabled: false,
            state: StorageState::Unknown,
        }
    }
}

/// Aggregated connection/exposure/storage/trigger states.
#[derive(PartialEq, Eq, Debug)]
pub struct LogicStatus {
    pub camera: ConnectionState,
    pub exposure: ConnectionState,
    pub storage: StorageState,
    pub trigger: ConnectionState,
    pub required: ConnectionState,
    pub loop_enabled: ConnectionState,
    pub save: ConnectionState,
}

impl LogicStatus {
    /// All fields are equal.
    pub open spec fn eqv(self, other: Self) -> bool {
        &&& self.camera == other.camera
        &&& self.exposure == other.exposure
        &&& self.storage.eqv(other.storage)
        &&& self.trigger == other.trigger
        &&& self.required == other.required
        &&& self.loop_enabled == other.loop_enabled
        &&& self.save == other.save
    }

    pub fn same_as(&self, other: &Self) -> (r: bool)
        ensures
            r == self.eqv(*other),
    {
        self.camera == other.camera && self.exposure == other.exposure
            && self.storage.same_as(&other.storage) && self.trigger == other.trigger
            && self.required == other.required && self.loop_enabled == other.loop_enabled
            && self.save == other.save
    }
}

impl Clone for LogicStatus {
    fn clone(&self) -> (r: Self)
        ensures
            r.eqv(*self),
    {
        LogicStatus {
            camera: self.camera,
            exposure: self.exposure,
            storage: self.storage.clone(),
            trigger: self.trigger,
            required: self.required,
            loop_enabled: self.loop_enabled,
            save: self.save,
        }
    }
}

impl Default for LogicStatus {
    fn default() -> (r: Self)
        ensures
            r.camera is Disconnected,
            r.exposure is Disconnected,
            r.storage is Unknown,
            r.trigger is Disconnected,
            r.required is Disconnected,
            r.loop_enabled is Disconnected,
            r.save is Disconnected,
    {
        LogicStatus {
            camera: ConnectionState::Disconnected,
            exposure: ConnectionState::Disconnected,
            storage: StorageState::Unknown,
            trigger: ConnectionState::Disconnected,
            required: ConnectionState::Disconnected,
            loop_enabled: ConnectionState::Disconnected,
            save: ConnectionState::Disconnected,
        }
    }
}

/// Read-only snapshot of the whole control plane, assembled on demand and
/// sent to clients only when it differs from the last sent snapshot.
#[derive(PartialEq, Eq, Debug)]
pub struct ViewState {
    pub detail: String,
    pub status: LogicStatus,
    pub camera_properties: Option<ImagerProperties>,
    pub image_params: ImageParams,
    pub camera_params: CameraParams,
    pub storage_detail: StorageDetail,
}

impl ViewState {
    /// All fields are equal.
    pub open spec fn eqv(self, other: Self) -> bool {
        &&& self.detail@ == other.detail@
        &&& self.status.eqv(other.status)
        &&& match (self.camera_properties, other.camera_properties) {
            (Some(a), Some(b)) => a.eqv(b),
            (None, None) => true,
            _ => false,
        }
        &&& self.image_params == other.image_params
        &&& self.camera_params == other.camera_params
        &&& self.storage_detail.eqv(other.storage_detail)
    }

    pub fn same_as(&self, other: &Self) -> (r: bool)
        ensures
            r == self.eqv(*other),
    {
        let props_same = match (&self.camera_properties, &other.camera_properties) {
            (Some(a), Some(b)) => a.same_as(b),
            (None, None) => true,
            _ => false,
        };
        props_same && self.detail == other.detail && self.status.same_as(&other.status)
            && self.image_params == other.image_params && self.camera_params
            == other.camera_params && self.storage_detail.same_as(&other.storage_detail)
    }
}

impl Clone for ViewState {
    fn clone(&self) -> (r: Self)
        ensures
            r.eqv(*self),
    {
        let props = match &self.camera_properties {
            Some(p) => Some(p.clone()),
            None => None,
        };
        ViewState {
            detail: self.detail.clone(),
            status: self.status.clone(),
            camera_properties: props,
            image_params: self.image_params,
            camera_params: self.camera_params,
            storage_detail: self.storage_detail.clone(),
        }
    }
}

} // verus!
