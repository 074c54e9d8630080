//! The storage manager: persists frames under a cadence policy, keeps a
//! bounded history log, and tracks the last known disk capacity.
//!
//! The manager decides; the file writes and the disk-usage probe happen
//! outside the library.  `process` hands back a [`SaveRequest`] naming the
//! file a frame should go to, and [`Storage::record_save_result`] logs how
//! the attempt ended.

use vstd::prelude::*;

use crate::capacity::{check_storage, probe_capacity, DfProbe};
use crate::config::ServiceConfig;
use crate::frame::RawImage;
use crate::messages::{StateMessage, StorageMessage};
use crate::status::{
    log_eqv, StorageDetail, StorageLogRecord, StorageLogStatus, StorageState,
};
use crate::textnum::{padded5, padded5_string};

use std::collections::VecDeque;

verus! {

/// The save log keeps at most this many entries; a new entry beyond that
/// evicts the oldest.
pub const LOG_CAPACITY: usize = 20;

/// A frame the storage loop should write, and the file it should go to.
#[derive(PartialEq, Debug)]
pub struct SaveRequest {
    pub file_name: String,
    pub image: RawImage,
}

/// What one processed storage message asks for: possibly a save, and
/// messages to forward to the control loop.
#[derive(PartialEq, Debug)]
pub struct StorageOutcome {
    pub save: Option<SaveRequest>,
    pub messages: Vec<StateMessage>,
}

/// The storage manager's state.  Cadence and timestamps are in milliseconds.
pub struct Storage {
    pub root: String,
    pub cadence_ms: u64,
    pub last_save_ms: Option<u64>,
    pub last_storage_state: StorageState,
    pub counter: usize,
    pub storage_name: String,
    pub storage_active: bool,
    pub details: VecDeque<StorageLogRecord>,
}

/// The log entry recording one save attempt.
pub open spec fn save_record(name: String, error: Option<String>) -> StorageLogRecord {
    StorageLogRecord {
        name,
        status: match error {
            None => StorageLogStatus::Success,
            Some(e) => StorageLogStatus::Error(e),
        },
    }
}

/// The file name the next save goes to: root and sub-folder joined, then the
/// zero-padded counter with the sensor-format extension.
pub open spec fn spec_file_name(root: Seq<char>, name: Seq<char>, counter: int) -> Seq<char> {
    let dir = if root.len() > 0 && root.last() == '/' {
        root + name
    } else {
        root + seq!['/'] + name
    };
    dir + seq!['/'] + padded5(counter) + ".fits"@
}

/// The cadence rule: save when storage is enabled and either nothing was
/// saved yet or the elapsed time has reached the cadence.
pub open spec fn should_save(s: Storage, now_ms: u64) -> bool {
    s.storage_active && match s.last_save_ms {
        None => true,
        Some(t) => now_ms - t >= s.cadence_ms,
    }
}

/// How processing one frame changes the manager: a save stamps the current
/// time, a skip changes nothing.  The second component says whether the
/// frame is saved.
pub open spec fn image_step(s: Storage, now_ms: u64) -> (Storage, bool) {
    if should_save(s, now_ms) {
        (Storage { last_save_ms: Some(now_ms), ..s }, true)
    } else {
        (s, false)
    }
}

/// How disabling storage changes the manager: it also clears the save
/// timestamp, so that the next save after re-enabling happens at once.
pub open spec fn disable_step(s: Storage) -> Storage {
    Storage { storage_active: false, last_save_ms: None, ..s }
}

/// How enabling storage changes the manager.
pub open spec fn enable_step(s: Storage) -> Storage {
    Storage { storage_active: true, ..s }
}

/// The snapshot `d` describes the manager state `s`.
pub open spec fn detail_matches(d: StorageDetail, s: Storage) -> bool {
    &&& d.storage_name@ == s.storage_name@
    &&& d.cadence_ms == s.cadence_ms
    &&& d.counter == s.counter
    &&& log_eqv(d.storage_log@, s.details@)
    &&& d.storage_enabled == s.storage_active
    &&& d.state.eqv(s.last_storage_state)
}

impl Storage {
    /// The bounded log never exceeds its capacity.
    pub open spec fn wf(self) -> bool {
        self.details@.len() <= LOG_CAPACITY
    }

    pub fn new(config: &ServiceConfig) -> (r: Self)
        ensures
            r.wf(),
            r.root@ == config.storage@,
            r.cadence_ms == config.savecadence_ms,
            r.last_save_ms is None,
            r.last_storage_state is Unknown,
            r.counter == 0,
            r.storage_name@ == "default"@,
            !r.storage_active,
            r.details@.len() == 0,
    {
        Storage {
            root: config.storage.clone(),
            cadence_ms: config.savecadence_ms,
            last_save_ms: None,
            last_storage_state: StorageState::Unknown,
            counter: 0,
            storage_name: String::from_str("default"),
            storage_active: false,
            details: VecDeque::new(),
        }
    }

    /// The snapshot of this manager sent to remote viewers.
    pub fn get_details(&self) -> (r: StorageDetail)
        ensures
            detail_matches(r, *self),
    {
        let mut log: Vec<StorageLogRecord> = Vec::new();
        let n = self.details.len();
        let mut i: usize = 0;
        while i < n
            invariant
                i <= n,
                n == self.details@.len(),
                log@.len() == i,
                forall|j: int| 0 <= j < i ==> #[trigger] log@[j].eqv(self.details@[j]),
            decreases n - i,
        {
            log.push(self.details[i].clone());
            i = i + 1;
        }
        StorageDetail {
            storage_name: self.storage_name.clone(),
            cadence_ms: self.cadence_ms,
            counter: self.counter,
            storage_log: log,
            storage_enabled: self.storage_active,
            state: self.last_storage_state.clone(),
        }
    }

    /// The file the next save attempt writes to.
    pub fn current_file_name(&self) -> (r: String)
        ensures
            r@ == spec_file_name(self.root@, self.storage_name@, self.counter as int),
    {
        let mut s = self.root.clone();
        let len = s.as_str().unicode_len();
        let ends_in_slash = if len > 0 {
            s.as_str().get_char(len - 1) == '/'
        } else {
            false
        };
        if !ends_in_slash {
            s.append("/");
        }
        s.append(self.storage_name.as_str());
        s.append("/");
        s.append(padded5_string(self.counter as u64).as_str());
        s.append(".fits");
        proof {
            reveal_strlit("/");
            reveal_strlit(".fits");
            assert("/"@ =~= seq!['/']);
            assert(s@ =~= spec_file_name(
                self.root@,
                self.storage_name@,
                self.counter as int,
            ));
        }
        s
    }

    /// Handles one storage command at the given time.  Saving itself happens
    /// outside: a frame that is due is handed back as a [`SaveRequest`], and
    /// the caller reports the attempt through
    /// [`Storage::record_save_result`], which then emits the snapshot for
    /// that message.  Every other processed message, a skipped or ignored
    /// frame included, emits its updated snapshot here at once.
    pub fn process(&mut self, message: StorageMessage, now_ms: u64) -> (r: StorageOutcome)
        requires
            old(self).wf(),
        ensures
            final(self).wf(),
            final(self).root == old(self).root,
            final(self).last_storage_state == old(self).last_storage_state,
            final(self).details == old(self).details,
            message matches StorageMessage::SetDirectory(name) ==> {
                &&& *final(self) == (Storage {
                    storage_name: name,
                    counter: 0,
                    ..*old(self)
                })
                &&& r.save is None
                &&& one_detail_update(r.messages@, *final(self))
            },
            message is DisableStore ==> {
                &&& *final(self) == disable_step(*old(self))
                &&& r.save is None
                &&& one_detail_update(r.messages@, *final(self))
            },
            message is EnableStore ==> {
                &&& *final(self) == enable_step(*old(self))
                &&& r.save is None
                &&& one_detail_update(r.messages@, *final(self))
            },
            message matches StorageMessage::UpdateCadence(ms) ==> {
                &&& *final(self) == (Storage { cadence_ms: ms, ..*old(self) })
                &&& r.save is None
                &&& one_detail_update(r.messages@, *final(self))
            },
            message matches StorageMessage::ProcessImage(img) ==> {
                &&& *final(self) == image_step(*old(self), now_ms).0
                &&& (r.save is Some <==> image_step(*old(self), now_ms).1)
                &&& (r.save matches Some(req) ==> {
                    &&& req.image == img
                    &&& req.file_name@ == spec_file_name(
                        old(self).root@,
                        old(self).storage_name@,
                        old(self).counter as int,
                    )
                })
                &&& (r.save is Some ==> r.messages@.len() == 0)
                &&& (r.save is None ==> one_detail_update(r.messages@, *final(self)))
            },
    {
        match message {
            StorageMessage::SetDirectory(name) => {
                self.storage_name = name;
                self.counter = 0;
                StorageOutcome { save: None, messages: self.detail_update() }
            },
            StorageMessage::DisableStore => {
                self.storage_active = false;
                self.last_save_ms = None;
                StorageOutcome { save: None, messages: self.detail_update() }
            },
            StorageMessage::EnableStore => {
                self.storage_active = true;
                StorageOutcome { save: None, messages: self.detail_update() }
            },
            StorageMessage::UpdateCadence(ms) => {
                self.cadence_ms = ms;
                StorageOutcome { save: None, messages: self.detail_update() }
            },
            StorageMessage::ProcessImage(image) => {
                if !self.storage_active {
                    return StorageOutcome { save: None, messages: self.detail_update() };
                }
                let due = match self.last_save_ms {
                    None => true,
                    Some(t) => now_ms >= t && now_ms - t >= self.cadence_ms,
                };
                if !due {
                    return StorageOutcome { save: None, messages: self.detail_update() };
                }
                self.last_save_ms = Some(now_ms);
                let file_name = self.current_file_name();
                StorageOutcome {
                    save: Some(SaveRequest { file_name, image }),
                    messages: Vec::new(),
                }
            },
        }
    }

    /// Records how a save attempt ended: the counter advances whether or not
    /// the attempt succeeded, keeping attempts and sequence numbers in step,
    /// and the log keeps at most [`LOG_CAPACITY`] entries, evicting the
    /// oldest.
    pub fn record_save_result(&mut self, name: String, error: Option<String>) -> (r: Vec<
        StateMessage,
    >)
        requires
            old(self).wf(),
            old(self).counter < usize::MAX,
        ensures
            final(self).wf(),
            final(self).counter == old(self).counter + 1,
            old(self).details@.len() < LOG_CAPACITY ==> final(self).details@ == old(
                self,
            ).details@.push(save_record(name, error)),
            old(self).details@.len() == LOG_CAPACITY ==> final(self).details@ == old(
                self,
            ).details@.skip(1).push(save_record(name, error)),
            *final(self) == (Storage {
                counter: final(self).counter,
                details: final(self).details,
                ..*old(self)
            }),
            one_detail_update(r@, *final(self)),
    {
        let record = StorageLogRecord {
            name,
            status: match error {
                None => StorageLogStatus::Success,
                Some(e) => StorageLogStatus::Error(e),
            },
        };
        self.details.push_back(record);
        while self.details.len() > LOG_CAPACITY
            invariant
                old(self).details@.len() < LOG_CAPACITY ==> self.details@ == old(
                    self,
                ).details@.push(save_record(name, error)),
                old(self).details@.len() == LOG_CAPACITY ==> (self.details@ == old(
                    self,
                ).details@.push(save_record(name, error)) || self.details@ == old(
                    self,
                ).details@.skip(1).push(save_record(name, error))),
                self.details@.len() <= LOG_CAPACITY + 1,
                *self == (Storage { details: self.details, ..*old(self) }),
            decreases self.details@.len(),
        {
            let ghost pre = self.details@;
            let _ = self.details.pop_front();
            proof {
                assert(self.details@ =~= pre.skip(1));
                if old(self).details@.len() == LOG_CAPACITY {
                    assert(pre =~= old(self).details@.push(save_record(name, error)));
                    assert(pre.skip(1) =~= old(self).details@.skip(1).push(
                        save_record(name, error),
                    ));
                }
            }
        }
        self.counter = self.counter + 1;
        self.detail_update()
    }

    /// One periodic tick: classifies the given probe outcome, retains it, and
    /// reports both the capacity state and the updated snapshot to the
    /// control loop.
    pub fn periodic_tasks(&mut self, probe: Result<DfProbe, String>) -> (r: Vec<StateMessage>)
        requires
            old(self).wf(),
        ensures
            final(self).wf(),
            *final(self) == (Storage {
                last_storage_state: final(self).last_storage_state,
                ..*old(self)
            }),
            probe_capacity(probe) matches Some(c) ==> final(self).last_storage_state
                == StorageState::Available(c),
            probe_capacity(probe) is None ==> final(self).last_storage_state is Error,
            r@.len() == 2,
            r@[0] matches StateMessage::UpdateStorageState(st) && st.eqv(
                final(self).last_storage_state,
            ),
            r@[1] matches StateMessage::UpdateStorageDetail(d) && detail_matches(
                d,
                *final(self),
            ),
    {
        let state = check_storage(probe);
        let reported = state.clone();
        self.last_storage_state = state;
        let mut messages: Vec<StateMessage> = Vec::new();
        messages.push(StateMessage::UpdateStorageState(reported));
        messages.push(StateMessage::UpdateStorageDetail(self.get_details()));
        messages
    }

    /// The directory whose capacity the periodic probe should check: the
    /// configured storage root.
    pub fn probe_directory(&self) -> (r: String)
        ensures
            r@ == self.root@,
    {
        self.root.clone()
    }
}

impl Storage {
    fn detail_update(&self) -> (r: Vec<StateMessage>)
        ensures
            one_detail_update(r@, *self),
    {
        let mut messages: Vec<StateMessage> = Vec::new();
        messages.push(StateMessage::UpdateStorageDetail(self.get_details()));
        messages
    }
}

/// The message list holds exactly one storage-detail update describing `s`.
pub open spec fn one_detail_update(messages: Seq<StateMessage>, s: Storage) -> bool {
    &&& messages.len() == 1
    &&& messages[0] matches StateMessage::UpdateStorageDetail(d) && detail_matches(d, s)
}

/// The manager state after the first `i` frames of `times` are processed.
pub open spec fn state_after(s: Storage, times: Seq<u64>, i: int) -> Storage
    decreases i,
{
    if i <= 0 {
        s
    } else {
        image_step(state_after(s, times, i - 1), times[i - 1]).0
    }
}

/// Whether the `i`-th frame of `times` is saved.
pub open spec fn saved_at(s: Storage, times: Seq<u64>, i: int) -> bool {
    image_step(state_after(s, times, i), times[i]).1
}

proof fn lemma_state_after_settings(s: Storage, times: Seq<u64>, i: int)
    ensures
        state_after(s, times, i).storage_active == s.storage_active,
        state_after(s, times, i).cadence_ms == s.cadence_ms,
    decreases i,
{
    if i > 0 {
        lemma_state_after_settings(s, times, i - 1);
    }
}

proof fn lemma_state_after_first_save(s: Storage, times: Seq<u64>, i: int)
    requires
        s.storage_active,
        s.last_save_ms is None,
        1 <= i,
    ensures
        state_after(s, times, i).last_save_ms is Some,
    decreases i,
{
    if i > 1 {
        lemma_state_after_first_save(s, times, i - 1);
    } else {
        assert(should_save(state_after(s, times, 0), times[0]));
    }
}

/// The cadence policy over a whole run: starting enabled with no prior save,
/// the first frame is always saved, and every later frame is saved exactly
/// when its time is at least one cadence past the latest save before it.
pub proof fn lemma_cadence_policy(s: Storage, times: Seq<u64>, i: int)
    requires
        s.storage_active,
        s.last_save_ms is None,
        0 <= i < times.len(),
    ensures
        saved_at(s, times, 0),
        i >= 1 ==> {
            &&& state_after(s, times, i).last_save_ms is Some
            &&& (saved_at(s, times, i) <==> times[i] - state_after(s, times, i).last_save_ms->0
                >= s.cadence_ms)
        },
{
    assert(should_save(state_after(s, times, 0), times[0]));
    if i >= 1 {
        lemma_state_after_first_save(s, times, i);
        lemma_state_after_settings(s, times, i);
    }
}

/// The latest-save timestamp a later frame is measured against is the time
/// of the most recent saved frame: it advances to `times[i]` exactly when
/// frame `i` is saved.
pub proof fn lemma_last_save_advances(s: Storage, times: Seq<u64>, i: int)
    requires
        0 <= i < times.len(),
    ensures
        saved_at(s, times, i) ==> state_after(s, times, i + 1).last_save_ms == Some(times[i]),
        !saved_at(s, times, i) ==> state_after(s, times, i + 1).last_save_ms == state_after(
            s,
            times,
            i,
        ).last_save_ms,
{
}

/// Disabling storage and re-enabling it clears the cadence timer: the next
/// frame is saved no matter how little time has passed.
pub proof fn lemma_reenable_saves_immediately(s: Storage, now_ms: u64)
    ensures
        image_step(enable_step(disable_step(s)), now_ms).1,
{
}

} // verus!
