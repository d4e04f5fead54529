//! The detection session on Linux.

use vstd::prelude::*;

use crate::config::{DeviceConfiguration, DeviceRef};
use crate::detection::session::{CompletionReason, SessionResult, SessionStartInfo, SessionState};
use crate::detection::clock::{now_with_stamp, session_stamp};
use crate::detection::InputDevice;
use crate::text::{concat, owned, views};

verus! {

/// An interactive detection session: the devices offered, those seen active, and where
/// the session stands.
pub struct LinuxDetectionSession {
    session_id: String,
    start_time: i64,
    all_devices: Vec<InputDevice>,
    active_devices: Vec<String>,
    state: SessionState,
    timeout_secs: u64,
}

/// The time from `start` to `end` in milliseconds; nothing when the clock went back.
pub open spec fn elapsed(start: int, end: int) -> int {
    if end > start {
        end - start
    } else {
        0
    }
}

impl LinuxDetectionSession {
    pub closed spec fn id_view(&self) -> Seq<char> {
        self.session_id@
    }

    pub closed spec fn start_view(&self) -> i64 {
        self.start_time
    }

    pub closed spec fn devices_view(&self) -> Seq<InputDevice> {
        self.all_devices@
    }

    pub closed spec fn active_view(&self) -> Seq<Seq<char>> {
        views(self.active_devices@)
    }

    pub closed spec fn state_view(&self) -> SessionState {
        self.state
    }

    pub closed spec fn timeout_view(&self) -> u64 {
        self.timeout_secs
    }

    /// A session over `devices` that ends after `timeout_secs` seconds, started now. When
    /// the clock cannot be read as a date, the session counts as started at the UNIX
    /// epoch.
    pub fn new(devices: Vec<InputDevice>, timeout_secs: u64) -> (s: Self)
        ensures
            s.devices_view() == devices@,
            s.active_view() == Seq::<Seq<char>>::empty(),
            s.state_view() == SessionState::Initializing,
            s.timeout_view() == timeout_secs,
    {
        let (now, stamp) = match now_with_stamp() {
            Some(t) => t,
            None => (0, session_stamp((1970, 1, 1, 0, 0, 0))),
        };
        Self::new_at(devices, timeout_secs, now, stamp.as_str())
    }

    /// A session started at `now` (milliseconds since the UNIX epoch), whose id carries
    /// the time stamp `stamp`.
    pub fn new_at(devices: Vec<InputDevice>, timeout_secs: u64, now: i64, stamp: &str) -> (s: Self)
        ensures
            s.id_view() == "detect-"@ + stamp@,
            s.start_view() == now,
            s.devices_view() == devices@,
            s.active_view() == Seq::<Seq<char>>::empty(),
            s.state_view() == SessionState::Initializing,
            s.timeout_view() == timeout_secs,
    {
        let s = Self {
            session_id: concat("detect-", stamp),
            start_time: now,
            all_devices: devices,
            active_devices: Vec::new(),
            state: SessionState::Initializing,
            timeout_secs,
        };
        assert(views(s.active_devices@) =~= Seq::<Seq<char>>::empty());
        s
    }

    /// How long the session runs before it times out, in seconds.
    pub fn timeout_secs(&self) -> (t: u64)
        ensures
            t == self.timeout_view(),
    {
        self.timeout_secs
    }

    /// Starts the session and reports it.
    pub fn start(&mut self) -> (info: SessionStartInfo)
        ensures
            final(self).state_view() == SessionState::Running,
            final(self).id_view() == old(self).id_view(),
            final(self).devices_view() == old(self).devices_view(),
            final(self).active_view() == old(self).active_view(),
            final(self).start_view() == old(self).start_view(),
            final(self).timeout_view() == old(self).timeout_view(),
            info.session_id@ == old(self).id_view(),
            info.all_devices@ == old(self).devices_view(),
            info.start_time == old(self).start_view(),
    {
        self.state = SessionState::Running;
        SessionStartInfo {
            session_id: owned(self.session_id.as_str()),
            all_devices: crate::detection::copy_devices(&self.all_devices),
            start_time: self.start_time,
        }
    }

    /// Ends the session at `now` for `reason` and reports it.
    pub fn finish(&mut self, reason: CompletionReason, now: i64) -> (r: SessionResult)
        ensures
            final(self).state_view() == SessionState::Completed,
            final(self).id_view() == old(self).id_view(),
            final(self).devices_view() == old(self).devices_view(),
            final(self).active_view() == old(self).active_view(),
            final(self).start_view() == old(self).start_view(),
            final(self).timeout_view() == old(self).timeout_view(),
            r.session_id@ == old(self).id_view(),
            r.end_time == now,
            views(r.active_devices@) == old(self).active_view(),
            r.duration_ms == elapsed(old(self).start_view() as int, now as int),
            r.completion_reason == reason,
    {
        self.state = SessionState::Completed;
        let duration_ms: u64 = if now > self.start_time {
            (now as i128 - self.start_time as i128) as u64
        } else {
            0
        };
        SessionResult {
            session_id: owned(self.session_id.as_str()),
            end_time: now,
            active_devices: self.active_devices(),
            duration_ms,
            completion_reason: reason,
        }
    }

    /// The devices seen active so far.
    pub fn active_devices(&self) -> (v: Vec<String>)
        ensures
            views(v@) == self.active_view(),
    {
        let mut v: Vec<String> = Vec::new();
        let mut i: usize = 0;
        while i < self.active_devices.len()
            invariant
                i <= self.active_devices.len(),
                v.len() == i,
                forall|j: int| 0 <= j < i ==> v@[j]@ == self.active_devices@[j]@,
            decreases self.active_devices.len() - i,
        {
            v.push(owned(self.active_devices[i].as_str()));
            i = i + 1;
        }
        assert(views(v@) =~= views(self.active_devices@));
        v
    }

    /// Abandons the session.
    pub fn cancel(&mut self)
        ensures
            final(self).state_view() == SessionState::Failed,
            final(self).id_view() == old(self).id_view(),
            final(self).devices_view() == old(self).devices_view(),
            final(self).active_view() == old(self).active_view(),
            final(self).start_view() == old(self).start_view(),
            final(self).timeout_view() == old(self).timeout_view(),
    {
        self.state = SessionState::Failed;
    }

    /// The configuration that disables the devices of `selection`, made at `now`: version
    /// 1.0, one reference by path for each selected device, in order.
    pub fn complete_at(&self, selection: &Vec<String>, now: i64) -> (c: DeviceConfiguration)
        ensures
            c.version@ == "1.0"@,
            c.created_at == now,
            c.updated_at == now,
            c.disabled_devices.len() == selection.len(),
            forall|i: int|
                0 <= i < selection.len() ==> {
                    let r = #[trigger] c.disabled_devices@[i];
                    &&& r.path matches Some(p) && p@ == selection@[i]@
                    &&& r.name is None
                    &&& r.verified_at == Some(now)
                },
    {
        let mut refs: Vec<DeviceRef> = Vec::new();
        let mut i: usize = 0;
        while i < selection.len()
            invariant
                i <= selection.len(),
                refs.len() == i,
                forall|j: int|
                    0 <= j < i ==> {
                        let r = #[trigger] refs@[j];
                        &&& r.path matches Some(p) && p@ == selection@[j]@
                        &&& r.name is None
                        &&& r.verified_at == Some(now)
                    },
            decreases selection.len() - i,
        {
            refs.push(
                DeviceRef {
                    path: Some(owned(selection[i].as_str())),
                    name: None,
                    verified_at: Some(now),
                },
            );
            i = i + 1;
        }
        DeviceConfiguration {
            version: owned("1.0"),
            disabled_devices: refs,
            created_at: now,
            updated_at: now,
        }
    }

    /// The configuration that disables the devices of `selection`, made now (at the UNIX
    /// epoch when the clock cannot be read as a date).
    pub fn complete(&self, selection: &Vec<String>) -> (c: DeviceConfiguration)
        ensures
            c.version@ == "1.0"@,
            c.disabled_devices.len() == selection.len(),
            forall|i: int|
                0 <= i < selection.len() ==> {
                    let r = #[trigger] c.disabled_devices@[i];
                    &&& r.path matches Some(p) && p@ == selection@[i]@
                    &&& r.name is None
                    &&& r.verified_at is Some
                },
    {
        let now = match now_with_stamp() {
            Some((ms, _)) => ms,
            None => 0,
        };
        self.complete_at(selection, now)
    }
}

} // verus!
