//! Disabling built-in devices by taking an exclusive grab on their evdev files.

use vstd::prelude::*;

use crate::logic::state::DeviceType;
use crate::detection::{debug_path, path_debug};
use crate::platform::linux::grab::{grab_device, ungrab_device, HeldDevice};
use crate::platform::linux::open_device;
use crate::path::{keys_of, path_insert, path_key, path_keys, paths_equal, PathKey};
use crate::text::owned;

verus! {

/// Calls `std::io::Error::kind` and tells whether it is `PermissionDenied`. Nothing is
/// stated: the error is opaque here.
#[verifier::external_body]
fn is_permission_denied(err: &std::io::Error) -> bool {
    err.kind() == std::io::ErrorKind::PermissionDenied
}

/// Calls `std::io::Error::raw_os_error`, the OS error number behind the error, if any.
/// Nothing is stated: the error is opaque here.
#[verifier::external_body]
fn raw_os_error(err: &std::io::Error) -> Option<i32> {
    err.raw_os_error()
}

/// Calls `Display` on an I/O error: the text that describes it. Nothing is stated: the
/// error is opaque here.
#[verifier::external_body]
fn io_error_text(err: &std::io::Error) -> String {
    err.to_string()
}

/// The text of the error returned when a device could not be let go.
pub open spec fn ungrab_failure_text(path: Seq<char>, cause: Seq<char>) -> Seq<char> {
    "failed to ungrab "@ + path_debug(path) + ": "@ + cause
}

/// The text of the error returned when the device at `path` could not be let go because
/// of `cause`: `failed to ungrab <path>: <cause>`, the path as `Debug` prints it.
pub fn ungrab_failure_message(path: &str, cause: &str) -> (r: String)
    ensures
        r@ == ungrab_failure_text(path@, cause@),
{
    let mut s = owned("failed to ungrab ");
    s.push_str(debug_path(path).as_str());
    s.push_str(": ");
    s.push_str(cause);
    s
}

/// An evdev device this process holds a grab on, with the path it was opened at.
pub struct GrabbedDevice {
    device: HeldDevice,
}

/// The paths of a list of grabbed devices.
pub open spec fn grabbed_paths(v: Seq<GrabbedDevice>) -> Seq<Seq<char>> {
    v.map_values(|g: GrabbedDevice| g.path_view())
}

/// What the paths of a list of grabbed devices compare by.
pub open spec fn grabbed_keys(v: Seq<GrabbedDevice>) -> Seq<PathKey> {
    keys_of(grabbed_paths(v))
}

impl GrabbedDevice {
    /// The path the grabbed device was opened at.
    pub closed spec fn path_view(&self) -> Seq<char> {
        self.device.path_view()
    }
}

/// Why built-in devices could not be disabled or enabled.
#[derive(Debug, Clone, PartialEq, Eq)]
pub enum DisableError {
    /// A device refused the grab with an error that is not passed over; the error's text.
    Grab { cause: String },
    /// Letting go of the grab on the device at `path` failed with an error that is not
    /// passed over; the error's text.
    Ungrab { path: String, cause: String },
}

/// The text shown for a disable or enable failure.
pub open spec fn disable_error_text(e: DisableError) -> Seq<char> {
    match e {
        DisableError::Grab { cause } => cause@,
        DisableError::Ungrab { path, cause } => ungrab_failure_text(path@, cause@),
    }
}

impl DisableError {
    /// The text shown for this failure: the cause of a refused grab, and
    /// `failed to ungrab <path>: <cause>` for a failed release.
    pub fn message(&self) -> (r: String)
        ensures
            r@ == disable_error_text(*self),
    {
        match self {
            DisableError::Grab { cause } => owned(cause.as_str()),
            DisableError::Ungrab { path, cause } => ungrab_failure_message(path.as_str(), cause.as_str()),
        }
    }
}

/// Whether a failed grab or ungrab is passed over: the device refuses because of
/// permissions, or is no terminal-like input device (OS error 25, ENOTTY).
pub open spec fn skippable(permission_denied: bool, raw: Option<i32>) -> bool {
    permission_denied || raw == Some(25i32)
}

/// Whether an I/O error of the given kind and OS error number is passed over.
pub fn grab_error_is_skippable(permission_denied: bool, raw: Option<i32>) -> (r: bool)
    ensures
        r == skippable(permission_denied, raw),
{
    permission_denied || match raw {
        Some(code) => code == 25,
        None => false,
    }
}

/// What became of one known device file when grabs were taken.
pub ghost enum GrabOutcome {
    /// A grab on it was held already; it was left alone.
    Held,
    /// It could not be opened; it was passed over.
    NotOpened,
    /// It was opened and grabbed.
    Grabbed,
    /// It was opened but refused the grab; the error's kind (permission denied or not)
    /// and OS error number.
    Refused { permission_denied: bool, raw: Option<i32> },
}

/// A refusal that is not passed over: it stops the work and is returned.
pub open spec fn stops(o: GrabOutcome) -> bool {
    o matches GrabOutcome::Refused { permission_denied, raw } && !skippable(permission_denied, raw)
}

/// The files of `ps` whose outcome in `outs` is a new grab.
pub open spec fn newly_grabbed(ps: Seq<PathKey>, outs: Seq<GrabOutcome>) -> Set<PathKey> {
    Set::new(
        |q: PathKey| exists|k: int| 0 <= k < outs.len() && k < ps.len() && outs[k] is Grabbed && ps[k] == q,
    )
}

/// `outs` records taking grabs on the files `ps`, in order, with the grabs `held` held
/// before: a file is left alone exactly when a grab on it was held; the work goes on
/// until a refusal that is not passed over, which ends it; `ok` tells whether it ran to
/// the end without one.
pub open spec fn grab_record(ps: Seq<PathKey>, held: Set<PathKey>, outs: Seq<GrabOutcome>, ok: bool) -> bool {
    &&& outs.len() <= ps.len()
    &&& forall|k: int| #![trigger outs[k]] 0 <= k < outs.len() ==> (outs[k] is Held <==> held.contains(ps[k]))
    &&& forall|k: int| #![trigger outs[k]] 0 <= k < outs.len() - 1 ==> !stops(outs[k])
    &&& if ok {
        outs.len() == ps.len() && (outs.len() == 0 || !stops(outs.last()))
    } else {
        outs.len() > 0 && stops(outs.last())
    }
}

/// What became of one held grab when the grabs were let go: the file it is on, and
/// whether it was let go or the error's kind and OS error number.
pub ghost enum ReleaseOutcome {
    Released,
    Refused { permission_denied: bool, raw: Option<i32> },
}

/// A failed release that is not passed over: it makes the call fail.
pub open spec fn release_fails(o: ReleaseOutcome) -> bool {
    o matches ReleaseOutcome::Refused { permission_denied, raw } && !skippable(permission_denied, raw)
}

/// The first release of `outs` that failed in a way that is not passed over was the one
/// of the grab on `path`.
pub open spec fn first_failure_at(outs: Seq<(Seq<char>, ReleaseOutcome)>, path: Seq<char>) -> bool {
    exists|k: int|
        0 <= k < outs.len() && release_fails(#[trigger] outs[k].1) && outs[k].0 == path && forall|j: int|
            0 <= j < k ==> !release_fails(#[trigger] outs[j].1)
}

/// Some release of `outs` failed in a way that is not passed over.
pub open spec fn some_release_fails(outs: Seq<(Seq<char>, ReleaseOutcome)>) -> bool {
    exists|k: int| 0 <= k < outs.len() && release_fails(#[trigger] outs[k].1)
}

/// Disables built-in devices by grabbing their evdev files, and enables them by letting
/// go. It knows the device files of the built-in keyboards and pointing devices, and
/// holds the grabs it took. It keeps a record of what became of each file the last time
/// grabs were taken, and of each grab the last time grabs were let go.
pub struct EvdevDisabler {
    keyboard_paths: Vec<String>,
    pointing_paths: Vec<String>,
    keyboard_handles: Vec<GrabbedDevice>,
    pointing_handles: Vec<GrabbedDevice>,
    grab_log: Ghost<Seq<GrabOutcome>>,
    release_log: Ghost<Seq<(Seq<char>, ReleaseOutcome)>>,
}

impl Default for EvdevDisabler {
    fn default() -> (d: Self)
        ensures
            d.inv(),
            d.registered(DeviceType::Keyboard) == Set::<PathKey>::empty(),
            d.registered(DeviceType::Pointing) == Set::<PathKey>::empty(),
            d.grabbed(DeviceType::Keyboard) == Set::<PathKey>::empty(),
            d.grabbed(DeviceType::Pointing) == Set::<PathKey>::empty(),
    {
        Self::new()
    }
}

/// Grabs each path of `paths` not grabbed yet. A path that cannot be opened, or whose
/// grab fails in a way that is passed over, is left alone; any other grab failure stops
/// the work and is returned. When every path is grabbed already, nothing is opened and
/// the work succeeds. Gives, beside the result, what became of each path tried.
fn grab_all(paths: &Vec<String>, handles: &mut Vec<GrabbedDevice>) -> (r: (
    Result<(), DisableError>,
    Ghost<Seq<GrabOutcome>>,
))
    requires
        grabbed_keys(old(handles)@).no_duplicates(),
        path_keys(paths@).no_duplicates(),
    ensures
        path_keys(paths@).to_set().subset_of(grabbed_keys(old(handles)@).to_set()) ==> r.0 is Ok
            && final(handles)@ == old(handles)@,
        grabbed_keys(final(handles)@).no_duplicates(),
        grab_record(path_keys(paths@), grabbed_keys(old(handles)@).to_set(), r.1@, r.0 is Ok),
        r.0 matches Err(e) ==> e is Grab,
        grabbed_keys(final(handles)@).to_set() == grabbed_keys(old(handles)@).to_set().union(
            newly_grabbed(path_keys(paths@), r.1@),
        ),
{
    let ghost start = grabbed_keys(handles@).to_set();
    let ghost pk = path_keys(paths@);
    let ghost all_held = pk.to_set().subset_of(start);
    let ghost mut outs: Seq<GrabOutcome> = Seq::empty();
    let mut i: usize = 0;
    assert(newly_grabbed(pk, outs) =~= Set::<PathKey>::empty());
    assert(start.union(Set::<PathKey>::empty()) =~= start);
    while i < paths.len()
        invariant
            i <= paths.len(),
            pk == path_keys(paths@),
            pk.no_duplicates(),
            start == grabbed_keys(old(handles)@).to_set(),
            all_held == pk.to_set().subset_of(start),
            all_held ==> handles@ == old(handles)@,
            grabbed_keys(handles@).no_duplicates(),
            outs.len() == i,
            forall|k: int| #![trigger outs[k]] 0 <= k < i ==> (outs[k] is Held <==> start.contains(pk[k])),
            forall|k: int| #![trigger outs[k]] 0 <= k < i ==> !stops(outs[k]),
            grabbed_keys(handles@).to_set() == start.union(newly_grabbed(pk, outs)),
        decreases paths.len() - i,
    {
        let path = &paths[i];
        let ghost key = path_key(path@);
        assert(pk[i as int] == key);
        assert(pk.contains(key));
        proof {
            if newly_grabbed(pk, outs).contains(key) {
                let k = choose|k: int|
                    0 <= k < outs.len() && k < pk.len() && outs[k] is Grabbed && pk[k] == key;
                assert(pk[k] == pk[i as int]);
                assert(false);
            }
            assert(!newly_grabbed(pk, outs).contains(key));
            assert(grabbed_keys(handles@).to_set().contains(key) == start.contains(key));
            assert(grabbed_keys(handles@).contains(key) == start.contains(key));
            if all_held {
                assert(pk.to_set().contains(key));
                assert(grabbed_keys(handles@).to_set().contains(key));
                assert(grabbed_keys(handles@).contains(key));
            }
        }
        let ghost next: GrabOutcome;
        let held = handle_held(handles, path.as_str());
        assert(held == start.contains(pk[i as int]));
        if held {
            proof {
                next = GrabOutcome::Held;
            }
        } else {
            match open_device(path.as_str()) {
                Err(_) => {
                    proof {
                        next = GrabOutcome::NotOpened;
                    }
                },
                Ok(device) => {
                    match grab_device(device) {
                        Err(err) => {
                            let permission_denied = is_permission_denied(&err);
                            let raw = raw_os_error(&err);
                            proof {
                                next = GrabOutcome::Refused { permission_denied, raw };
                            }
                            if !grab_error_is_skippable(permission_denied, raw) {
                                let ghost done = outs.push(next);
                                proof {
                                    assert(done.last() == next);
                                    assert forall|k: int| #![trigger done[k]] 0 <= k < done.len() implies (
                                    done[k] is Held <==> start.contains(pk[k])) by {
                                        if k < i {
                                            assert(done[k] == outs[k]);
                                        }
                                    }
                                    assert forall|k: int| #![trigger done[k]] 0 <= k < done.len() - 1 implies !stops(
                                    done[k]) by {
                                        assert(done[k] == outs[k]);
                                    }
                                    assert(newly_grabbed(pk, done) =~= newly_grabbed(pk, outs));
                                }
                                let cause = io_error_text(&err);
                                return (Err(DisableError::Grab { cause }), Ghost(done));
                            }
                        },
                        Ok(held) => {
                            let ghost before = handles@;
                            let g = GrabbedDevice { device: held };
                            assert(g.path_view() == path@);
                            handles.push(g);
                            assert(grabbed_paths(handles@) =~= grabbed_paths(before).push(path@));
                            assert(grabbed_keys(handles@) =~= grabbed_keys(before).push(key));
                            proof {
                                next = GrabOutcome::Grabbed;
                                grabbed_keys(before).lemma_push_to_set_commute(key);
                                assert forall|a: int, b: int|
                                    0 <= a < grabbed_keys(handles@).len() && 0 <= b
                                        < grabbed_keys(handles@).len() && a != b implies grabbed_keys(
                                    handles@,
                                )[a] != grabbed_keys(handles@)[b] by {
                                    if a == before.len() {
                                        assert(grabbed_keys(before).contains(
                                            grabbed_keys(handles@)[b],
                                        ));
                                    }
                                    if b == before.len() {
                                        assert(grabbed_keys(before).contains(
                                            grabbed_keys(handles@)[a],
                                        ));
                                    }
                                }
                            }
                        },
                    }
                },
            }
        }
        proof {
            let old_outs = outs;
            outs = outs.push(next);
            assert forall|k: int| #![trigger outs[k]] 0 <= k < i + 1 implies (outs[k] is Held
                <==> start.contains(pk[k])) by {
                if k < i {
                    assert(outs[k] == old_outs[k]);
                }
            }
            assert forall|k: int| #![trigger outs[k]] 0 <= k < i + 1 implies !stops(outs[k]) by {
                if k < i {
                    assert(outs[k] == old_outs[k]);
                }
            }
            assert forall|q: PathKey| newly_grabbed(pk, outs).contains(q) <==> (newly_grabbed(
                pk,
                old_outs,
            ).contains(q) || (next is Grabbed && q == key)) by {
                if newly_grabbed(pk, outs).contains(q) {
                    let k = choose|k: int|
                        0 <= k < outs.len() && k < pk.len() && outs[k] is Grabbed && pk[k] == q;
                    if k < i {
                        assert(outs[k] == old_outs[k]);
                    }
                }
                if newly_grabbed(pk, old_outs).contains(q) {
                    let k = choose|k: int|
                        0 <= k < old_outs.len() && k < pk.len() && old_outs[k] is Grabbed && pk[k] == q;
                    assert(outs[k] == old_outs[k]);
                }
                if next is Grabbed && q == key {
                    assert(outs[i as int] == next);
                }
            }
            assert(grabbed_keys(handles@).to_set() =~= start.union(newly_grabbed(pk, outs)));
        }
        i = i + 1;
    }
    proof {
        assert(outs.len() == pk.len());
        if outs.len() > 0 {
            assert(!stops(outs[outs.len() - 1]));
        }
    }
    (Ok(()), Ghost(outs))
}

/// Whether a grab on `path` is held.
fn handle_held(handles: &Vec<GrabbedDevice>, path: &str) -> (r: bool)
    ensures
        r == grabbed_keys(handles@).contains(path_key(path@)),
{
    let mut k: usize = 0;
    while k < handles.len()
        invariant
            k <= handles.len(),
            forall|j: int| 0 <= j < k ==> grabbed_keys(handles@)[j] != path_key(path@),
        decreases handles.len() - k,
    {
        if paths_equal(handles[k].device.path(), path) {
            assert(grabbed_keys(handles@)[k as int] == path_key(path@));
            return true;
        }
        k = k + 1;
    }
    false
}

/// Lets go of every grab held in `handles`, from the last taken to the first. A failure
/// that is passed over is ignored; of the others, the first is returned once all were
/// tried. Gives, beside the result, what became of each grab, in the order tried.
fn ungrab_all(handles: &mut Vec<GrabbedDevice>) -> (r: (
    Result<(), DisableError>,
    Ghost<Seq<(Seq<char>, ReleaseOutcome)>>,
))
    ensures
        final(handles)@.len() == 0,
        r.1@.len() == old(handles)@.len(),
        forall|j: int|
            0 <= j < r.1@.len() ==> (#[trigger] r.1@[j]).0 == grabbed_paths(old(handles)@)[old(handles)@.len() - 1 - j],
        r.0 is Err <==> some_release_fails(r.1@),
        r.0 matches Err(e) ==> (e matches DisableError::Ungrab { path, .. } && first_failure_at(
            r.1@,
            path@,
        )),
{
    let ghost orig = grabbed_paths(handles@);
    let ghost n = handles@.len();
    let ghost mut outs: Seq<(Seq<char>, ReleaseOutcome)> = Seq::empty();
    let mut failure: Option<DisableError> = None;
    while handles.len() > 0
        invariant
            orig == grabbed_paths(old(handles)@),
            n == old(handles)@.len(),
            handles@.len() + outs.len() == n,
            grabbed_paths(handles@) == orig.subrange(0, handles@.len() as int),
            forall|j: int| 0 <= j < outs.len() ==> (#[trigger] outs[j]).0 == orig[n - 1 - j],
            failure is Some <==> some_release_fails(outs),
            failure matches Some(e) ==> (e matches DisableError::Ungrab { path, .. } && first_failure_at(
                outs,
                path@,
            )),
        decreases handles.len(),
    {
        let ghost before = handles@;
        let mut g = handles.pop().unwrap();
        assert(handles@ =~= before.subrange(0, before.len() - 1));
        assert(grabbed_paths(before)[before.len() - 1] == g.path_view());
        assert(grabbed_paths(handles@) =~= orig.subrange(0, handles@.len() as int));
        let ghost p = g.path_view();
        let ghost next: ReleaseOutcome;
        let ghost was_failing = failure is Some;
        match ungrab_device(&mut g.device) {
            Ok(()) => {
                proof {
                    next = ReleaseOutcome::Released;
                }
            },
            Err(err) => {
                let permission_denied = is_permission_denied(&err);
                let raw = raw_os_error(&err);
                proof {
                    next = ReleaseOutcome::Refused { permission_denied, raw };
                }
                if !grab_error_is_skippable(permission_denied, raw) && failure.is_none() {
                    let cause = io_error_text(&err);
                    let path = owned(g.device.path());
                    failure = Some(DisableError::Ungrab { path, cause });
                }
            },
        }
        proof {
            let old_outs = outs;
            outs = outs.push((p, next));
            assert(orig[n - 1 - old_outs.len()] == p);
            assert forall|j: int| 0 <= j < outs.len() implies (#[trigger] outs[j]).0 == orig[n - 1 - j] by {
                if j < old_outs.len() {
                    assert(outs[j] == old_outs[j]);
                }
            }
            if some_release_fails(old_outs) {
                let k = choose|k: int| 0 <= k < old_outs.len() && release_fails(#[trigger] old_outs[k].1);
                assert(outs[k] == old_outs[k]);
            }
            if release_fails(next) {
                assert(outs[old_outs.len() as int].1 == next);
            }
            if some_release_fails(outs) {
                let k = choose|k: int| 0 <= k < outs.len() && release_fails(#[trigger] outs[k].1);
                if k < old_outs.len() {
                    assert(outs[k] == old_outs[k]);
                }
            }
            if was_failing {
                let e = failure->0;
                let fp = e->path;
                let k = choose|k: int|
                    0 <= k < old_outs.len() && release_fails(#[trigger] old_outs[k].1) && old_outs[k].0 == fp@
                        && forall|j: int| 0 <= j < k ==> !release_fails(#[trigger] old_outs[j].1);
                assert(outs[k] == old_outs[k]);
                assert forall|j: int| 0 <= j < k implies !release_fails(#[trigger] outs[j].1) by {
                    assert(outs[j] == old_outs[j]);
                }
                assert(first_failure_at(outs, fp@));
            } else if failure is Some {
                let k = old_outs.len() as int;
                assert(outs[k] == (p, next));
                assert(!some_release_fails(old_outs));
                assert forall|j: int| 0 <= j < k implies !release_fails(#[trigger] outs[j].1) by {
                    assert(outs[j] == old_outs[j]);
                }
                assert(first_failure_at(outs, p));
            }
        }
    }
    match failure {
        Some(e) => (Err(e), Ghost(outs)),
        None => (Ok(()), Ghost(outs)),
    }
}

impl EvdevDisabler {
    /// The device files known for the built-in devices of type `ty`, as paths compare.
    pub closed spec fn registered(&self, ty: DeviceType) -> Set<PathKey> {
        match ty {
            DeviceType::Keyboard => path_keys(self.keyboard_paths@).to_set(),
            DeviceType::Pointing => path_keys(self.pointing_paths@).to_set(),
        }
    }

    /// The device files of type `ty` this disabler holds a grab on, as paths compare.
    pub closed spec fn grabbed(&self, ty: DeviceType) -> Set<PathKey> {
        match ty {
            DeviceType::Keyboard => grabbed_keys(self.keyboard_handles@).to_set(),
            DeviceType::Pointing => grabbed_keys(self.pointing_handles@).to_set(),
        }
    }

    /// The device files known for the built-in devices of type `ty`, in the order they
    /// are tried when grabs are taken.
    pub closed spec fn registered_order(&self, ty: DeviceType) -> Seq<PathKey> {
        match ty {
            DeviceType::Keyboard => path_keys(self.keyboard_paths@),
            DeviceType::Pointing => path_keys(self.pointing_paths@),
        }
    }

    /// The device files of type `ty` grabbed, in the order the grabs were taken.
    pub closed spec fn held_order(&self, ty: DeviceType) -> Seq<PathKey> {
        match ty {
            DeviceType::Keyboard => grabbed_keys(self.keyboard_handles@),
            DeviceType::Pointing => grabbed_keys(self.pointing_handles@),
        }
    }

    /// The paths of the device files of type `ty` grabbed, in the order the grabs were
    /// taken; each is the path the grabbed device was opened at.
    pub closed spec fn held_paths(&self, ty: DeviceType) -> Seq<Seq<char>> {
        match ty {
            DeviceType::Keyboard => grabbed_paths(self.keyboard_handles@),
            DeviceType::Pointing => grabbed_paths(self.pointing_handles@),
        }
    }

    /// The held grabs, in order, compare by the keys of their paths.
    pub proof fn lemma_held_paths(&self, ty: DeviceType)
        ensures
            self.held_order(ty) == keys_of(self.held_paths(ty)),
    {
    }

    /// What became of each file the last time grabs were taken, in the order tried.
    pub closed spec fn grab_outcomes(&self) -> Seq<GrabOutcome> {
        self.grab_log@
    }

    /// What became of each grab the last time grabs were let go, in the order tried.
    pub closed spec fn release_outcomes(&self) -> Seq<(Seq<char>, ReleaseOutcome)> {
        self.release_log@
    }

    /// The known files of a type, and the held grabs, in order, are those of the sets.
    pub proof fn lemma_orders(&self, ty: DeviceType)
        ensures
            self.registered_order(ty).to_set() == self.registered(ty),
            self.held_order(ty).to_set() == self.grabbed(ty),
    {
    }

    /// No path is known twice, and no device is grabbed twice.
    pub closed spec fn inv(&self) -> bool {
        &&& path_keys(self.keyboard_paths@).no_duplicates()
        &&& path_keys(self.pointing_paths@).no_duplicates()
        &&& grabbed_keys(self.keyboard_handles@).no_duplicates()
        &&& grabbed_keys(self.pointing_handles@).no_duplicates()
    }

    pub fn new() -> (d: Self)
        ensures
            d.inv(),
            d.registered(DeviceType::Keyboard) == Set::<PathKey>::empty(),
            d.registered(DeviceType::Pointing) == Set::<PathKey>::empty(),
            d.grabbed(DeviceType::Keyboard) == Set::<PathKey>::empty(),
            d.grabbed(DeviceType::Pointing) == Set::<PathKey>::empty(),
    {
        let d = Self {
            keyboard_paths: Vec::new(),
            pointing_paths: Vec::new(),
            keyboard_handles: Vec::new(),
            pointing_handles: Vec::new(),
            grab_log: Ghost(Seq::empty()),
            release_log: Ghost(Seq::empty()),
        };
        assert(path_keys(d.keyboard_paths@).to_set() =~= Set::<PathKey>::empty());
        assert(path_keys(d.pointing_paths@).to_set() =~= Set::<PathKey>::empty());
        assert(grabbed_keys(d.keyboard_handles@).to_set() =~= Set::<PathKey>::empty());
        assert(grabbed_keys(d.pointing_handles@).to_set() =~= Set::<PathKey>::empty());
        d
    }

    /// Records the device file of a built-in device of type `device_type`.
    pub fn register_internal(&mut self, device_type: DeviceType, path: &str)
        requires
            old(self).inv(),
        ensures
            final(self).inv(),
            final(self).registered(device_type) == old(self).registered(device_type).insert(
                path_key(path@),
            ),
            forall|t: DeviceType|
                t != device_type ==> final(self).registered(t) == old(self).registered(t),
            forall|t: DeviceType| final(self).grabbed(t) == old(self).grabbed(t),
    {
        match device_type {
            DeviceType::Keyboard => {
                path_insert(&mut self.keyboard_paths, path);
            },
            DeviceType::Pointing => {
                path_insert(&mut self.pointing_paths, path);
            },
        }
    }

    /// Grabs the known device files of type `device_type` that are not grabbed yet, in
    /// order. Files that cannot be opened, or refuse the grab for lack of permission or
    /// for not being grabbable, are passed over; any other refusal stops the work and is
    /// returned. When all of them are grabbed already, nothing changes and the call
    /// succeeds. What became of each file tried is recorded in `grab_outcomes`.
    pub fn disable(&mut self, device_type: DeviceType) -> (r: Result<(), DisableError>)
        requires
            old(self).inv(),
        ensures
            final(self).inv(),
            forall|t: DeviceType| final(self).registered(t) == old(self).registered(t),
            forall|t: DeviceType| final(self).registered_order(t) == old(self).registered_order(t),
            grab_record(
                old(self).registered_order(device_type),
                old(self).grabbed(device_type),
                final(self).grab_outcomes(),
                r is Ok,
            ),
            final(self).grabbed(device_type) == old(self).grabbed(device_type).union(
                newly_grabbed(old(self).registered_order(device_type), final(self).grab_outcomes()),
            ),
            old(self).registered(device_type).subset_of(old(self).grabbed(device_type)) ==> r is Ok
                && final(self).grabbed(device_type) == old(self).grabbed(device_type),
            old(self).grabbed(device_type).subset_of(final(self).grabbed(device_type)),
            final(self).grabbed(device_type).subset_of(
                old(self).grabbed(device_type).union(old(self).registered(device_type)),
            ),
            forall|t: DeviceType|
                t != device_type ==> final(self).grabbed(t) == old(self).grabbed(t),
            final(self).release_outcomes() == old(self).release_outcomes(),
            r matches Err(e) ==> e is Grab,
    {
        let (r, Ghost(outs)) = match device_type {
            DeviceType::Keyboard => grab_all(&self.keyboard_paths, &mut self.keyboard_handles),
            DeviceType::Pointing => grab_all(&self.pointing_paths, &mut self.pointing_handles),
        };
        self.grab_log = Ghost(outs);
        proof {
            let ps = old(self).registered_order(device_type);
            assert forall|q: PathKey| newly_grabbed(ps, outs).contains(q) implies old(self).registered(device_type).contains(q) by {
                let k = choose|k: int| 0 <= k < outs.len() && k < ps.len() && outs[k] is Grabbed && ps[k] == q;
                assert(ps.contains(q));
            }
        }
        r
    }

    /// Lets go of every grab held on devices of type `device_type`, from the last taken
    /// to the first. Failures that are passed over are ignored; the call fails exactly
    /// when another failure happened, and then names the path of the first of them, after
    /// all were tried. What became of each grab is recorded in `release_outcomes`.
    pub fn enable(&mut self, device_type: DeviceType) -> (r: Result<(), DisableError>)
        requires
            old(self).inv(),
        ensures
            final(self).inv(),
            forall|t: DeviceType| final(self).registered(t) == old(self).registered(t),
            forall|t: DeviceType| final(self).registered_order(t) == old(self).registered_order(t),
            final(self).grabbed(device_type) == Set::<PathKey>::empty(),
            forall|t: DeviceType|
                t != device_type ==> final(self).grabbed(t) == old(self).grabbed(t),
            final(self).release_outcomes().len() == old(self).held_paths(device_type).len(),
            forall|j: int|
                0 <= j < final(self).release_outcomes().len() ==> (#[trigger] final(self).release_outcomes()[j]).0 == old(self).held_paths(device_type)[old(self).held_paths(device_type).len() - 1 - j],
            r is Err <==> some_release_fails(final(self).release_outcomes()),
            r matches Err(e) ==> (e matches DisableError::Ungrab { path, .. } && first_failure_at(
                final(self).release_outcomes(),
                path@,
            )),
            final(self).grab_outcomes() == old(self).grab_outcomes(),
    {
        let (r, Ghost(outs)) = match device_type {
            DeviceType::Keyboard => ungrab_all(&mut self.keyboard_handles),
            DeviceType::Pointing => ungrab_all(&mut self.pointing_handles),
        };
        self.release_log = Ghost(outs);
        assert(grabbed_keys(self.keyboard_handles@).to_set() =~= Set::<PathKey>::empty()
            || device_type != DeviceType::Keyboard);
        assert(grabbed_keys(self.pointing_handles@).to_set() =~= Set::<PathKey>::empty()
            || device_type != DeviceType::Pointing);
        r
    }
}

} // verus!
