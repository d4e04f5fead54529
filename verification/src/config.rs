//! Configuration: the service settings, and the user's list of devices to disable.

use vstd::prelude::*;

use crate::detection::{same_text, texts_equal, InputDevice};
use crate::text::{owned, push_decimal, views, decimal};
use crate::path::{find_path, keys_of, path_key, path_keys, paths_equal, same_path, PathKey};

pub mod config;

pub use self::config::{config_path_for, status_path_for, DeviceRules};

verus! {

/// The service settings, with the format version and the per-device settings.
#[derive(Debug, Clone, PartialEq, Eq)]
pub struct Config {
    pub enabled: bool,
    pub device_rules: DeviceRules,
    pub version: String,
    pub devices_specific: DevicesSpecific,
}

/// Settings that name single devices.
#[derive(Debug, Clone, PartialEq, Eq)]
pub struct DevicesSpecific {
    /// The devices to disable.
    pub disabled: Vec<DeviceRef>,
}

impl Default for DevicesSpecific {
    fn default() -> (d: Self)
        ensures
            d.disabled@.len() == 0,
    {
        Self { disabled: Vec::new() }
    }
}

impl Default for Config {
    fn default() -> (c: Self)
        ensures
            !c.enabled,
            self::config::default_rules_view(c.device_rules),
            c.version@ == Seq::<char>::empty(),
            c.devices_specific.disabled@.len() == 0,
    {
        Self {
            enabled: false,
            device_rules: DeviceRules::default(),
            version: String::new(),
            devices_specific: DevicesSpecific::default(),
        }
    }
}

/// The version a configuration file without one is read as.
pub fn default_version() -> (v: String)
    ensures
        v@ == "0.1"@,
{
    owned("0.1")
}

impl Config {
    /// Moves a configuration of version 0.1 to version 1.0; the settings stay as they are.
    pub fn upgrade(&mut self)
        ensures
            final(self).version@ == upgraded_version(old(self).version@),
            final(self).enabled == old(self).enabled,
            final(self).device_rules == old(self).device_rules,
            final(self).devices_specific == old(self).devices_specific,
    {
        if crate::text::str_eq(self.version.as_str(), "0.1") {
            self.version = owned("1.0");
        }
    }
}

/// The user's list of devices to disable. The times count milliseconds since the UNIX
/// epoch, UTC.
#[derive(Debug, Clone)]
pub struct DeviceConfiguration {
    pub version: String,
    pub disabled_devices: Vec<DeviceRef>,
    pub created_at: i64,
    pub updated_at: i64,
}

/// A device named in the configuration, by path (looked at first) or by name.
/// `verified_at` counts milliseconds since the UNIX epoch, UTC. Two references are equal
/// when their fields are, their paths compared as `Path` compares them.
#[derive(Debug, Clone)]
pub struct DeviceRef {
    pub path: Option<String>,
    pub name: Option<String>,
    pub verified_at: Option<i64>,
}

/// Whether two optional paths are both absent or both present and equal as paths.
pub open spec fn same_opt_path(a: Option<String>, b: Option<String>) -> bool {
    match (a, b) {
        (None, None) => true,
        (Some(x), Some(y)) => same_path(x@, y@),
        _ => false,
    }
}

impl PartialEq for DeviceRef {
    fn eq(&self, other: &Self) -> (r: bool) {
        let paths = match (&self.path, &other.path) {
            (None, None) => true,
            (Some(x), Some(y)) => paths_equal(x.as_str(), y.as_str()),
            _ => false,
        };
        paths && texts_equal(&self.name, &other.name) && self.verified_at == other.verified_at
    }
}

impl vstd::std_specs::cmp::PartialEqSpecImpl for DeviceRef {
    open spec fn obeys_eq_spec() -> bool {
        true
    }

    open spec fn eq_spec(&self, other: &DeviceRef) -> bool {
        &&& same_opt_path(self.path, other.path)
        &&& same_text(self.name, other.name)
        &&& self.verified_at == other.verified_at
    }
}

impl Eq for DeviceRef {

}

/// Whether the reference `r` names the device `d`.
pub open spec fn ref_matches(r: DeviceRef, d: InputDevice) -> bool {
    ||| (r.path matches Some(p) && same_path(d.path@, p@))
    ||| (r.name matches Some(n) && d.name@ == n@)
}

/// A reference that gives only a path names exactly the devices whose path equals it as
/// paths compare, whatever their names; one that gives only a name names exactly the
/// devices of that name; and a reference whose path equals a device's path names it,
/// whatever name it gives.
pub proof fn lemma_ref_matches_by_parts(r: DeviceRef, d: InputDevice)
    ensures
        r.name is None ==> (ref_matches(r, d) <==> (r.path matches Some(p) && same_path(
            d.path@,
            p@,
        ))),
        r.path is None ==> (ref_matches(r, d) <==> (r.name matches Some(n) && d.name@ == n@)),
        (r.path matches Some(p) && same_path(d.path@, p@)) ==> ref_matches(r, d),
{
}

impl DeviceRef {
    pub fn from_path(path: String) -> (r: Self)
        ensures
            r == (DeviceRef { path: Some(path), name: None, verified_at: None }),
    {
        Self { path: Some(path), name: None, verified_at: None }
    }

    pub fn from_name(name: String) -> (r: Self)
        ensures
            r == (DeviceRef { path: None, name: Some(name), verified_at: None }),
    {
        Self { path: None, name: Some(name), verified_at: None }
    }

    /// Whether this reference names `device`: its path equals the device path as paths
    /// compare, or else its name equals the device name.
    pub fn matches(&self, device: &InputDevice) -> (r: bool)
        ensures
            r == ref_matches(*self, *device),
            self.name is None ==> (r <==> (self.path matches Some(p) && same_path(
                device.path@,
                p@,
            ))),
            self.path is None ==> (r <==> (self.name matches Some(n) && device.name@ == n@)),
            (self.path matches Some(p) && same_path(device.path@, p@)) ==> r,
    {
        proof {
            lemma_ref_matches_by_parts(*self, *device);
        }
        if let Some(path) = &self.path {
            if paths_equal(device.path.as_str(), path.as_str()) {
                return true;
            }
        }
        if let Some(name) = &self.name {
            if crate::text::str_eq(device.name.as_str(), name.as_str()) {
                return true;
            }
        }
        false
    }
}

/// Whether a reference gives a path or a name.
pub open spec fn names_something(r: DeviceRef) -> bool {
    r.path is Some || r.name is Some
}

/// Why a device configuration was refused.
#[derive(Debug, Clone, PartialEq, Eq, Structural)]
pub enum ConfigValidationError {
    /// More devices are listed than the validator allows.
    TooManyDevices { count: usize, max: usize },
    /// A reference names neither a path nor a name.
    EmptyReference,
}

/// The text shown for a refused configuration.
pub open spec fn config_error_text(e: ConfigValidationError) -> Seq<char> {
    match e {
        ConfigValidationError::TooManyDevices { count, max } => "禁用设备数量超过限制（"@ + decimal(
            count as nat,
        ) + " > "@ + decimal(max as nat) + "）"@,
        ConfigValidationError::EmptyReference => "设备引用无效：必须提供 path 或 name"@,
    }
}

impl ConfigValidationError {
    /// The text shown for this error.
    pub fn message(&self) -> (r: String)
        ensures
            r@ == config_error_text(*self),
    {
        match self {
            ConfigValidationError::TooManyDevices { count, max } => {
                let mut s = owned("禁用设备数量超过限制（");
                push_decimal(&mut s, *count as u64);
                s.push_str(" > ");
                push_decimal(&mut s, *max as u64);
                s.push_str("）");
                s
            },
            ConfigValidationError::EmptyReference => owned("设备引用无效：必须提供 path 或 name"),
        }
    }
}

/// Checks device configurations against a limit on the number of listed devices.
pub struct ConfigValidator {
    max_disabled_devices: usize,
}

impl Default for ConfigValidator {
    fn default() -> (v: Self)
        ensures
            v.limit() == 10,
    {
        Self { max_disabled_devices: 10 }
    }
}

/// The paths of the devices of `devs` that `r` names, in order.
pub open spec fn matching_paths(r: DeviceRef, devs: Seq<InputDevice>) -> Seq<Seq<char>>
    decreases devs.len(),
{
    if devs.len() == 0 {
        Seq::empty()
    } else {
        matching_paths(r, devs.drop_last()) + (if ref_matches(r, devs.last()) {
            seq![devs.last().path@]
        } else {
            Seq::empty()
        })
    }
}

/// The paths named by each reference in turn.
pub open spec fn candidate_paths(refs: Seq<DeviceRef>, devs: Seq<InputDevice>) -> Seq<Seq<char>>
    decreases refs.len(),
{
    if refs.len() == 0 {
        Seq::empty()
    } else {
        candidate_paths(refs.drop_last(), devs) + matching_paths(refs.last(), devs)
    }
}

/// `acc` followed by the entries of `xs` whose path it does not hold yet, each once, in
/// order; paths are compared as `Path` compares them.
pub open spec fn keep_first(acc: Seq<Seq<char>>, xs: Seq<Seq<char>>) -> Seq<Seq<char>>
    decreases xs.len(),
{
    if xs.len() == 0 {
        acc
    } else {
        let a = keep_first(acc, xs.drop_last());
        if keys_of(a).contains(path_key(xs.last())) {
            a
        } else {
            a.push(xs.last())
        }
    }
}

/// No two resolved paths are equal as paths, and they name exactly the paths that were
/// there before together with those named.
pub proof fn lemma_keep_first_distinct_and_complete(acc: Seq<Seq<char>>, xs: Seq<Seq<char>>)
    requires
        keys_of(acc).no_duplicates(),
    ensures
        keys_of(keep_first(acc, xs)).no_duplicates(),
        keys_of(keep_first(acc, xs)).to_set() == keys_of(acc).to_set().union(keys_of(xs).to_set()),
    decreases xs.len(),
{
    if xs.len() == 0 {
        assert(keys_of(xs).to_set() =~= Set::<PathKey>::empty());
        assert(keys_of(acc).to_set().union(keys_of(xs).to_set()) =~= keys_of(acc).to_set());
    } else {
        let init = xs.drop_last();
        let x = xs.last();
        let kx = path_key(x);
        lemma_keep_first_distinct_and_complete(acc, init);
        let a = keep_first(acc, init);
        let ka = keys_of(a);
        assert(keys_of(xs).to_set() =~= keys_of(init).to_set().insert(kx)) by {
            assert(keys_of(xs) =~= keys_of(init).push(kx));
            keys_of(init).lemma_push_to_set_commute(kx);
        }
        if ka.contains(kx) {
            assert(ka.to_set().contains(kx));
            assert(keys_of(acc).to_set().union(keys_of(xs).to_set()) =~= ka.to_set());
        } else {
            let kb = keys_of(a.push(x));
            assert(kb =~= ka.push(kx));
            ka.lemma_push_to_set_commute(kx);
            assert(keys_of(acc).to_set().union(keys_of(xs).to_set()) =~= kb.to_set());
            assert forall|i: int, j: int| 0 <= i < kb.len() && 0 <= j < kb.len() && i != j implies kb[i]
                != kb[j] by {
                if i == ka.len() {
                    assert(ka.contains(kb[j]));
                }
                if j == ka.len() {
                    assert(ka.contains(kb[i]));
                }
            }
        }
    }
}

/// The resolution gives each named path of an available device once: no path twice (as
/// paths compare), and every path that some reference names among the available devices.
pub proof fn lemma_resolution_distinct_and_complete(refs: Seq<DeviceRef>, devs: Seq<InputDevice>)
    ensures
        keys_of(keep_first(Seq::empty(), candidate_paths(refs, devs))).no_duplicates(),
        keys_of(keep_first(Seq::empty(), candidate_paths(refs, devs))).to_set() == keys_of(
            candidate_paths(refs, devs),
        ).to_set(),
{
    let e = Seq::<Seq<char>>::empty();
    assert(keys_of(e) =~= Seq::<PathKey>::empty());
    lemma_keep_first_distinct_and_complete(e, candidate_paths(refs, devs));
    assert(keys_of(e).to_set().union(keys_of(candidate_paths(refs, devs)).to_set()) =~= keys_of(
        candidate_paths(refs, devs),
    ).to_set());
}

/// A path is a candidate exactly when some reference names an available device with
/// that path.
pub proof fn lemma_candidates_are_matches(refs: Seq<DeviceRef>, devs: Seq<InputDevice>, p: Seq<char>)
    ensures
        candidate_paths(refs, devs).contains(p) <==> exists|i: int, j: int|
            0 <= i < refs.len() && 0 <= j < devs.len() && ref_matches(refs[i], devs[j])
                && devs[j].path@ == p,
    decreases refs.len(),
{
    if refs.len() > 0 {
        let init = refs.drop_last();
        lemma_candidates_are_matches(init, devs, p);
        lemma_matching_paths(refs.last(), devs, p);
        let c = candidate_paths(refs, devs);
        assert(c == candidate_paths(init, devs) + matching_paths(refs.last(), devs));
        if c.contains(p) {
            let k = choose|k: int| 0 <= k < c.len() && c[k] == p;
            if k < candidate_paths(init, devs).len() {
                assert(candidate_paths(init, devs).contains(p));
                let (i, j) = choose|i: int, j: int|
                    0 <= i < init.len() && 0 <= j < devs.len() && ref_matches(init[i], devs[j])
                        && devs[j].path@ == p;
                assert(refs[i] == init[i]);
            } else {
                assert(matching_paths(refs.last(), devs)[k - candidate_paths(init, devs).len()]
                    == p);
                assert(matching_paths(refs.last(), devs).contains(p));
                let j = choose|j: int|
                    0 <= j < devs.len() && ref_matches(refs.last(), devs[j]) && devs[j].path@ == p;
                assert(refs[refs.len() - 1] == refs.last());
            }
        }
        if exists|i: int, j: int|
            0 <= i < refs.len() && 0 <= j < devs.len() && ref_matches(refs[i], devs[j])
                && devs[j].path@ == p {
            let (i, j) = choose|i: int, j: int|
                0 <= i < refs.len() && 0 <= j < devs.len() && ref_matches(refs[i], devs[j])
                    && devs[j].path@ == p;
            if i < refs.len() - 1 {
                assert(init[i] == refs[i]);
                assert(candidate_paths(init, devs).contains(p));
                let k = choose|k: int|
                    0 <= k < candidate_paths(init, devs).len() && candidate_paths(init, devs)[k]
                        == p;
                assert(c[k] == p);
            } else {
                assert(matching_paths(refs.last(), devs).contains(p));
                let k = choose|k: int|
                    0 <= k < matching_paths(refs.last(), devs).len() && matching_paths(
                        refs.last(),
                        devs,
                    )[k] == p;
                assert(c[k + candidate_paths(init, devs).len()] == p);
            }
        }
    }
}

proof fn lemma_matching_paths(r: DeviceRef, devs: Seq<InputDevice>, p: Seq<char>)
    ensures
        matching_paths(r, devs).contains(p) <==> exists|j: int|
            0 <= j < devs.len() && ref_matches(r, devs[j]) && devs[j].path@ == p,
    decreases devs.len(),
{
    if devs.len() > 0 {
        let init = devs.drop_last();
        lemma_matching_paths(r, init, p);
        let m = matching_paths(r, devs);
        let tail: Seq<Seq<char>> = if ref_matches(r, devs.last()) {
            seq![devs.last().path@]
        } else {
            Seq::empty()
        };
        assert(m == matching_paths(r, init) + tail);
        if m.contains(p) {
            let k = choose|k: int| 0 <= k < m.len() && m[k] == p;
            if k < matching_paths(r, init).len() {
                assert(matching_paths(r, init).contains(p));
                let j = choose|j: int|
                    0 <= j < init.len() && ref_matches(r, init[j]) && init[j].path@ == p;
                assert(devs[j] == init[j]);
            } else {
                assert(devs[devs.len() - 1] == devs.last());
            }
        }
        if exists|j: int| 0 <= j < devs.len() && ref_matches(r, devs[j]) && devs[j].path@ == p {
            let j = choose|j: int|
                0 <= j < devs.len() && ref_matches(r, devs[j]) && devs[j].path@ == p;
            if j < devs.len() - 1 {
                assert(init[j] == devs[j]);
                let k = choose|k: int|
                    0 <= k < matching_paths(r, init).len() && matching_paths(r, init)[k] == p;
                assert(m[k] == p);
            } else {
                assert(m[matching_paths(r, init).len() as int] == p);
            }
        }
    }
}

/// The version an upgrade leaves.
pub open spec fn upgraded_version(v: Seq<char>) -> Seq<char> {
    if v == "0.1"@ {
        "1.0"@
    } else {
        v
    }
}

/// Upgrading twice leaves what upgrading once leaves.
pub proof fn lemma_upgrade_idempotent(v: Seq<char>)
    ensures
        upgraded_version(upgraded_version(v)) == upgraded_version(v),
{
    reveal_strlit("0.1");
    reveal_strlit("1.0");
    assert("1.0"@ != "0.1"@) by {
        assert("1.0"@[0] != "0.1"@[0]);
    }
}

impl ConfigValidator {
    /// The largest number of devices a configuration may list.
    pub closed spec fn limit(&self) -> usize {
        self.max_disabled_devices
    }

    pub fn new(max_disabled_devices: usize) -> (v: Self)
        ensures
            v.limit() == max_disabled_devices,
    {
        Self { max_disabled_devices }
    }

    /// Accepts a configuration that lists at most `limit()` devices, each by path or by
    /// name. The count is checked first.
    pub fn validate(&self, config: &DeviceConfiguration) -> (r: Result<(), ConfigValidationError>)
        ensures
            config.disabled_devices.len() > self.limit() ==> r == Err::<(), ConfigValidationError>(
                ConfigValidationError::TooManyDevices {
                    count: config.disabled_devices.len(),
                    max: self.limit(),
                },
            ),
            config.disabled_devices.len() <= self.limit() ==> (r is Ok <==> forall|i: int|
                0 <= i < config.disabled_devices.len() ==> names_something(
                    #[trigger] config.disabled_devices@[i],
                )),
            config.disabled_devices.len() <= self.limit() && r is Err ==> r
                == Err::<(), ConfigValidationError>(ConfigValidationError::EmptyReference),
    {
        let count = config.disabled_devices.len();
        if count > self.max_disabled_devices {
            return Err(
                ConfigValidationError::TooManyDevices { count, max: self.max_disabled_devices },
            );
        }
        let mut i: usize = 0;
        while i < count
            invariant
                i <= count,
                count == config.disabled_devices.len(),
                count <= self.limit(),
                forall|j: int|
                    0 <= j < i ==> names_something(#[trigger] config.disabled_devices@[j]),
            decreases count - i,
        {
            let r = &config.disabled_devices[i];
            if r.path.is_none() && r.name.is_none() {
                return Err(ConfigValidationError::EmptyReference);
            }
            i = i + 1;
        }
        Ok(())
    }

    /// The paths of the available devices named by the configuration, in the order the
    /// references and then the devices come, each once.
    pub fn resolve_device_refs(&self, config: &DeviceConfiguration, available: &Vec<InputDevice>) -> (r:
        Vec<String>)
        ensures
            views(r@) == keep_first(
                Seq::empty(),
                candidate_paths(config.disabled_devices@, available@),
            ),
    {
        let refs = &config.disabled_devices;
        let mut resolved: Vec<String> = Vec::new();
        let mut i: usize = 0;
        assert(refs@.subrange(0, 0) =~= Seq::<DeviceRef>::empty());
        assert(views(resolved@) =~= Seq::<Seq<char>>::empty());
        while i < refs.len()
            invariant
                i <= refs.len(),
                views(resolved@) == keep_first(
                    Seq::empty(),
                    candidate_paths(refs@.subrange(0, i as int), available@),
                ),
            decreases refs.len() - i,
        {
            let r = &refs[i];
            let ghost before = candidate_paths(refs@.subrange(0, i as int), available@);
            let mut j: usize = 0;
            assert(available@.subrange(0, 0) =~= Seq::<InputDevice>::empty());
            assert(before + matching_paths(*r, available@.subrange(0, 0)) =~= before);
            while j < available.len()
                invariant
                    j <= available.len(),
                    views(resolved@) == keep_first(
                        Seq::empty(),
                        before + matching_paths(*r, available@.subrange(0, j as int)),
                    ),
                decreases available.len() - j,
            {
                let device = &available[j];
                let ghost xs = before + matching_paths(*r, available@.subrange(0, j as int));
                assert(available@.subrange(0, j + 1).drop_last() =~= available@.subrange(
                    0,
                    j as int,
                ));
                assert(available@.subrange(0, j + 1).last() == *device);
                if r.matches(device) {
                    assert(before + matching_paths(*r, available@.subrange(0, j + 1)) =~= xs.push(
                        device.path@,
                    ));
                    assert(xs.push(device.path@).drop_last() =~= xs);
                    assert(path_keys(resolved@) =~= keys_of(views(resolved@)));
                    match find_path(&resolved, device.path.as_str()) {
                        None => {
                            let ghost old_r = resolved@;
                            resolved.push(owned(device.path.as_str()));
                            assert(views(resolved@) =~= views(old_r).push(device.path@));
                        },
                        Some(k) => {
                            assert(keys_of(views(resolved@))[k as int] == path_key(device.path@));
                        },
                    }
                } else {
                    assert(before + matching_paths(*r, available@.subrange(0, j + 1)) =~= xs);
                }
                j = j + 1;
            }
            assert(available@.subrange(0, available.len() as int) =~= available@);
            assert(refs@.subrange(0, i + 1).drop_last() =~= refs@.subrange(0, i as int));
            assert(refs@.subrange(0, i + 1).last() == *r);
            i = i + 1;
        }
        assert(refs@.subrange(0, refs.len() as int) =~= refs@);
        resolved
    }
}

} // verus!
