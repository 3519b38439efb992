//! The persisted configuration the engine consumes: the global conflict
//! policy, autostart flags, per-device preferences, and default copy options.

use vstd::prelude::*;
use crate::copy_engine::CopyOptions;
use crate::drag_drop::DropAction;
use crate::text::str_eq;

verus! {

/// One of the actions a conflict can be answered with. The `All` forms latch
/// the corresponding sticky flag for the rest of the job.
#[derive(Debug, Clone, Copy, PartialEq, Eq, Structural)]
pub enum ConflictAction {
    Ask,
    Overwrite,
    OverwriteAll,
    Skip,
    SkipAll,
    RenameNew,
    RenameOld,
}

/// The global conflict policy, read from persisted configuration.
pub struct GlobalConflictResolution {
    pub default_action: ConflictAction,
    pub ask_for_confirmation: bool,
    pub rename_pattern: String,
}

impl Clone for GlobalConflictResolution {
    fn clone(&self) -> (r: Self)
        ensures
            r.default_action == self.default_action,
            r.ask_for_confirmation == self.ask_for_confirmation,
            r.rename_pattern@ == self.rename_pattern@,
    {
        Self {
            default_action: self.default_action,
            ask_for_confirmation: self.ask_for_confirmation,
            rename_pattern: self.rename_pattern.clone(),
        }
    }
}

impl Default for GlobalConflictResolution {
    fn default() -> (r: Self)
        ensures
            r.default_action is Ask,
            r.ask_for_confirmation,
            r.rename_pattern@ == "{name} ({counter})"@,
    {
        Self {
            default_action: ConflictAction::Ask,
            ask_for_confirmation: true,
            rename_pattern: String::from_str("{name} ({counter})"),
        }
    }
}

/// Last saved geometry of the main window.
#[derive(Debug, Clone, Copy, PartialEq, Eq, Structural)]
pub struct WindowState {
    pub width: i32,
    pub height: i32,
    pub x: i32,
    pub y: i32,
    pub maximized: bool,
}

/// A remembered default for one device.
pub struct DevicePreference {
    pub device_id: String,
    pub default_action: DropAction,
    pub remember_choice: bool,
}

impl Clone for DevicePreference {
    fn clone(&self) -> (r: Self)
        ensures
            r.device_id@ == self.device_id@,
            r.default_action == self.default_action,
            r.remember_choice == self.remember_choice,
    {
        Self {
            device_id: self.device_id.clone(),
            default_action: self.default_action,
            remember_choice: self.remember_choice,
        }
    }
}

/// Everything the application persists.
pub struct AppConfig {
    pub autostart_enabled: bool,
    pub start_minimized: bool,
    pub minimize_to_tray: bool,
    pub show_notifications: bool,
    pub default_copy_options: CopyOptions,
    pub remembered_devices: Vec<DevicePreference>,
    pub window_state: WindowState,
    pub conflict_resolution: GlobalConflictResolution,
}

impl Default for AppConfig {
    fn default() -> (r: Self)
        ensures
            !r.autostart_enabled,
            !r.start_minimized,
            r.minimize_to_tray,
            r.show_notifications,
            r.remembered_devices@.len() == 0,
            r.window_state == (WindowState { width: 1000, height: 700, x: -1int as i32, y: -1int as i32, maximized: false }),
            r.conflict_resolution.default_action is Ask,
            r.conflict_resolution.ask_for_confirmation,
    {
        Self {
            autostart_enabled: false,
            start_minimized: false,
            minimize_to_tray: true,
            show_notifications: true,
            default_copy_options: CopyOptions::default(),
            remembered_devices: Vec::new(),
            window_state: WindowState { width: 1000, height: 700, x: -1, y: -1, maximized: false },
            conflict_resolution: GlobalConflictResolution::default(),
        }
    }
}

/// Whether `id` occurs among the remembered devices.
pub open spec fn has_device_pref(devices: Seq<DevicePreference>, id: Seq<char>) -> bool {
    exists|i: int| 0 <= i < devices.len() && devices[i].device_id@ == id
}

/// The first index whose preference is for `id`, or `-1` if there is none.
pub open spec fn find_pref_index(devices: Seq<DevicePreference>, id: Seq<char>) -> int
    decreases devices.len(),
{
    if devices.len() == 0 {
        -1
    } else if devices[0].device_id@ == id {
        0
    } else {
        let r = find_pref_index(devices.drop_first(), id);
        if r < 0 {
            -1
        } else {
            r + 1
        }
    }
}

/// `find_pref_index` finds exactly the first match: if the first `i` entries
/// miss, the search either ends at `i` or continues past it.
proof fn lemma_find_pref_prefix(devices: Seq<DevicePreference>, id: Seq<char>, i: int)
    requires
        0 <= i <= devices.len(),
        forall|j: int| 0 <= j < i ==> devices[j].device_id@ != id,
    ensures
        i == devices.len() ==> find_pref_index(devices, id) == -1,
        i < devices.len() && devices[i].device_id@ == id ==> find_pref_index(devices, id) == i,
    decreases devices.len(),
{
    if devices.len() == 0 {
    } else if i == 0 {
        if devices.len() > 0 && devices[0].device_id@ != id {
            lemma_find_pref_index_bounds(devices.drop_first(), id);
        }
    } else {
        assert(devices[0].device_id@ != id);
        lemma_find_pref_prefix(devices.drop_first(), id, i - 1);
        assert(forall|j: int|
            0 <= j < i - 1 ==> devices.drop_first()[j].device_id@ != id) by {
            assert(forall|j: int|
                0 <= j < i - 1 ==> devices.drop_first()[j] == devices[j + 1]);
        }
        if i < devices.len() {
            assert(devices.drop_first()[i - 1] == devices[i]);
        }
    }
}

/// The search result is `-1` or a valid index whose entry matches.
proof fn lemma_find_pref_index_bounds(devices: Seq<DevicePreference>, id: Seq<char>)
    ensures
        find_pref_index(devices, id) == -1 || (0 <= find_pref_index(devices, id)
            < devices.len() && devices[find_pref_index(devices, id)].device_id@ == id),
        (find_pref_index(devices, id) >= 0) == has_device_pref(devices, id),
    decreases devices.len(),
{
    if devices.len() == 0 {
    } else {
        lemma_find_pref_index_bounds(devices.drop_first(), id);
        if devices[0].device_id@ == id {
        } else {
            let r = find_pref_index(devices.drop_first(), id);
            if r >= 0 {
                assert(devices.drop_first()[r] == devices[r + 1]);
            }
            if has_device_pref(devices, id) {
                let w = choose|i: int|
                    0 <= i < devices.len() && devices[i].device_id@ == id;
                assert(w >= 1);
                assert(devices.drop_first()[w - 1] == devices[w]);
                assert(has_device_pref(devices.drop_first(), id));
            }
            if has_device_pref(devices.drop_first(), id) {
                let w = choose|i: int|
                    0 <= i < devices.drop_first().len()
                        && devices.drop_first()[i].device_id@ == id;
                assert(devices.drop_first()[w] == devices[w + 1]);
            }
        }
    }
}

/// Holds the in-memory configuration; reading and writing it to disk is the
/// caller's business.
pub struct ConfigManager {
    pub config: AppConfig,
}

impl ConfigManager {
    /// Starts from an already loaded (or freshly defaulted) configuration.
    pub fn new(config: AppConfig) -> (r: Self)
        ensures
            r.config == config,
    {
        Self { config }
    }

    pub fn get_config(&self) -> (r: &AppConfig)
        ensures
            r == &self.config,
    {
        &self.config
    }

    pub fn get_config_mut(&mut self) -> (r: &mut AppConfig)
        ensures
            *r == old(self).config,
            final(self).config == *final(r),
    {
        &mut self.config
    }

    /// Replaces the global conflict policy's action and confirmation flag.
    pub fn update_conflict_resolution(
        &mut self,
        default_action: ConflictAction,
        ask_for_confirmation: bool,
    )
        ensures
            final(self).config.conflict_resolution.default_action == default_action,
            final(self).config.conflict_resolution.ask_for_confirmation == ask_for_confirmation,
            final(self).config == (AppConfig {
                conflict_resolution: final(self).config.conflict_resolution,
                ..old(self).config
            }),
            final(self).config.conflict_resolution.rename_pattern
                == old(self).config.conflict_resolution.rename_pattern,
    {
        self.config.conflict_resolution.default_action = default_action;
        self.config.conflict_resolution.ask_for_confirmation = ask_for_confirmation;
    }

    /// Records the autostart choice; applying it to the desktop is the
    /// caller's business.
    pub fn update_autostart(&mut self, enabled: bool, start_minimized: bool)
        ensures
            final(self).config == (AppConfig {
                autostart_enabled: enabled,
                start_minimized: start_minimized,
                ..old(self).config
            }),
    {
        self.config.autostart_enabled = enabled;
        self.config.start_minimized = start_minimized;
    }

    /// The remembered preference for `device_id`, if there is one: the first
    /// matching entry.
    pub fn get_device_preference(&self, device_id: &str) -> (r: Option<&DevicePreference>)
        ensures
            ({
                let k = find_pref_index(self.config.remembered_devices@, device_id@);
                match r {
                    Some(p) => k >= 0 && *p == self.config.remembered_devices@[k],
                    None => k == -1,
                }
            }),
    {
        let devices = &self.config.remembered_devices;
        let n = devices.len();
        let mut i: usize = 0;
        while i < n
            invariant
                devices == &self.config.remembered_devices,
                n == devices@.len(),
                0 <= i <= n,
                forall|j: int| 0 <= j < i ==> devices@[j].device_id@ != device_id@,
            decreases n - i,
        {
            if str_eq(devices[i].device_id.as_str(), device_id) {
                proof {
                    lemma_find_pref_prefix(devices@, device_id@, i as int);
                }
                return Some(&devices[i]);
            }
            i = i + 1;
        }
        proof {
            lemma_find_pref_prefix(devices@, device_id@, n as int);
        }
        None
    }

    /// Stores `preference`, replacing the first entry with the same device id
    /// or appending a new one.
    pub fn set_device_preference(&mut self, preference: DevicePreference)
        ensures
            ({
                let ds = old(self).config.remembered_devices@;
                let k = find_pref_index(ds, preference.device_id@);
                if k >= 0 {
                    final(self).config.remembered_devices@ == ds.update(k, preference)
                } else {
                    final(self).config.remembered_devices@ == ds.push(preference)
                }
            }),
    {
        let n = self.config.remembered_devices.len();
        let mut i: usize = 0;
        while i < n
            invariant
                n == self.config.remembered_devices@.len(),
                0 <= i <= n,
                *self == *old(self),
                forall|j: int| 0 <= j < i
                    ==> self.config.remembered_devices@[j].device_id@ != preference.device_id@,
            decreases n - i,
        {
            if str_eq(self.config.remembered_devices[i].device_id.as_str(), preference.device_id.as_str()) {
                proof {
                    lemma_find_pref_prefix(
                        self.config.remembered_devices@,
                        preference.device_id@,
                        i as int,
                    );
                }
                self.config.remembered_devices.set(i, preference);
                return;
            }
            i = i + 1;
        }
        proof {
            lemma_find_pref_prefix(self.config.remembered_devices@, preference.device_id@, n as int);
        }
        self.config.remembered_devices.push(preference);
    }
}

} // verus!
