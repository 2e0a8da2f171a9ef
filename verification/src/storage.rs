use vstd::prelude::*;

use crate::error::AppError;
use crate::settings::{
    default_settings_view, normalized_settings, patch_settings, settings_error, AppSettings, AppSettingsPatch,
    AppSettingsView,
};

verus! {

/// What `std::path::Path::new(base).join(part)` gives, as text.
pub uninterp spec fn path_join(base: Seq<char>, part: Seq<char>) -> Seq<char>;

/// `std::path::Path::new(base).join(part)` as text; the contract only names
/// the result (it is a function of its arguments alone).
#[verifier::external_body]
pub(crate) fn join_path(base: &str, part: &str) -> (r: String)
    ensures
        r@ == path_join(base@, part@),
{
    std::path::Path::new(base).join(part).to_string_lossy().into_owned()
}

/// Whether `std::path::Path::new(a) == std::path::Path::new(b)`: paths are
/// compared by their components, so `a//b` and `a/b/` equal `a/b`.
pub uninterp spec fn path_eq(a: Seq<char>, b: Seq<char>) -> bool;

/// `std::path::Path::new(a) == std::path::Path::new(b)`. The contract names the
/// result and states that equal text gives equal paths; how components are
/// compared is left unsaid.
#[verifier::external_body]
pub(crate) fn same_path(a: &str, b: &str) -> (r: bool)
    ensures
        r == path_eq(a@, b@),
        a@ == b@ ==> r,
{
    std::path::Path::new(a) == std::path::Path::new(b)
}

/// The directories and files the application keeps under its root.
#[derive(Debug, Clone, PartialEq, Eq)]
pub struct AppPaths {
    root: String,
    settings_dir: String,
    cache_dir: String,
    preset_preview_dir: String,
    offline_inputs_dir: String,
    voice_design_artifacts_dir: String,
    voice_separation_jobs_dir: String,
    offline_exports_dir: String,
    library_dir: String,
    custom_voices_dir: String,
    offline_jobs_file: String,
    sync_state_file: String,
}

/// The layout under `root`.
pub struct AppPathsView {
    pub root: Seq<char>,
    pub settings_dir: Seq<char>,
    pub cache_dir: Seq<char>,
    pub preset_preview_dir: Seq<char>,
    pub offline_inputs_dir: Seq<char>,
    pub voice_design_artifacts_dir: Seq<char>,
    pub voice_separation_jobs_dir: Seq<char>,
    pub offline_exports_dir: Seq<char>,
    pub library_dir: Seq<char>,
    pub custom_voices_dir: Seq<char>,
    pub offline_jobs_file: Seq<char>,
    pub sync_state_file: Seq<char>,
}

impl View for AppPaths {
    type V = AppPathsView;

    closed spec fn view(&self) -> AppPathsView {
        AppPathsView {
            root: self.root@,
            settings_dir: self.settings_dir@,
            cache_dir: self.cache_dir@,
            preset_preview_dir: self.preset_preview_dir@,
            offline_inputs_dir: self.offline_inputs_dir@,
            voice_design_artifacts_dir: self.voice_design_artifacts_dir@,
            voice_separation_jobs_dir: self.voice_separation_jobs_dir@,
            offline_exports_dir: self.offline_exports_dir@,
            library_dir: self.library_dir@,
            custom_voices_dir: self.custom_voices_dir@,
            offline_jobs_file: self.offline_jobs_file@,
            sync_state_file: self.sync_state_file@,
        }
    }
}

/// The layout under `root`: `settings/`, `cache/` with its five directories,
/// and `library/` with the custom voices and the job and sync files.
pub open spec fn layout_under(root: Seq<char>) -> AppPathsView {
    let cache = path_join(root, "cache"@);
    let library = path_join(root, "library"@);
    AppPathsView {
        root,
        settings_dir: path_join(root, "settings"@),
        cache_dir: cache,
        preset_preview_dir: path_join(cache, "preset-preview"@),
        offline_inputs_dir: path_join(cache, "offline-inputs"@),
        voice_design_artifacts_dir: path_join(cache, "voice-design-artifacts"@),
        voice_separation_jobs_dir: path_join(cache, "voice-separation-jobs"@),
        offline_exports_dir: path_join(cache, "offline-exports"@),
        library_dir: library,
        custom_voices_dir: path_join(library, "custom-voices"@),
        offline_jobs_file: path_join(library, "offline-jobs.json"@),
        sync_state_file: path_join(library, "sync-state.json"@),
    }
}

impl AppPaths {
    /// The layout under `root` (see `layout_under`); nothing is created.
    pub fn layout(root: &str) -> (p: AppPaths)
        ensures
            p@ == layout_under(root@),
    {
        let cache_dir = join_path(root, "cache");
        let library_dir = join_path(root, "library");
        AppPaths {
            root: String::from_str(root),
            settings_dir: join_path(root, "settings"),
            preset_preview_dir: join_path(cache_dir.as_str(), "preset-preview"),
            offline_inputs_dir: join_path(cache_dir.as_str(), "offline-inputs"),
            voice_design_artifacts_dir: join_path(cache_dir.as_str(), "voice-design-artifacts"),
            voice_separation_jobs_dir: join_path(cache_dir.as_str(), "voice-separation-jobs"),
            offline_exports_dir: join_path(cache_dir.as_str(), "offline-exports"),
            custom_voices_dir: join_path(library_dir.as_str(), "custom-voices"),
            offline_jobs_file: join_path(library_dir.as_str(), "offline-jobs.json"),
            sync_state_file: join_path(library_dir.as_str(), "sync-state.json"),
            cache_dir,
            library_dir,
        }
    }

    /// The directories to create: the root, settings, the cache directories
    /// and the library (not the bare cache directory).
    pub fn directories(&self) -> (d: Vec<String>)
        ensures
            d@.map_values(|s: String| s@) == seq![
                self@.root,
                self@.settings_dir,
                self@.preset_preview_dir,
                self@.offline_inputs_dir,
                self@.voice_design_artifacts_dir,
                self@.voice_separation_jobs_dir,
                self@.offline_exports_dir,
                self@.library_dir,
                self@.custom_voices_dir,
            ],
    {
        let d = vec![
            self.root.clone(),
            self.settings_dir.clone(),
            self.preset_preview_dir.clone(),
            self.offline_inputs_dir.clone(),
            self.voice_design_artifacts_dir.clone(),
            self.voice_separation_jobs_dir.clone(),
            self.offline_exports_dir.clone(),
            self.library_dir.clone(),
            self.custom_voices_dir.clone(),
        ];
        assert(d@.map_values(|s: String| s@) =~= seq![
            self@.root,
            self@.settings_dir,
            self@.preset_preview_dir,
            self@.offline_inputs_dir,
            self@.voice_design_artifacts_dir,
            self@.voice_separation_jobs_dir,
            self@.offline_exports_dir,
            self@.library_dir,
            self@.custom_voices_dir,
        ]);
        d
    }

    pub fn root(&self) -> (p: String)
        ensures
            p@ == self@.root,
    {
        self.root.clone()
    }

    /// `settings/app-settings.json`.
    pub fn settings_file(&self) -> (p: String)
        ensures
            p@ == path_join(self@.settings_dir, "app-settings.json"@),
    {
        join_path(self.settings_dir.as_str(), "app-settings.json")
    }

    pub fn preset_preview_dir(&self) -> (p: String)
        ensures
            p@ == self@.preset_preview_dir,
    {
        self.preset_preview_dir.clone()
    }

    pub fn offline_inputs_dir(&self) -> (p: String)
        ensures
            p@ == self@.offline_inputs_dir,
    {
        self.offline_inputs_dir.clone()
    }

    pub fn voice_design_artifacts_dir(&self) -> (p: String)
        ensures
            p@ == self@.voice_design_artifacts_dir,
    {
        self.voice_design_artifacts_dir.clone()
    }

    pub fn voice_separation_jobs_dir(&self) -> (p: String)
        ensures
            p@ == self@.voice_separation_jobs_dir,
    {
        self.voice_separation_jobs_dir.clone()
    }

    pub fn offline_exports_dir(&self) -> (p: String)
        ensures
            p@ == self@.offline_exports_dir,
    {
        self.offline_exports_dir.clone()
    }

    pub fn custom_voices_dir(&self) -> (p: String)
        ensures
            p@ == self@.custom_voices_dir,
    {
        self.custom_voices_dir.clone()
    }

    pub fn offline_jobs_file(&self) -> (p: String)
        ensures
            p@ == self@.offline_jobs_file,
    {
        self.offline_jobs_file.clone()
    }

    pub fn sync_state_file(&self) -> (p: String)
        ensures
            p@ == self@.sync_state_file,
    {
        self.sync_state_file.clone()
    }
}

/// A document kept in a JSON file: its path and its current value. Reading
/// and writing the file is the application's part.
#[derive(Debug)]
pub struct JsonStore<T> {
    pub path: String,
    pub value: T,
}

impl<T: Clone> JsonStore<T> {
    /// A store at `path` holding `default` until a file is read.
    pub fn new(path: String, default: T) -> (s: JsonStore<T>)
        ensures
            s.path == path,
            s.value == default,
    {
        JsonStore { path, value: default }
    }

    /// A copy of the current value.
    pub fn get(&self) -> (v: T)
        ensures
            vstd::pervasive::cloned(self.value, v),
    {
        self.value.clone()
    }

    /// Replaces the current value.
    pub fn replace(&mut self, next: T)
        ensures
            final(self).value == next,
            final(self).path == old(self).path,
    {
        self.value = next;
    }
}

/// The value a store made with `default` holds after the replacements
/// `nexts`, in order: the last of them, or `default` when there is none.
pub open spec fn stored_after<T>(default: T, nexts: Seq<T>) -> T {
    if nexts.len() == 0 {
        default
    } else {
        nexts.last()
    }
}

/// A store made with `default` (`states[0]`) and then given `nexts` by
/// `replace`, one after another (`states[i + 1]` after the i-th), holds the
/// last replacement, or `default` when there was none; writing the file does
/// not take part, so a failed save leaves the replaced value in place. `get`
/// hands out a clone of that value.
pub proof fn lemma_store_keeps_last_replacement<T>(default: T, nexts: Seq<T>, states: Seq<T>)
    requires
        states.len() == nexts.len() + 1,
        states[0] == default,
        forall|i: int| 0 <= i < nexts.len() ==> #[trigger] states[i + 1] == nexts[i],
    ensures
        states.last() == stored_after(default, nexts),
{
    if nexts.len() > 0 {
        let k = nexts.len() - 1;
        assert(states[k + 1] == nexts[k]);
    }
}

/// The settings as they are kept: normalized and valid, else the error.
pub open spec fn settings_checked(s: AppSettingsView) -> Result<AppSettingsView, Seq<char>> {
    let n = normalized_settings(s);
    match settings_error(n) {
        Some(e) => Err(e),
        None => Ok(n),
    }
}

/// The application settings and where they are stored.
#[derive(Debug)]
pub struct SettingsManager {
    store: JsonStore<AppSettings>,
}

impl SettingsManager {
    /// Settings stored at `path`, the defaults until the file is read.
    pub fn new(path: String) -> (m: SettingsManager)
        ensures
            m.path()@ == path@,
            m.current()@ == default_settings_view(),
    {
        SettingsManager { store: JsonStore::new(path, AppSettings::default()) }
    }

    pub closed spec fn current(&self) -> AppSettings {
        self.store.value
    }

    pub closed spec fn path(&self) -> String {
        self.store.path
    }

    /// Where the settings are stored.
    pub fn store_path(&self) -> (p: &String)
        ensures
            p@ == self.path()@,
    {
        &self.store.path
    }

    /// A copy of the current settings.
    pub fn get(&self) -> (s: AppSettings)
        ensures
            s@ == self.current()@,
    {
        self.store.value.duplicate()
    }

    /// Takes in settings read from the file: they are normalized and checked.
    /// Says whether normalizing changed them (then they are to be written back).
    pub fn accept_loaded(&mut self, loaded: AppSettings) -> (r: Result<bool, AppError>)
        ensures
            match r {
                Ok(changed) => settings_checked(loaded@) == Ok::<AppSettingsView, Seq<char>>(final(self).current()@)
                    && changed == (normalized_settings(loaded@) != loaded@) && final(self).path() == old(self).path(),
                Err(e) => settings_checked(loaded@) matches Err(m) && (e matches AppError::InvalidSettings { message }
                    && message@ == m) && final(self).current() == old(self).current() && final(self).path()
                    == old(self).path(),
            },
    {
        let mut settings = loaded.duplicate();
        settings.normalize_for_local_save();
        match settings.validate() {
            Ok(()) => {},
            Err(m) => return Err(AppError::invalid_settings(m)),
        }
        let changed = !settings.same_as(&loaded);
        self.store.replace(settings);
        Ok(changed)
    }

    /// Applies a patch to the current settings, normalized and checked; on an
    /// error nothing changes.
    pub fn update(&mut self, patch: AppSettingsPatch) -> (r: Result<AppSettings, AppError>)
        ensures
            final(self).path() == old(self).path(),
            match r {
                Ok(s) => settings_checked(patch_settings(patch, old(self).current()@)) == Ok::<
                    AppSettingsView,
                    Seq<char>,
                >(s@) && final(self).current()@ == s@,
                Err(e) => settings_checked(patch_settings(patch, old(self).current()@)) matches Err(m) && (e matches AppError::InvalidSettings {
                    message,
                } && message@ == m) && final(self).current() == old(self).current(),
            },
    {
        let mut next = patch.apply_to(self.store.value.duplicate());
        next.normalize_for_local_save();
        match next.validate() {
            Ok(()) => {},
            Err(m) => return Err(AppError::invalid_settings(m)),
        }
        let out = next.duplicate();
        self.store.replace(next);
        Ok(out)
    }

    /// Back to the default settings.
    pub fn reset(&mut self) -> (s: AppSettings)
        ensures
            s@ == default_settings_view(),
            final(self).current()@ == default_settings_view(),
            final(self).path() == old(self).path(),
    {
        self.store.replace(AppSettings::default());
        AppSettings::default()
    }
}

} // verus!
