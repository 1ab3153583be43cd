use vstd::prelude::*;
use vstd::string::*;
use crate::ordering::{sort_names, sorted_names};

verus! {

/// User settings. The ignored applications form a set: no name appears twice.
#[derive(Debug, Clone)]
pub struct AppSettings {
    pub theme: String,
    pub mica_effect: String,
    pub language: String,
    pub max_items: i64,
    pub auto_delete_days: i64,
    pub hotkey: String,
    pub auto_paste: bool,
    pub ignore_ghost_clips: bool,
    pub startup_with_windows: bool,
    pub ai_provider: String,
    pub ai_api_key: String,
    pub ai_model: String,
    pub ai_base_url: String,
    pub ai_prompt_summarize: String,
    pub ai_prompt_translate: String,
    pub ai_prompt_explain_code: String,
    pub ai_prompt_fix_grammar: String,
    pub ai_title_summarize: String,
    pub ai_title_translate: String,
    pub ai_title_explain_code: String,
    pub ai_title_fix_grammar: String,
    pub ignored_apps: Vec<String>,
}

/// No name occurs twice in `apps`.
pub open spec fn distinct_names(apps: Seq<String>) -> bool {
    forall|i: int, j: int|
        0 <= i < apps.len() && 0 <= j < apps.len() && i != j ==> #[trigger] apps[i]@ != #[trigger] apps[j]@
}

/// Whether `name` occurs in `apps`, exactly.
pub open spec fn contains_name(apps: Seq<String>, name: Seq<char>) -> bool {
    exists|i: int| 0 <= i < apps.len() && #[trigger] apps[i]@ == name
}

impl AppSettings {
    pub open spec fn wf(&self) -> bool {
        distinct_names(self.ignored_apps@)
    }

    /// The factory settings; the hotkey uses Cmd on macOS and Ctrl elsewhere.
    pub fn default_for(macos: bool) -> (r: AppSettings)
        ensures
            r.wf(),
            r.theme@ == "system"@,
            r.mica_effect@ == "clear"@,
            r.language@ == "en"@,
            r.max_items == 1000,
            r.auto_delete_days == 30,
            r.hotkey@ == if macos { "Cmd+Shift+V"@ } else { "Ctrl+Shift+V"@ },
            !r.auto_paste,
            !r.ignore_ghost_clips,
            !r.startup_with_windows,
            r.ai_provider@ == "openai"@,
            r.ai_api_key@.len() == 0,
            r.ai_model@ == "gpt-3.5-turbo"@,
            r.ai_base_url@ == "https://api.openai.com/v1"@,
            r.ai_prompt_summarize@ == "Summarize this content concisely."@,
            r.ai_prompt_translate@ == "Translate this to English (or user language)."@,
            r.ai_prompt_explain_code@ == "Explain this code snippet."@,
            r.ai_prompt_fix_grammar@ == "Fix grammar and spelling."@,
            r.ai_title_summarize@ == "Summarize"@,
            r.ai_title_translate@ == "Translate"@,
            r.ai_title_explain_code@ == "Explain Code"@,
            r.ai_title_fix_grammar@ == "Fix Grammar"@,
            r.ignored_apps@.len() == 0,
    {
        AppSettings {
            theme: "system".to_owned(),
            mica_effect: "clear".to_owned(),
            language: "en".to_owned(),
            max_items: 1000,
            auto_delete_days: 30,
            hotkey: if macos { "Cmd+Shift+V".to_owned() } else { "Ctrl+Shift+V".to_owned() },
            auto_paste: false,
            ignore_ghost_clips: false,
            startup_with_windows: false,
            ai_provider: "openai".to_owned(),
            ai_api_key: String::new(),
            ai_model: "gpt-3.5-turbo".to_owned(),
            ai_base_url: "https://api.openai.com/v1".to_owned(),
            ai_prompt_summarize: "Summarize this content concisely.".to_owned(),
            ai_prompt_translate: "Translate this to English (or user language).".to_owned(),
            ai_prompt_explain_code: "Explain this code snippet.".to_owned(),
            ai_prompt_fix_grammar: "Fix grammar and spelling.".to_owned(),
            ai_title_summarize: "Summarize".to_owned(),
            ai_title_translate: "Translate".to_owned(),
            ai_title_explain_code: "Explain Code".to_owned(),
            ai_title_fix_grammar: "Fix Grammar".to_owned(),
            ignored_apps: Vec::new(),
        }
    }
}

impl Default for AppSettings {
    /// The factory settings with the Ctrl-based hotkey.
    fn default() -> (r: AppSettings)
        ensures
            r.wf(),
            r.hotkey@ == "Ctrl+Shift+V"@,
            r.max_items == 1000,
            r.auto_delete_days == 30,
            !r.ignore_ghost_clips,
            r.ignored_apps@.len() == 0,
    {
        AppSettings::default_for(false)
    }
}

impl AppSettings {
    /// Field-by-field equality of two settings values.
    pub open spec fn same_as(&self, o: &AppSettings) -> bool {
        &&& self.theme == o.theme
        &&& self.mica_effect == o.mica_effect
        &&& self.language == o.language
        &&& self.max_items == o.max_items
        &&& self.auto_delete_days == o.auto_delete_days
        &&& self.hotkey == o.hotkey
        &&& self.auto_paste == o.auto_paste
        &&& self.ignore_ghost_clips == o.ignore_ghost_clips
        &&& self.startup_with_windows == o.startup_with_windows
        &&& self.ai_provider == o.ai_provider
        &&& self.ai_api_key == o.ai_api_key
        &&& self.ai_model == o.ai_model
        &&& self.ai_base_url == o.ai_base_url
        &&& self.ai_prompt_summarize == o.ai_prompt_summarize
        &&& self.ai_prompt_translate == o.ai_prompt_translate
        &&& self.ai_prompt_explain_code == o.ai_prompt_explain_code
        &&& self.ai_prompt_fix_grammar == o.ai_prompt_fix_grammar
        &&& self.ai_title_summarize == o.ai_title_summarize
        &&& self.ai_title_translate == o.ai_title_translate
        &&& self.ai_title_explain_code == o.ai_title_explain_code
        &&& self.ai_title_fix_grammar == o.ai_title_fix_grammar
        &&& self.ignored_apps@ == o.ignored_apps@
    }

    /// A copy of these settings.
    pub fn duplicate(&self) -> (r: AppSettings)
        ensures
            r.same_as(self),
    {
        let apps = self.ignored_apps.clone();
        assert(apps@ =~= self.ignored_apps@);
        AppSettings {
            theme: self.theme.clone(),
            mica_effect: self.mica_effect.clone(),
            language: self.language.clone(),
            max_items: self.max_items,
            auto_delete_days: self.auto_delete_days,
            hotkey: self.hotkey.clone(),
            auto_paste: self.auto_paste,
            ignore_ghost_clips: self.ignore_ghost_clips,
            startup_with_windows: self.startup_with_windows,
            ai_provider: self.ai_provider.clone(),
            ai_api_key: self.ai_api_key.clone(),
            ai_model: self.ai_model.clone(),
            ai_base_url: self.ai_base_url.clone(),
            ai_prompt_summarize: self.ai_prompt_summarize.clone(),
            ai_prompt_translate: self.ai_prompt_translate.clone(),
            ai_prompt_explain_code: self.ai_prompt_explain_code.clone(),
            ai_prompt_fix_grammar: self.ai_prompt_fix_grammar.clone(),
            ai_title_summarize: self.ai_title_summarize.clone(),
            ai_title_translate: self.ai_title_translate.clone(),
            ai_title_explain_code: self.ai_title_explain_code.clone(),
            ai_title_fix_grammar: self.ai_title_fix_grammar.clone(),
            ignored_apps: apps,
        }
    }
}

/// Index of `name` in `apps`, if it occurs.
fn find_name(apps: &Vec<String>, name: &String) -> (r: Option<usize>)
    ensures
        r is None <==> !contains_name(apps@, name@),
        r matches Some(i) ==> i < apps@.len() && apps@[i as int]@ == name@,
{
    let mut i: usize = 0;
    while i < apps.len()
        invariant
            i <= apps@.len(),
            forall|j: int| 0 <= j < i ==> #[trigger] apps@[j]@ != name@,
        decreases apps@.len() - i,
    {
        if apps[i] == *name {
            return Some(i);
        }
        i = i + 1;
    }
    None
}

/// Holds the current settings in memory; reading and writing the settings file
/// is left to the host.
pub struct SettingsManager {
    file_path: String,
    settings: AppSettings,
}

impl SettingsManager {
    pub closed spec fn settings(&self) -> AppSettings {
        self.settings
    }

    pub closed spec fn path(&self) -> Seq<char> {
        self.file_path@
    }

    pub fn new(file_path: String, settings: AppSettings) -> (r: SettingsManager)
        requires
            settings.wf(),
        ensures
            r.settings() == settings,
            r.path() == file_path@,
    {
        SettingsManager { file_path, settings }
    }

    /// Where the settings are stored.
    pub fn file_path(&self) -> (r: &String)
        ensures
            r@ == self.path(),
    {
        &self.file_path
    }

    /// A copy of the current settings.
    pub fn get(&self) -> (r: AppSettings)
        ensures
            r.same_as(&self.settings()),
    {
        self.settings.duplicate()
    }

    /// Replaces the current settings.
    pub fn save(&mut self, new_settings: AppSettings)
        requires
            new_settings.wf(),
        ensures
            final(self).settings() == new_settings,
            final(self).path() == old(self).path(),
    {
        self.settings = new_settings;
    }

    /// Replaces every setting but the ignored applications, which are kept.
    pub fn save_preserving_ignored(&mut self, incoming: AppSettings)
        requires
            old(self).settings().wf(),
        ensures
            final(self).settings().ignored_apps@ == old(self).settings().ignored_apps@,
            final(self).settings().theme == incoming.theme,
            final(self).settings().hotkey == incoming.hotkey,
            final(self).settings().ignore_ghost_clips == incoming.ignore_ghost_clips,
            final(self).settings().max_items == incoming.max_items,
            final(self).settings().wf(),
            final(self).path() == old(self).path(),
    {
        let mut next = incoming;
        let apps = self.settings.ignored_apps.clone();
        assert(apps@ =~= self.settings.ignored_apps@);
        next.ignored_apps = apps;
        self.settings = next;
    }

    /// Adds `app_name` to the ignored applications; returns whether it was new.
    pub fn add_ignored_app(&mut self, app_name: String) -> (inserted: bool)
        requires
            old(self).settings().wf(),
        ensures
            inserted == !contains_name(old(self).settings().ignored_apps@, app_name@),
            final(self).settings().ignored_apps@ == if inserted {
                old(self).settings().ignored_apps@.push(app_name)
            } else {
                old(self).settings().ignored_apps@
            },
            final(self).settings().wf(),
            final(self).path() == old(self).path(),
    {
        if find_name(&self.settings.ignored_apps, &app_name).is_some() {
            return false;
        }
        self.settings.ignored_apps.push(app_name);
        true
    }

    /// Removes `app_name` from the ignored applications; returns whether it was there.
    pub fn remove_ignored_app(&mut self, app_name: &String) -> (removed: bool)
        requires
            old(self).settings().wf(),
        ensures
            removed == contains_name(old(self).settings().ignored_apps@, app_name@),
            !contains_name(final(self).settings().ignored_apps@, app_name@),
            forall|n: Seq<char>| n != app_name@ ==>
                (contains_name(final(self).settings().ignored_apps@, n)
                    == contains_name(old(self).settings().ignored_apps@, n)),
            final(self).settings().wf(),
            final(self).path() == old(self).path(),
    {
        match find_name(&self.settings.ignored_apps, app_name) {
            None => false,
            Some(i) => {
                let ghost before = self.settings.ignored_apps@;
                self.settings.ignored_apps.remove(i);
                let ghost after = self.settings.ignored_apps@;
                assert(after == before.remove(i as int));
                assert forall|n: Seq<char>| n != app_name@ implies
                    (contains_name(after, n) == contains_name(before, n)) by {
                    if contains_name(before, n) {
                        let k = choose|k: int| 0 <= k < before.len() && #[trigger] before[k]@ == n;
                        if k < i as int { assert(after[k]@ == n); } else { assert(k != i); assert(after[k - 1]@ == n); }
                    }
                    if contains_name(after, n) {
                        let k = choose|k: int| 0 <= k < after.len() && #[trigger] after[k]@ == n;
                        if k < i as int { assert(before[k]@ == n); } else { assert(before[k + 1]@ == n); }
                    }
                }
                proof {
                    if contains_name(after, app_name@) {
                        let k = choose|k: int| 0 <= k < after.len() && #[trigger] after[k]@ == app_name@;
                        if k < i as int { assert(before[k]@ == app_name@); } else { assert(before[k + 1]@ == app_name@); }
                    }
                }
                true
            },
        }
    }

    /// The ignored applications, in ascending order.
    pub fn get_ignored_apps(&self) -> (r: Vec<String>)
        ensures
            r@.len() == self.settings().ignored_apps@.len(),
            sorted_names(r@),
            forall|n: Seq<char>| contains_name(r@, n) == contains_name(self.settings().ignored_apps@, n),
    {
        let apps = self.settings.ignored_apps.clone();
        assert(apps@ =~= self.settings.ignored_apps@);
        sort_names(apps)
    }
}

/// A clip as handed to the user interface.
#[derive(Debug, Clone)]
pub struct ClipboardItem {
    pub id: String,
    pub clip_type: String,
    pub content: String,
    pub preview: String,
    pub folder_id: Option<String>,
    pub created_at: String,
    pub source_app: Option<String>,
    pub source_icon: Option<String>,
    pub metadata: Option<String>,
}

/// A folder as handed to the user interface.
#[derive(Debug, Clone)]
pub struct FolderItem {
    pub id: String,
    pub name: String,
    pub icon: Option<String>,
    pub color: Option<String>,
    pub is_system: bool,
    pub item_count: i64,
}

} // verus!
