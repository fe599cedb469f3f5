//! The server's settings: a single row with id 1.

use vstd::prelude::*;

verus! {

/// Id of the settings row.
pub const SETTINGS_ID: i32 = 1;

/// Days after which downloaded episodes are cleaned up, by default.
pub const DEFAULT_AUTO_CLEANUP_DAYS: i32 = 30;

/// Episodes fetched when a podcast is added, by default.
pub const DEFAULT_PODCAST_PREFILL: i32 = 5;

/// Global preferences of the server.
pub struct Setting {
    pub id: i32,
    pub auto_download: bool,
    pub auto_update: bool,
    pub auto_cleanup: bool,
    pub auto_cleanup_days: i32,
    pub podcast_prefill: i32,
    pub replace_invalid_characters: bool,
    pub use_existing_filename: bool,
    pub replacement_strategy: String,
    pub episode_format: String,
    pub podcast_format: String,
}

/// Settings of an OpenID Connect login.
pub struct OidcConfig {
    pub authority: String,
    pub client_id: String,
    pub redirect_uri: String,
    pub scope: String,
}

/// What the server tells clients about its configuration.
pub struct ConfigModel {
    pub podindex_configured: bool,
    pub rss_feed: String,
    pub server_url: String,
    pub basic_auth: bool,
    pub oidc_configured: bool,
    pub oidc_config: Option<OidcConfig>,
}

/// Whether a row holds the default settings.
pub open spec fn is_default_setting(s: Setting) -> bool {
    &&& s.id == SETTINGS_ID
    &&& s.auto_download
    &&& s.auto_update
    &&& !s.auto_cleanup
    &&& s.auto_cleanup_days == DEFAULT_AUTO_CLEANUP_DAYS
    &&& s.podcast_prefill == DEFAULT_PODCAST_PREFILL
    &&& s.replace_invalid_characters
    &&& !s.use_existing_filename
    &&& s.replacement_strategy@ == "replace-with-dash-and-underscore"@
    &&& s.episode_format@ == "{}"@
    &&& s.podcast_format@ == "{}"@
}

/// Whether the table holds a row with the settings id.
pub open spec fn has_settings_row(rows: Seq<Setting>) -> bool {
    exists|i: int| 0 <= i < rows.len() && (#[trigger] rows[i]).id == SETTINGS_ID
}

/// What reading the settings yields: the first row, if any.
pub open spec fn first_setting(rows: Seq<Setting>) -> Option<Setting> {
    if rows.len() == 0 {
        None
    } else {
        Some(rows[0])
    }
}

impl Setting {
    /// A copy of the row.
    pub fn copy(&self) -> (r: Setting)
        ensures
            r == *self,
    {
        Setting {
            id: self.id,
            auto_download: self.auto_download,
            auto_update: self.auto_update,
            auto_cleanup: self.auto_cleanup,
            auto_cleanup_days: self.auto_cleanup_days,
            podcast_prefill: self.podcast_prefill,
            replace_invalid_characters: self.replace_invalid_characters,
            use_existing_filename: self.use_existing_filename,
            replacement_strategy: self.replacement_strategy.clone(),
            episode_format: self.episode_format.clone(),
            podcast_format: self.podcast_format.clone(),
        }
    }

    /// The default settings row.
    pub fn default_settings() -> (r: Setting)
        ensures
            is_default_setting(r),
    {
        Setting {
            id: SETTINGS_ID,
            auto_download: true,
            auto_update: true,
            auto_cleanup: false,
            auto_cleanup_days: DEFAULT_AUTO_CLEANUP_DAYS,
            podcast_prefill: DEFAULT_PODCAST_PREFILL,
            replace_invalid_characters: true,
            use_existing_filename: false,
            replacement_strategy: String::from_str("replace-with-dash-and-underscore"),
            episode_format: String::from_str("{}"),
            podcast_format: String::from_str("{}"),
        }
    }

    /// The settings, where a row exists.
    pub fn get_settings(settings: &Vec<Setting>) -> (r: Option<Setting>)
        ensures
            r == first_setting(settings@),
    {
        if settings.len() == 0 {
            None
        } else {
            Some(settings[0].copy())
        }
    }

    /// Gives the settings row every field of `setting` but its id, which the
    /// row keeps, and returns the row; `None`, with nothing changed, where there
    /// is no row.
    pub fn update_settings(setting: Setting, settings: &mut Vec<Setting>) -> (r: Option<Setting>)
        ensures
            old(settings)@.len() == 0 ==> r is None && final(settings)@ == old(settings)@,
            old(settings)@.len() > 0 ==> r == Some(Setting { id: old(settings)@[0].id, ..setting })
                && final(settings)@ == old(settings)@.update(0, r->Some_0),
    {
        if settings.len() == 0 {
            return None;
        }
        let mut updated = setting;
        updated.id = settings[0].id;
        let result = updated.copy();
        let mut rows: Vec<Setting> = Vec::new();
        rows.push(updated);
        let mut i: usize = 1;
        while i < settings.len()
            invariant
                1 <= i <= settings@.len(),
                rows@.len() == i,
                rows@[0] == result,
                forall|k: int| 1 <= k < i ==> #[trigger] rows@[k] == settings@[k],
            decreases settings@.len() - i,
        {
            rows.push(settings[i].copy());
            i = i + 1;
        }
        proof {
            assert(rows@ =~= settings@.update(0, result));
        }
        *settings = rows;
        Some(result)
    }

    /// Inserts the default settings row; fails, changing nothing, where a row
    /// with the settings id exists.
    pub fn insert_default_settings(settings: &mut Vec<Setting>) -> (r: Result<(), String>)
        ensures
            r is Err <==> has_settings_row(old(settings)@),
            r is Err ==> final(settings)@ == old(settings)@,
            r is Ok ==> final(settings)@.len() == old(settings)@.len() + 1
                && final(settings)@.drop_last() == old(settings)@
                && is_default_setting(final(settings)@.last()),
    {
        let mut i: usize = 0;
        while i < settings.len()
            invariant
                0 <= i <= settings@.len(),
                forall|k: int| 0 <= k < i ==> (#[trigger] settings@[k]).id != SETTINGS_ID,
            decreases settings@.len() - i,
        {
            if settings[i].id == SETTINGS_ID {
                return Err(String::from_str("the settings row exists already"));
            }
            i = i + 1;
        }
        settings.push(Setting::default_settings());
        proof {
            assert(settings@.drop_last() =~= old(settings)@);
        }
        Ok(())
    }
}

/// Reading the settings of an empty table yields none; inserting the defaults
/// there then leaves exactly one row, with the settings id and the default
/// values, and reading yields it.
pub proof fn lemma_default_settings_singleton(before: Seq<Setting>, after: Seq<Setting>)
    requires
        before.len() == 0,
        after.len() == before.len() + 1,
        after.drop_last() == before,
        is_default_setting(after.last()),
    ensures
        first_setting(before) is None,
        !has_settings_row(before),
        after.len() == 1,
        after[0].id == SETTINGS_ID,
        is_default_setting(after[0]),
        first_setting(after) == Some(after[0]),
{
}

} // verus!
