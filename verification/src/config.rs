//! Application configuration: the persisted record, its defaults, and the
//! pure decisions behind reading and updating the API base URL. The
//! key-value store that holds the record is a collaborator outside this
//! crate; callers hand in what it returned.

use vstd::prelude::*;
use vstd::string::StringExecFns;

verus! {

/// Application configuration persisted locally.
#[derive(Clone, Debug)]
pub struct AppConfig {
    pub api_url: String,
    pub theme: String,
    pub sidebar_collapsed: bool,
    pub auto_refresh_interval: u64,
    pub last_username: String,
}

/// The configuration shipped before anything is stored.
pub open spec fn is_default_config(c: AppConfig) -> bool {
    &&& c.api_url@ == "https://jamrock-api.up.railway.app/api"@
    &&& c.theme@ == "dark"@
    &&& c.sidebar_collapsed == false
    &&& c.auto_refresh_interval == 30
    &&& c.last_username@ == Seq::<char>::empty()
}

impl Default for AppConfig {
    /// The defaults used until a configuration is stored.
    fn default() -> (r: AppConfig)
        ensures
            is_default_config(r),
    {
        AppConfig {
            api_url: String::from_str("https://jamrock-api.up.railway.app/api"),
            theme: String::from_str("dark"),
            sidebar_collapsed: false,
            auto_refresh_interval: 30,
            last_username: String::new(),
        }
    }
}

/// The full configuration a reader gets: the stored one if any, the
/// defaults otherwise.
pub fn get_config(stored: Option<AppConfig>) -> (r: AppConfig)
    ensures
        stored matches Some(c) ==> r == c,
        stored is None ==> is_default_config(r),
{
    match stored {
        Some(c) => c,
        None => AppConfig::default(),
    }
}

/// The API base URL a reader gets: the standalone key if the store holds
/// one, else the full configuration's URL, else the default URL.
pub fn get_api_url(standalone: Option<String>, config: Option<AppConfig>) -> (r: String)
    ensures
        standalone matches Some(u) ==> r == u,
        standalone is None ==> (config matches Some(c) ==> r == c.api_url),
        standalone is None && config is None ==> r@
            == "https://jamrock-api.up.railway.app/api"@,
{
    match standalone {
        Some(u) => u,
        None => match config {
            Some(c) => c.api_url,
            None => AppConfig::default().api_url,
        },
    }
}

/// The stored configuration after an API-URL update: the URL replaced,
/// every other field kept; no stored configuration stays none.
pub fn config_with_api_url(config: Option<AppConfig>, url: &str) -> (r: Option<AppConfig>)
    ensures
        config is None ==> r is None,
        config matches Some(c) ==> r matches Some(u) && u.api_url@ == url@ && u.theme == c.theme
            && u.sidebar_collapsed == c.sidebar_collapsed && u.auto_refresh_interval
            == c.auto_refresh_interval && u.last_username == c.last_username,
{
    match config {
        Some(c) => Some(
            AppConfig {
                api_url: String::from_str(url),
                theme: c.theme,
                sidebar_collapsed: c.sidebar_collapsed,
                auto_refresh_interval: c.auto_refresh_interval,
                last_username: c.last_username,
            },
        ),
        None => None,
    }
}

} // verus!
