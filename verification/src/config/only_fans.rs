//! Settings of the OnlyFans collector.

use vstd::prelude::*;
use crate::text::{copy_of, decimal, joined, numeral, text_of};

verus! {

/// Settings of the OnlyFans collector.
pub struct OnlyFans {
    /// Where the collector stores, if not under the general output path.
    pub output_path: Option<String>,
    /// The token of the application.
    pub app_token: String,
    /// The id of the account.
    pub auth_id: String,
    /// The hash that proves the account.
    pub auth_hash: String,
    /// The session that requests are made in.
    pub session_id: String,
    /// The tracked users.
    pub users: Vec<String>,
    /// Whether the collector runs.
    pub enabled: bool,
}

impl OnlyFans {
    /// Whether the two settings say the same.
    pub open spec fn agrees(&self, other: &Self) -> bool {
        &&& text_of(self.output_path) == text_of(other.output_path)
        &&& self.app_token@ == other.app_token@
        &&& self.auth_id@ == other.auth_id@
        &&& self.auth_hash@ == other.auth_hash@
        &&& self.session_id@ == other.session_id@
        &&& self.users.deep_view() == other.users.deep_view()
        &&& self.enabled == other.enabled
    }

    /// What `summary` returns.
    pub open spec fn summary_spec(&self) -> Seq<char> {
        if self.enabled {
            "OnlyFans([Auth="@ + self.auth_id@ + "], [users("@ + numeral(self.users@.len())
                + "])"@
        } else {
            "OnlyFans(disabled)"@
        }
    }

    /// A description for log lines, which shows neither tokens nor the
    /// session.
    pub fn summary(&self) -> (text: String)
        ensures
            text@ == self.summary_spec(),
    {
        if self.enabled {
            let count = decimal(self.users.len() as u64);
            let mut text = joined("OnlyFans([Auth=", self.auth_id.as_str());
            text.append("], [users(");
            text.append(count.as_str());
            text.append("])");
            text
        } else {
            "OnlyFans(disabled)".to_owned()
        }
    }
}

impl Default for OnlyFans {
    fn default() -> (settings: Self)
        ensures
            settings.output_path is None,
            settings.app_token@.len() == 0,
            settings.auth_id@.len() == 0,
            settings.auth_hash@.len() == 0,
            settings.session_id@.len() == 0,
            settings.users@.len() == 0,
            !settings.enabled,
    {
        OnlyFans {
            output_path: None,
            app_token: String::new(),
            auth_id: String::new(),
            auth_hash: String::new(),
            session_id: String::new(),
            users: Vec::new(),
            enabled: false,
        }
    }
}

impl Clone for OnlyFans {
    fn clone(&self) -> (copy: Self)
        ensures
            copy.agrees(self),
    {
        OnlyFans {
            output_path: copy_of(&self.output_path),
            app_token: self.app_token.clone(),
            auth_id: self.auth_id.clone(),
            auth_hash: self.auth_hash.clone(),
            session_id: self.session_id.clone(),
            users: self.users.clone(),
            enabled: self.enabled,
        }
    }
}

} // verus!
