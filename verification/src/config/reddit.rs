//! Settings of the Reddit collector.

use vstd::prelude::*;
use crate::text::{copy_of, decimal, joined, numeral, text_of};

verus! {

/// Settings of the Reddit collector.
pub struct Reddit {
    /// Where the collector stores, if not under the general output path.
    pub output_path: Option<String>,
    /// The id of the registered client.
    pub client_id: String,
    /// The secret of the registered client.
    pub client_secret: String,
    /// The account's user name; empty for none.
    pub username: String,
    /// The account's password; empty for none.
    pub password: String,
    /// The tracked users.
    pub users: Vec<String>,
    /// Whether tracked users are kept as friends of the account.
    pub friend_manage: bool,
    /// Whether the collector runs.
    pub enabled: bool,
}

impl Reddit {
    /// Whether the two settings say the same.
    pub open spec fn agrees(&self, other: &Self) -> bool {
        &&& text_of(self.output_path) == text_of(other.output_path)
        &&& self.client_id@ == other.client_id@
        &&& self.client_secret@ == other.client_secret@
        &&& self.username@ == other.username@
        &&& self.password@ == other.password@
        &&& self.users.deep_view() == other.users.deep_view()
        &&& self.friend_manage == other.friend_manage
        &&& self.enabled == other.enabled
    }

    /// What `summary` returns.
    pub open spec fn summary_spec(&self) -> Seq<char> {
        let users = "[users("@ + numeral(self.users@.len()) + ")]"@;
        if self.username@.len() == 0 && self.password@.len() == 0 {
            "Reddit(Anonymous)"@ + users
        } else {
            "Reddit(ClientID: "@ + self.client_id@ + ", Username: "@ + self.username@ + ")"@
                + users
        }
    }

    /// Whether no account is configured: neither a user name nor a
    /// password.
    pub fn is_anonymous(&self) -> (anonymous: bool)
        ensures
            anonymous == (self.username@.len() == 0 && self.password@.len() == 0),
    {
        self.username.as_str().is_empty() && self.password.as_str().is_empty()
    }

    /// A description for log lines, which shows neither the password nor
    /// the client secret.
    pub fn summary(&self) -> (text: String)
        ensures
            text@ == self.summary_spec(),
    {
        let mut text = if self.is_anonymous() {
            "Reddit(Anonymous)".to_owned()
        } else {
            let mut account = joined("Reddit(ClientID: ", self.client_id.as_str());
            account.append(", Username: ");
            account.append(self.username.as_str());
            account.append(")");
            account
        };
        let count = decimal(self.users.len() as u64);
        text.append("[users(");
        text.append(count.as_str());
        text.append(")]");
        text
    }
}

impl Default for Reddit {
    fn default() -> (settings: Self)
        ensures
            settings.output_path is None,
            settings.client_id@.len() == 0,
            settings.client_secret@.len() == 0,
            settings.username@.len() == 0,
            settings.password@.len() == 0,
            settings.users@.len() == 0,
            !settings.friend_manage,
            !settings.enabled,
    {
        Reddit {
            output_path: None,
            client_id: String::new(),
            client_secret: String::new(),
            username: String::new(),
            password: String::new(),
            users: Vec::new(),
            friend_manage: false,
            enabled: false,
        }
    }
}

impl Clone for Reddit {
    fn clone(&self) -> (copy: Self)
        ensures
            copy.agrees(self),
    {
        Reddit {
            output_path: copy_of(&self.output_path),
            client_id: self.client_id.clone(),
            client_secret: self.client_secret.clone(),
            username: self.username.clone(),
            password: self.password.clone(),
            users: self.users.clone(),
            friend_manage: self.friend_manage,
            enabled: self.enabled,
        }
    }
}

} // verus!
