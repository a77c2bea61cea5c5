//! Settings of the fan club collector.

use vstd::prelude::*;
use crate::text::{copy_of, decimal, joined, numeral, text_of};

verus! {

/// Settings of the fan club collector.
pub struct Fantia {
    /// Where the collector stores, if not under the general output path.
    pub output_path: Option<String>,
    /// The session that requests are made in.
    pub session_id: String,
    /// The ids of the tracked clubs.
    pub fan_clubs: Vec<String>,
    /// Whether the collector runs.
    pub enabled: bool,
}

impl Fantia {
    /// Whether the two settings say the same.
    pub open spec fn agrees(&self, other: &Self) -> bool {
        &&& text_of(self.output_path) == text_of(other.output_path)
        &&& self.session_id@ == other.session_id@
        &&& self.fan_clubs.deep_view() == other.fan_clubs.deep_view()
        &&& self.enabled == other.enabled
    }

    /// What `summary` returns.
    pub open spec fn summary_spec(&self) -> Seq<char> {
        if self.enabled {
            "Fantia([clubs="@ + numeral(self.fan_clubs@.len()) + "])"@
        } else {
            "Fantia(disabled)"@
        }
    }

    /// A description for log lines, which does not show the session.
    pub fn summary(&self) -> (text: String)
        ensures
            text@ == self.summary_spec(),
    {
        if self.enabled {
            let count = decimal(self.fan_clubs.len() as u64);
            let mut text = joined("Fantia([clubs=", count.as_str());
            text.append("])");
            text
        } else {
            "Fantia(disabled)".to_owned()
        }
    }
}

impl Default for Fantia {
    fn default() -> (settings: Self)
        ensures
            settings.output_path is None,
            settings.session_id@.len() == 0,
            settings.fan_clubs@.len() == 0,
            !settings.enabled,
    {
        Fantia { output_path: None, session_id: String::new(), fan_clubs: Vec::new(), enabled: false }
    }
}

impl Clone for Fantia {
    fn clone(&self) -> (copy: Self)
        ensures
            copy.agrees(self),
    {
        Fantia {
            output_path: copy_of(&self.output_path),
            session_id: self.session_id.clone(),
            fan_clubs: self.fan_clubs.clone(),
            enabled: self.enabled,
        }
    }
}

} // verus!
