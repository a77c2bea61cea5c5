//! Listings of Reddit: where a listing resumes, and the typed identifiers of
//! the things it holds.

use vstd::prelude::*;
use crate::text::{chars_of, decimal, joined, numeral, same_text};

verus! {

/// The number of items asked for in one batch unless told otherwise.
pub const DEFAULT_BATCH_SIZE: usize = 20;

/// Where a listing starts and how many items one batch holds.
#[derive(Debug, Clone)]
pub struct Options {
    pub anchor: Option<Anchor>,
    pub batch_size: usize,
}

impl Default for Options {
    fn default() -> (options: Self)
        ensures
            options.anchor is None,
            options.batch_size == DEFAULT_BATCH_SIZE,
    {
        Options { batch_size: DEFAULT_BATCH_SIZE, anchor: None }
    }
}

/// What asks for a listing to start next to an item, as it stands in the
/// address of the listing.
pub open spec fn anchor_query(anchor: Option<Anchor>) -> Seq<char> {
    match anchor {
        Some(Anchor::Before(marker)) => "&before="@ + marker@,
        Some(Anchor::After(marker)) => "&after="@ + marker@,
        None => Seq::empty(),
    }
}

/// The address of the listing of what the user `user` submitted, read as
/// `options` say.
pub open spec fn submitted_endpoint(user: Seq<char>, options: Options) -> Seq<char> {
    "https://www.reddit.com/user/"@ + user + "/submitted.json?limit="@ + numeral(
        options.batch_size as nat,
    ) + anchor_query(options.anchor)
}

impl Options {
    /// The address at which Reddit lists what the user `user` submitted,
    /// the most recent first, in batches and from the anchor that the
    /// options name.
    pub fn endpoint(&self, user: &str) -> (address: String)
        ensures
            address@ == submitted_endpoint(user@, *self),
    {
        let mut address = joined("https://www.reddit.com/user/", user);
        address.append("/submitted.json?limit=");
        address.append(decimal(self.batch_size as u64).as_str());
        match &self.anchor {
            Some(Anchor::Before(marker)) => {
                address.append("&before=");
                address.append(marker.as_str());
            },
            Some(Anchor::After(marker)) => {
                address.append("&after=");
                address.append(marker.as_str());
            },
            None => {},
        }
        address
    }
}

/// The item next to which a listing starts.
#[derive(Debug, Clone)]
pub enum Anchor {
    /// The listing holds what is newer than the item.
    Before(String),
    /// The listing holds what is older than the item.
    After(String),
}

/// A typed identifier: the kind of thing and its id.
#[derive(Debug, Clone, Ord, PartialOrd, Eq, PartialEq)]
pub enum Type {
    Comment(String),
    Account(String),
    Link(String),
    Message(String),
    Subreddit(String),
    Award(String),
}

/// Why a typed identifier was not understood.
#[derive(Debug)]
pub enum TypeParseError {
    /// The text does not start with a known type prefix and a separator.
    InvalidType(String),
}

/// The separator between the type prefix and the id.
pub open spec fn separator() -> char {
    '_'
}

/// The index of the first `sep` in `s`, or the length of `s` if it holds
/// none.
pub open spec fn position(s: Seq<char>, sep: char) -> int
    decreases s.len(),
{
    if s.len() == 0 || s[0] == sep {
        0
    } else {
        1 + position(s.skip(1), sep)
    }
}

/// The type prefix of a typed identifier: what stands before the first
/// separator.
pub open spec fn prefix_part(full: Seq<char>) -> Seq<char> {
    full.take(position(full, separator()))
}

/// The id of a typed identifier: what stands between the first separator
/// and the next one, or the end.
pub open spec fn id_part(full: Seq<char>) -> Seq<char> {
    let rest = full.skip(position(full, separator()) + 1);
    rest.take(position(rest, separator()))
}

/// Whether a typed identifier holds a separator at all.
pub open spec fn has_separator(full: Seq<char>) -> bool {
    position(full, separator()) < full.len()
}

/// Whether `prefix` is one of the six known type prefixes.
pub open spec fn is_known_prefix(prefix: Seq<char>) -> bool {
    prefix == "t1"@ || prefix == "t2"@ || prefix == "t3"@ || prefix == "t4"@ || prefix == "t5"@
        || prefix == "t6"@
}

impl Type {
    /// The prefix that stands for this kind of thing.
    pub open spec fn prefix(&self) -> Seq<char> {
        match self {
            Type::Comment(_) => "t1"@,
            Type::Account(_) => "t2"@,
            Type::Link(_) => "t3"@,
            Type::Message(_) => "t4"@,
            Type::Subreddit(_) => "t5"@,
            Type::Award(_) => "t6"@,
        }
    }

    /// The id of the thing.
    pub open spec fn id(&self) -> Seq<char> {
        match self {
            Type::Comment(id) => id@,
            Type::Account(id) => id@,
            Type::Link(id) => id@,
            Type::Message(id) => id@,
            Type::Subreddit(id) => id@,
            Type::Award(id) => id@,
        }
    }

    /// Reads a typed identifier such as `t3_15bfi0`. It is understood where
    /// it holds a separator and its prefix is known; what follows a second
    /// separator is not part of the id.
    pub fn parse(full_type_id: &str) -> (res: Result<Type, TypeParseError>)
        ensures
            res is Ok <==> has_separator(full_type_id@) && is_known_prefix(
                prefix_part(full_type_id@),
            ),
            match res {
                Ok(parsed) => parsed.prefix() == prefix_part(full_type_id@) && parsed.id()
                    == id_part(full_type_id@),
                Err(TypeParseError::InvalidType(text)) => text@ == full_type_id@,
            },
    {
        let chars = chars_of(full_type_id);
        let first = find(&chars, 0, '_');
        assert(full_type_id@.skip(0) =~= full_type_id@);
        if first >= chars.len() {
            return Err(TypeParseError::InvalidType(full_type_id.to_owned()));
        }
        let second = find(&chars, first + 1, '_');
        let type_prefix = full_type_id.substring_char(0, first);
        let type_id = full_type_id.substring_char(first + 1, second).to_owned();
        if same_text(type_prefix, "t1") {
            Ok(Type::Comment(type_id))
        } else if same_text(type_prefix, "t2") {
            Ok(Type::Account(type_id))
        } else if same_text(type_prefix, "t3") {
            Ok(Type::Link(type_id))
        } else if same_text(type_prefix, "t4") {
            Ok(Type::Message(type_id))
        } else if same_text(type_prefix, "t5") {
            Ok(Type::Subreddit(type_id))
        } else if same_text(type_prefix, "t6") {
            Ok(Type::Award(type_id))
        } else {
            Err(TypeParseError::InvalidType(full_type_id.to_owned()))
        }
    }
}

impl TypeParseError {
    /// What `message` returns.
    pub open spec fn message_spec(&self) -> Seq<char> {
        match self {
            TypeParseError::InvalidType(text) => "The provided type "@ + text@
                + " doesn't appear to be a valid listing type"@,
        }
    }

    /// The error in words.
    pub fn message(&self) -> (text: String)
        ensures
            text@ == self.message_spec(),
    {
        match self {
            TypeParseError::InvalidType(given) => {
                let mut text = joined("The provided type ", given.as_str());
                text.append(" doesn't appear to be a valid listing type");
                text
            },
        }
    }
}

/// The index of the first `sep` at or after `from`, or the length of `chars`.
fn find(chars: &Vec<char>, from: usize, sep: char) -> (at: usize)
    requires
        from <= chars.len(),
    ensures
        from <= at <= chars.len(),
        at == from + position(chars@.skip(from as int), sep),
{
    let mut at = from;
    while at < chars.len() && chars[at] != sep
        invariant
            from <= at <= chars.len(),
            from + position(chars@.skip(from as int), sep) == at + position(
                chars@.skip(at as int),
                sep,
            ),
        decreases chars.len() - at,
    {
        proof {
            let here = chars@.skip(at as int);
            assert(here.skip(1) =~= chars@.skip(at + 1));
        }
        at += 1;
    }
    at
}

} // verus!
