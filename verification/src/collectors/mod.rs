//! Collectors gather candidate items from the content platforms.

pub mod fantia_jp;
pub mod only_fans;
pub mod reddit;
pub mod user_lock;

use vstd::prelude::*;
use crate::collectors::fantia_jp::Collector as FantiaCollector;
use crate::collectors::only_fans::Collector as OnlyFansCollector;
use crate::collectors::reddit::RedditCollector;
use crate::config::AppConfig;
use crate::download::item::Item;
use crate::text::{
    fold_case, lemma_precedes_irreflexive, lemma_precedes_total, lemma_precedes_transitive,
    lowercase, precedes, rank, Rank,
};
use crate::urls::UrlView;

verus! {

/// Why a collector as a whole failed.
#[derive(Debug)]
pub enum CollectError {
    /// The queue to the download pipeline is closed.
    QueueClosed,
    /// The list of tracked entities could not be had.
    Entities(String),
    /// The collector was told of something that it had not asked for.
    OutOfTurn,
}

/// The URLs of the items, in order.
pub open spec fn item_urls(items: Seq<Item>) -> Seq<UrlView> {
    Seq::new(items.len(), |i: int| items[i].url@)
}

/// Whether `item` was found for the entity `entity` by the collector named
/// `collector_name`: it bears the collector's name and is stored under the
/// entity's.
pub open spec fn found_for(item: Item, collector_name: Seq<char>, entity: Seq<char>) -> bool {
    &&& item.collector_name@ == collector_name
    &&& item.sub_path is Some
    &&& item.sub_path->0@ == entity
}

/// What every collector offers to the orchestrator.
pub trait Collect {
    /// The collector's name.
    spec fn name_spec(&self) -> Seq<char>;

    /// Whether the configuration `conf` enables the collector.
    spec fn enabled_spec(&self, conf: &AppConfig) -> bool;

    /// The collector's name.
    fn get_name(&self) -> (name: String)
        ensures
            name@ == self.name_spec(),
    ;

    /// Whether the configuration `conf` enables the collector.
    fn is_enabled(&self, conf: &AppConfig) -> (enabled: bool)
        ensures
            enabled == self.enabled_spec(conf),
    ;
}

/// A collector of one of the kinds that can be registered.
pub enum Registered {
    Reddit(RedditCollector),
    OnlyFans(OnlyFansCollector),
    Fantia(FantiaCollector),
}

impl Collect for Registered {
    open spec fn name_spec(&self) -> Seq<char> {
        match self {
            Registered::Reddit(collector) => collector.name_spec(),
            Registered::OnlyFans(collector) => collector.name_spec(),
            Registered::Fantia(collector) => collector.name_spec(),
        }
    }

    open spec fn enabled_spec(&self, conf: &AppConfig) -> bool {
        match self {
            Registered::Reddit(collector) => collector.enabled_spec(conf),
            Registered::OnlyFans(collector) => collector.enabled_spec(conf),
            Registered::Fantia(collector) => collector.enabled_spec(conf),
        }
    }

    fn get_name(&self) -> (name: String) {
        match self {
            Registered::Reddit(collector) => collector.get_name(),
            Registered::OnlyFans(collector) => collector.get_name(),
            Registered::Fantia(collector) => collector.get_name(),
        }
    }

    fn is_enabled(&self, conf: &AppConfig) -> (enabled: bool) {
        match self {
            Registered::Reddit(collector) => collector.is_enabled(conf),
            Registered::OnlyFans(collector) => collector.is_enabled(conf),
            Registered::Fantia(collector) => collector.is_enabled(conf),
        }
    }
}

/// The registered collectors.
pub struct Collectors {
    pub collectors: Vec<Registered>,
}

/// Which of the registered collectors run, by their places in the register.
#[derive(Debug)]
pub struct Run {
    /// The collectors that are started, each as a task of its own.
    pub started: Vec<usize>,
    /// The collectors that are not enabled and are passed over.
    pub skipped: Vec<usize>,
}

/// For each registered collector, whether `conf` enables it.
pub open spec fn enabled_flags(collectors: Seq<Registered>, conf: &AppConfig) -> Seq<bool> {
    Seq::new(collectors.len(), |i: int| collectors[i].enabled_spec(conf))
}

/// The places at which `flags` holds `want`, in rising order.
pub open spec fn places(flags: Seq<bool>, want: bool) -> Seq<usize>
    decreases flags.len(),
{
    if flags.len() == 0 {
        Seq::empty()
    } else if flags.last() == want {
        places(flags.drop_last(), want).push((flags.len() - 1) as usize)
    } else {
        places(flags.drop_last(), want)
    }
}

/// Whether the collector ended with an error, for each outcome.
pub open spec fn failures(outcomes: Seq<Result<(), CollectError>>) -> Seq<bool> {
    Seq::new(outcomes.len(), |i: int| outcomes[i] is Err)
}

impl Collectors {
    /// Decides which collectors run under the configuration `config`: each
    /// enabled one is started, each other one passed over.
    pub fn run(&self, config: &AppConfig) -> (plan: Run)
        ensures
            plan.started@ == places(enabled_flags(self.collectors@, config), true),
            plan.skipped@ == places(enabled_flags(self.collectors@, config), false),
    {
        let mut started: Vec<usize> = Vec::new();
        let mut skipped: Vec<usize> = Vec::new();
        let ghost flags = enabled_flags(self.collectors@, config);
        let mut i: usize = 0;
        while i < self.collectors.len()
            invariant
                i <= self.collectors.len(),
                flags == enabled_flags(self.collectors@, config),
                started@ == places(flags.take(i as int), true),
                skipped@ == places(flags.take(i as int), false),
            decreases self.collectors.len() - i,
        {
            let enabled = self.collectors[i].is_enabled(config);
            proof {
                assert(flags.take(i + 1).drop_last() =~= flags.take(i as int));
            }
            if enabled {
                started.push(i);
            } else {
                skipped.push(i);
            }
            i += 1;
        }
        assert(flags.take(i as int) =~= flags);
        Run { started, skipped }
    }

    /// Closes a run once every started collector has ended. The run as a
    /// whole succeeds whatever the collectors' outcomes were; the places of
    /// those that failed are returned to be logged.
    pub fn finish(outcomes: &Vec<Result<(), CollectError>>) -> (res: Result<
        Vec<usize>,
        CollectError,
    >)
        ensures
            res is Ok,
            res->Ok_0@ == places(failures(outcomes@), true),
    {
        let mut failed: Vec<usize> = Vec::new();
        let ghost flags = failures(outcomes@);
        let mut i: usize = 0;
        while i < outcomes.len()
            invariant
                i <= outcomes.len(),
                flags == failures(outcomes@),
                failed@ == places(flags.take(i as int), true),
            decreases outcomes.len() - i,
        {
            let is_failure = outcomes[i].is_err();
            proof {
                assert(flags.take(i + 1).drop_last() =~= flags.take(i as int));
            }
            if is_failure {
                failed.push(i);
            }
            i += 1;
        }
        assert(flags.take(i as int) =~= flags);
        Ok(failed)
    }
}

/// Every place below the number of flags is among the places of the one
/// value or of the other, and places hold nothing else.
pub proof fn lemma_places_partition(flags: Seq<bool>, at: int)
    requires
        0 <= at < flags.len(),
        flags.len() <= usize::MAX,
    ensures
        places(flags, flags[at]).contains(at as usize),
        !places(flags, !flags[at]).contains(at as usize),
        places(flags, true).len() + places(flags, false).len() == flags.len(),
    decreases flags.len(),
{
    let rest = flags.drop_last();
    if at == flags.len() - 1 {
        let taken = places(flags, flags[at]);
        assert(taken[taken.len() - 1] == at as usize);
        lemma_places_bounded(rest, !flags[at]);
        lemma_places_count(rest);
    } else {
        lemma_places_partition(rest, at);
        let taken = places(rest, flags[at]);
        let i = choose|i: int| 0 <= i < taken.len() && taken[i] == at as usize;
        if flags.last() == flags[at] {
            assert(places(flags, flags[at])[i] == at as usize);
        }
    }
}

/// The places of the two values together are as many as the flags.
proof fn lemma_places_count(flags: Seq<bool>)
    ensures
        places(flags, true).len() + places(flags, false).len() == flags.len(),
    decreases flags.len(),
{
    if flags.len() > 0 {
        lemma_places_count(flags.drop_last());
    }
}

/// Each place is below the number of flags.
proof fn lemma_places_bounded(flags: Seq<bool>, want: bool)
    requires
        flags.len() <= usize::MAX,
    ensures
        forall|i: int| 0 <= i < places(flags, want).len() ==> #[trigger] places(flags, want)[i]
            < flags.len(),
    decreases flags.len(),
{
    if flags.len() > 0 {
        let rest = flags.drop_last();
        lemma_places_bounded(rest, want);
        assert forall|i: int| 0 <= i < places(flags, want).len() implies #[trigger] places(
            flags,
            want,
        )[i] < flags.len() by {
            if i < places(rest, want).len() {
                assert(places(flags, want)[i] == places(rest, want)[i]);
            }
        }
    }
}

/// A collector that fails changes neither the outcome of any other nor that
/// of the run: the places reported for the others are the same as if it had
/// succeeded.
pub proof fn lemma_failure_isolated(
    outcomes: Seq<Result<(), CollectError>>,
    at: int,
    error: CollectError,
)
    requires
        0 <= at < outcomes.len(),
    ensures
        forall|i: int|
            0 <= i < outcomes.len() && i != at ==> failures(outcomes.update(at, Err(error)))[i]
                == #[trigger] failures(outcomes)[i],
        failures(outcomes.update(at, Err(error)))[at],
{
}

/// The key under which the names of tracked entities are compared: the name
/// in lower case.
pub open spec fn key(name: Seq<char>) -> Seq<char> {
    lowercase(name)
}

/// Whether no name before the one at `at` has the same key.
pub open spec fn first_of_key(names: Seq<Seq<char>>, at: int) -> bool {
    forall|k: int| 0 <= k < at ==> key(#[trigger] names[k]) != key(names[at])
}

/// Whether `entry` is one of `names`, and the first of them with its key.
pub open spec fn first_seen(names: Seq<Seq<char>>, entry: Seq<char>) -> bool {
    exists|j: int| 0 <= j < names.len() && #[trigger] names[j] == entry && first_of_key(names, j)
}

/// Whether one of `out` has the key `k`.
pub open spec fn holds_key(out: Seq<Seq<char>>, k: Seq<char>) -> bool {
    exists|i: int| 0 <= i < out.len() && key(#[trigger] out[i]) == k
}

/// Whether `out` is the processing order of the tracked entities `names`:
/// sorted by key with no key twice, each entry the first name of its key as
/// configured, and no key of a configured name left out.
pub open spec fn is_normalized(names: Seq<Seq<char>>, out: Seq<Seq<char>>) -> bool {
    &&& keys_rise(out)
    &&& forall|i: int| 0 <= i < out.len() ==> first_seen(names, #[trigger] out[i])
    &&& forall|j: int| 0 <= j < names.len() ==> holds_key(out, key(#[trigger] names[j]))
}

/// Whether the keys of `out` rise strictly from entry to entry.
pub open spec fn keys_rise(out: Seq<Seq<char>>) -> bool {
    forall|a: int, b: int|
        0 <= a < b < out.len() ==> precedes(key(#[trigger] out[a]), key(#[trigger] out[b]))
}

/// Two lists whose keys rise strictly, each holding every key of the other,
/// are as long as each other and agree key by key.
proof fn lemma_rising_keys_agree(a: Seq<Seq<char>>, b: Seq<Seq<char>>)
    requires
        keys_rise(a),
        keys_rise(b),
        forall|i: int| 0 <= i < a.len() ==> holds_key(b, key(#[trigger] a[i])),
        forall|i: int| 0 <= i < b.len() ==> holds_key(a, key(#[trigger] b[i])),
    ensures
        a.len() == b.len(),
        forall|i: int| 0 <= i < a.len() ==> key(#[trigger] a[i]) == key(b[i]),
    decreases a.len(),
{
    if a.len() == 0 {
        if b.len() > 0 {
            assert(holds_key(a, key(b[0])));
        }
    } else {
        // The last keys are the same: each list holds the last key of the
        // other, so each last key is at or below the other.
        let la = a.last();
        let lb = b.last();
        lemma_precedes_total(key(la), key(lb));
        // So the lists without their last entries hold each other's keys too.
        let shorter_a = a.drop_last();
        let shorter_b = b.drop_last();
        assert forall|i: int| 0 <= i < shorter_a.len() implies holds_key(
            shorter_b,
            key(#[trigger] shorter_a[i]),
        ) by {
            let j = choose|j: int| 0 <= j < b.len() && key(#[trigger] b[j]) == key(a[i]);
            lemma_precedes_irreflexive(key(la));
            assert(shorter_b[j] == b[j]);
        }
        assert forall|i: int| 0 <= i < shorter_b.len() implies holds_key(
            shorter_a,
            key(#[trigger] shorter_b[i]),
        ) by {
            let j = choose|j: int| 0 <= j < a.len() && key(#[trigger] a[j]) == key(b[i]);
            lemma_precedes_irreflexive(key(lb));
            assert(shorter_a[j] == a[j]);
        }
        lemma_rising_keys_agree(shorter_a, shorter_b);
        assert forall|i: int| 0 <= i < a.len() implies key(#[trigger] a[i]) == key(b[i]) by {
            if i < a.len() - 1 {
                assert(shorter_a[i] == a[i] && shorter_b[i] == b[i]);
            }
        }
    }
}

/// A list of names has one processing order and no other.
pub proof fn lemma_normal_order_unique(
    names: Seq<Seq<char>>,
    a: Seq<Seq<char>>,
    b: Seq<Seq<char>>,
)
    requires
        is_normalized(names, a),
        is_normalized(names, b),
    ensures
        a == b,
{
    // Both orders hold the keys of the names and no others, so they agree key
    // by key; and of the names with one key only one is the first.
    lemma_rising_keys_agree(a, b);
}

/// The order in which tracked entities are processed: sorted without regard
/// to case, each entity once, under the name that was configured first.
pub fn normalize(names: &Vec<String>) -> (out: Vec<String>)
    ensures
        is_normalized(names.deep_view(), out.deep_view()),
{
    let mut out: Vec<String> = Vec::new();
    let mut keys: Vec<String> = Vec::new();
    let ghost mut origin: Seq<int> = Seq::empty();
    let ghost all = names.deep_view();
    let mut j: usize = 0;
    while j < names.len()
        invariant
            j <= names.len(),
            all == names.deep_view(),
            keys.len() == out.len(),
            origin.len() == out.len(),
            forall|i: int| 0 <= i < out.len() ==> #[trigger] keys[i]@ == key(out[i]@),
            forall|a: int, b: int|
                0 <= a < b < keys.len() ==> precedes(#[trigger] keys[a]@, #[trigger] keys[b]@),
            forall|i: int|
                0 <= i < out.len() ==> 0 <= #[trigger] origin[i] < j && all[origin[i]] == out[i]@
                    && first_of_key(all, origin[i]),
            forall|jj: int|
                0 <= jj < j ==> exists|i: int|
                    0 <= i < keys.len() && keys[i]@ == key(#[trigger] all[jj]),
        decreases names.len() - j,
    {
        let name = &names[j];
        assert(all[j as int] == name@);
        let k = fold_case(name.as_str());
        let mut p: usize = 0;
        let mut found = false;
        while p < keys.len()
            invariant_except_break
                !found,
            invariant
                p <= keys.len(),
                forall|a: int| 0 <= a < p ==> precedes(#[trigger] keys[a]@, k@),
            ensures
                p <= keys.len(),
                forall|a: int| 0 <= a < p ==> precedes(#[trigger] keys[a]@, k@),
                found ==> p < keys.len() && keys[p as int]@ == k@,
                !found ==> (p == keys.len() || precedes(k@, keys[p as int]@)),
            decreases keys.len() - p,
        {
            let r = rank(keys[p].as_str(), k.as_str());
            if r == Rank::Same {
                found = true;
                break ;
            }
            if r == Rank::After {
                proof {
                    lemma_precedes_total(keys[p as int]@, k@);
                }
                break ;
            }
            p += 1;
        }
        if found {
            proof {
                assert forall|jj: int| 0 <= jj < j + 1 implies exists|i: int|
                    0 <= i < keys.len() && keys[i]@ == key(#[trigger] all[jj]) by {
                    if jj == j {
                        assert(keys[p as int]@ == key(all[jj]));
                    }
                }
            }
        } else {
            let ghost old_keys = keys@;
            let ghost old_out = out@;
            let ghost old_origin = origin;
            proof {
                // The key is new: it differs from every key held so far.
                assert forall|i: int| 0 <= i < old_keys.len() implies old_keys[i]@ != k@ by {
                    if i < p {
                        lemma_precedes_irreflexive(k@);
                    } else {
                        if i > p {
                            lemma_precedes_transitive(k@, old_keys[p as int]@, old_keys[i]@);
                        }
                        lemma_precedes_irreflexive(k@);
                    }
                }
                assert(first_of_key(all, j as int)) by {
                    assert forall|e: int| 0 <= e < j implies key(#[trigger] all[e]) != key(
                        all[j as int],
                    ) by {
                        let i = choose|i: int| 0 <= i < old_keys.len() && old_keys[i]@ == key(all[e]);
                        assert(old_keys[i]@ != k@);
                    }
                }
            }
            out.insert(p, name.clone());
            keys.insert(p, k);
            proof {
                origin = old_origin.insert(p as int, j as int);
                assert forall|i: int| 0 <= i < out.len() implies #[trigger] keys[i]@ == key(
                    out[i]@,
                ) by {
                    if i < p {
                        assert(keys[i] == old_keys[i] && out[i] == old_out[i]);
                    } else if i > p {
                        assert(keys[i] == old_keys[i - 1] && out[i] == old_out[i - 1]);
                    }
                }
                assert forall|a: int, b: int| 0 <= a < b < keys.len() implies precedes(
                    #[trigger] keys[a]@,
                    #[trigger] keys[b]@,
                ) by {
                    if b == p {
                        assert(keys[a] == old_keys[a]);
                    } else if a == p {
                        assert(keys[b] == old_keys[b - 1]);
                        if b - 1 > p {
                            lemma_precedes_transitive(k@, old_keys[p as int]@, old_keys[b - 1]@);
                        }
                    } else if b < p {
                        assert(keys[a] == old_keys[a] && keys[b] == old_keys[b]);
                    } else if a < p {
                        assert(keys[a] == old_keys[a] && keys[b] == old_keys[b - 1]);
                    } else {
                        assert(keys[a] == old_keys[a - 1] && keys[b] == old_keys[b - 1]);
                    }
                }
                assert forall|i: int| 0 <= i < out.len() implies 0 <= #[trigger] origin[i] < j + 1
                    && all[origin[i]] == out[i]@ && first_of_key(all, origin[i]) by {
                    if i < p {
                        assert(out[i] == old_out[i] && origin[i] == old_origin[i]);
                    } else if i > p {
                        assert(out[i] == old_out[i - 1] && origin[i] == old_origin[i - 1]);
                    }
                }
                assert forall|jj: int| 0 <= jj < j + 1 implies exists|i: int|
                    0 <= i < keys.len() && keys[i]@ == key(#[trigger] all[jj]) by {
                    if jj == j {
                        assert(keys[p as int]@ == key(all[jj]));
                    } else {
                        let i = choose|i: int|
                            0 <= i < old_keys.len() && old_keys[i]@ == key(all[jj]);
                        if i < p {
                            assert(keys[i] == old_keys[i]);
                        } else {
                            assert(keys[i + 1] == old_keys[i]);
                        }
                    }
                }
            }
        }
        j += 1;
    }
    proof {
        let result = out.deep_view();
        assert forall|a: int, b: int| 0 <= a < b < result.len() implies precedes(
            key(#[trigger] result[a]),
            key(#[trigger] result[b]),
        ) by {
            assert(keys[a]@ == key(out[a]@) && keys[b]@ == key(out[b]@));
        }
        assert forall|i: int| 0 <= i < result.len() implies first_seen(
            all,
            #[trigger] result[i],
        ) by {
            let j = origin[i];
            assert(all[j] == result[i] && first_of_key(all, j));
        }
        assert forall|j: int| 0 <= j < all.len() implies holds_key(
            result,
            key(#[trigger] all[j]),
        ) by {
            let i = choose|i: int| 0 <= i < keys.len() && keys[i]@ == key(all[j]);
            assert(keys[i]@ == key(out[i]@));
            assert(key(result[i]) == key(all[j]));
        }
    }
    out
}

} // verus!
