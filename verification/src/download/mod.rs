//! The download pipeline: the consumer that takes admitted items one by one
//! and plans what is fetched and where it is written.

pub mod item;

use vstd::prelude::*;
use crate::download::item::{Download, DownloadView, Item};

verus! {

/// The number of items that the queue holds unless told otherwise.
pub const DEFAULT_BUFFER_SIZE: usize = 50;

/// The seconds that the consumer waits for an item before it asks whether
/// any producer is still at work.
pub const IDLE_PERIOD_SECONDS: u64 = 2;

/// Where the consumer stands.
#[derive(Debug, Clone, Copy, PartialEq, Eq, Structural)]
pub enum Phase {
    /// No item was taken yet.
    Idle,
    /// Items are taken as they come.
    Running,
    /// The queue is drained and the consumer has stopped.
    Drained,
}

/// What the consumer found when it looked for the next item.
#[derive(Debug)]
pub enum Polled {
    /// An item.
    Item(Item),
    /// Nothing within the idle period, with `producers` collectors still
    /// at work.
    Idle { producers: usize },
    /// Nothing, and nothing will come: every producer has let go of the
    /// queue.
    Closed,
}

/// What the consumer does next.
#[derive(Debug)]
pub enum Step {
    /// Fetch and write, then look for the next item whatever came of it.
    Fetch(Download),
    /// Drop the item, for which there is no place, and look for the next.
    Skip,
    /// Look for the next item again.
    Wait,
    /// Stop: nothing is left to do.
    Stop,
}

/// What a contract says of a `Step`.
pub ghost enum StepView {
    Fetch(DownloadView),
    Skip,
    Wait,
    Stop,
}

impl View for Step {
    type V = StepView;

    open spec fn view(&self) -> StepView {
        match self {
            Step::Fetch(download) => StepView::Fetch(download@),
            Step::Skip => StepView::Skip,
            Step::Wait => StepView::Wait,
            Step::Stop => StepView::Stop,
        }
    }
}

/// What a contract says of a `Manager`.
pub ghost struct ManagerView {
    pub out_path: Seq<char>,
    pub buffer_size: nat,
    pub phase: Phase,
}

/// The consumer of the download pipeline.
#[derive(Debug)]
pub struct Manager {
    out_path: String,
    buffer_size: usize,
    phase: Phase,
}

impl View for Manager {
    type V = ManagerView;

    closed spec fn view(&self) -> ManagerView {
        ManagerView {
            out_path: self.out_path@,
            buffer_size: self.buffer_size as nat,
            phase: self.phase,
        }
    }
}

/// What the consumer does with an item while it runs.
pub open spec fn step_for(out_path: Seq<char>, item: Item) -> StepView {
    match item.planned(out_path) {
        Some(download) => StepView::Fetch(download),
        None => StepView::Skip,
    }
}

/// The phase after the consumer has found `polled`.
pub open spec fn next_phase(phase: Phase, polled: Polled) -> Phase {
    if phase == Phase::Drained {
        Phase::Drained
    } else {
        match polled {
            Polled::Item(_) => Phase::Running,
            Polled::Idle { producers } => if producers == 0 {
                Phase::Drained
            } else {
                phase
            },
            Polled::Closed => Phase::Drained,
        }
    }
}

/// What the consumer does when it has found `polled`.
pub open spec fn next_step(manager: ManagerView, polled: Polled) -> StepView {
    if manager.phase == Phase::Drained {
        StepView::Stop
    } else {
        match polled {
            Polled::Item(item) => step_for(manager.out_path, item),
            Polled::Idle { producers } => if producers == 0 {
                StepView::Stop
            } else {
                StepView::Wait
            },
            Polled::Closed => StepView::Stop,
        }
    }
}

/// The consumer after it has found `polled`.
pub open spec fn after(manager: ManagerView, polled: Polled) -> ManagerView {
    ManagerView { phase: next_phase(manager.phase, polled), ..manager }
}

/// The consumer after it has found each of `polled` in turn.
pub open spec fn after_all(manager: ManagerView, polled: Seq<Polled>) -> ManagerView
    decreases polled.len(),
{
    if polled.len() == 0 {
        manager
    } else {
        after(after_all(manager, polled.drop_last()), polled.last())
    }
}

/// What the consumer does, step by step, as it finds each of `polled` in
/// turn.
pub open spec fn steps(manager: ManagerView, polled: Seq<Polled>) -> Seq<StepView>
    decreases polled.len(),
{
    if polled.len() == 0 {
        Seq::empty()
    } else {
        steps(manager, polled.drop_last()).push(
            next_step(after_all(manager, polled.drop_last()), polled.last()),
        )
    }
}

/// What a producer that sends `items` and then lets go of the queue makes
/// the consumer find.
pub open spec fn delivery(items: Seq<Item>) -> Seq<Polled> {
    items.map_values(|item: Item| Polled::Item(item)).push(Polled::Closed)
}

impl Default for Manager {
    fn default() -> (manager: Self)
        ensures
            manager@ == (ManagerView {
                out_path: "."@,
                buffer_size: DEFAULT_BUFFER_SIZE as nat,
                phase: Phase::Idle,
            }),
    {
        Self::new(".", DEFAULT_BUFFER_SIZE)
    }
}

impl Manager {
    /// A consumer that writes under `path`, behind a queue that holds
    /// `buff_size` items.
    pub fn new(path: &str, buff_size: usize) -> (manager: Self)
        ensures
            manager@ == (ManagerView {
                out_path: path@,
                buffer_size: buff_size as nat,
                phase: Phase::Idle,
            }),
    {
        Manager { out_path: path.to_owned(), buffer_size: buff_size, phase: Phase::Idle }
    }

    /// The root under which items are written.
    pub fn out_path(&self) -> (path: &str)
        ensures
            path@ == self@.out_path,
    {
        self.out_path.as_str()
    }

    /// The number of items that the queue holds.
    pub fn buffer_size(&self) -> (size: usize)
        ensures
            size == self@.buffer_size,
    {
        self.buffer_size
    }

    /// Where the consumer stands.
    pub fn phase(&self) -> (phase: Phase)
        ensures
            phase == self@.phase,
    {
        self.phase
    }

    /// One turn of the consumer: given what it found when it looked for the
    /// next item, what it does. An item is fetched to its place; whether that
    /// succeeds has no bearing on the next turn. An idle period ends the run
    /// once no producer is at work, and so does a queue that every producer
    /// has let go of. A consumer that has stopped stays stopped.
    pub fn download_items(&mut self, polled: Polled) -> (step: Step)
        ensures
            step@ == next_step(old(self)@, polled),
            final(self)@ == after(old(self)@, polled),
    {
        if self.phase == Phase::Drained {
            return Step::Stop;
        }
        match polled {
            Polled::Item(item) => {
                self.phase = Phase::Running;
                match item.get(self.out_path.as_str()) {
                    Some(download) => Step::Fetch(download),
                    None => Step::Skip,
                }
            },
            Polled::Idle { producers } => {
                if producers == 0 {
                    self.phase = Phase::Drained;
                    Step::Stop
                } else {
                    Step::Wait
                }
            },
            Polled::Closed => {
                self.phase = Phase::Drained;
                Step::Stop
            },
        }
    }
}

/// While the consumer runs, items delivered are taken one each, in the order
/// in which they came.
proof fn lemma_items_in_turn(manager: ManagerView, items: Seq<Item>)
    requires
        manager.phase != Phase::Drained,
    ensures
        steps(manager, items.map_values(|item: Item| Polled::Item(item))) == items.map_values(
            |item: Item| step_for(manager.out_path, item),
        ),
        after_all(manager, items.map_values(|item: Item| Polled::Item(item))).phase
            != Phase::Drained,
        after_all(manager, items.map_values(|item: Item| Polled::Item(item))).out_path
            == manager.out_path,
    decreases items.len(),
{
    if items.len() > 0 {
        lemma_items_in_turn(manager, items.drop_last());
        assert(items.map_values(|item: Item| Polled::Item(item)).drop_last()
            =~= items.drop_last().map_values(|item: Item| Polled::Item(item)));
    }
}

/// A producer sends items, fewer than the queue holds or not, and lets go of
/// the queue. Then the consumer takes each item exactly once, in the order
/// sent, none lost and none twice, and stops after the last.
pub proof fn lemma_pipeline_delivery(manager: ManagerView, items: Seq<Item>)
    requires
        manager.phase != Phase::Drained,
    ensures
        steps(manager, delivery(items)) == items.map_values(
            |item: Item| step_for(manager.out_path, item),
        ).push(StepView::Stop),
        steps(manager, delivery(items)).len() == items.len() + 1,
        forall|i: int|
            0 <= i < items.len() ==> #[trigger] steps(manager, delivery(items))[i] == step_for(
                manager.out_path,
                items[i],
            ),
        after_all(manager, delivery(items)).phase == Phase::Drained,
{
    lemma_items_in_turn(manager, items);
    let sent = items.map_values(|item: Item| Polled::Item(item));
    assert(delivery(items).drop_last() =~= sent);
}

/// Once the consumer has stopped it fetches nothing more.
pub proof fn lemma_stopped_stays_stopped(manager: ManagerView, polled: Polled)
    requires
        manager.phase == Phase::Drained,
    ensures
        next_step(manager, polled) == StepView::Stop,
        after(manager, polled) == manager,
{
}

} // verus!
