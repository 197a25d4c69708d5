use vstd::prelude::*;

use crate::settings::{BaseSettings, Settings};
use crate::topics::{
    answer_topic, get_individual_send_topic, get_receive_topics, receive_topics,
    topic_is_global_or_individual, topic_matches,
};
use crate::wrapper::SuccessWrapper;

verus! {

/// The units of work that run for dispatched messages, each known by an id.
pub struct TaskRegistry {
    ids: Vec<u64>,
    next_id: u64,
}

impl TaskRegistry {
    /// The ids of the units of work that are outstanding.
    pub closed spec fn view(&self) -> Set<u64> {
        self.ids@.to_set()
    }

    /// Ids are never repeated, and none reaches the next id to hand out.
    pub closed spec fn wf(&self) -> bool {
        &&& self.ids@.no_duplicates()
        &&& forall|i: int| 0 <= i < self.ids@.len() ==> #[trigger] self.ids@[i] < self.next_id
    }

    /// Whether every id has been handed out, so that no new unit of work can
    /// be recorded.
    pub closed spec fn exhausted(&self) -> bool {
        self.next_id == u64::MAX
    }

    /// An empty registry.
    pub fn new() -> (r: TaskRegistry)
        ensures
            r.wf(),
            !r.exhausted(),
            r@ == Set::<u64>::empty(),
    {
        let r = TaskRegistry { ids: Vec::new(), next_id: 0 };
        assert(r@ =~= Set::<u64>::empty());
        r
    }

    /// How many units of work are outstanding.
    pub fn len(&self) -> (r: usize)
        requires
            self.wf(),
        ensures
            r == self@.len(),
    {
        proof {
            self.ids@.unique_seq_to_set();
        }
        self.ids.len()
    }

    /// Records a new unit of work and hands out its id, which no outstanding
    /// unit has; none once every id has been handed out.
    pub fn register(&mut self) -> (r: Option<u64>)
        requires
            old(self).wf(),
        ensures
            final(self).wf(),
            r is None <==> old(self).exhausted(),
            r is None ==> final(self)@ == old(self)@ && final(self).exhausted(),
            r matches Some(id) ==> !old(self)@.contains(id) && final(self)@ == old(self)@.insert(id),
    {
        if self.next_id == u64::MAX {
            return None;
        }
        let id = self.next_id;
        proof {
            if self.ids@.contains(id) {
                let i = choose|i: int| 0 <= i < self.ids@.len() && self.ids@[i] == id;
                assert(self.ids@[i] < self.next_id);
            }
            self.ids@.lemma_push_to_set_commute(id);
        }
        self.ids.push(id);
        self.next_id = id + 1;
        assert forall|i: int| 0 <= i < self.ids@.len() implies #[trigger] self.ids@[i] < self.next_id by {
            if i < self.ids@.len() - 1 {
                assert(self.ids@[i] == old(self).ids@[i]);
            }
        }
        Some(id)
    }

    /// Forgets a unit of work that completed; whether it was outstanding.
    pub fn finish(&mut self, id: u64) -> (r: bool)
        requires
            old(self).wf(),
        ensures
            final(self).wf(),
            r == old(self)@.contains(id),
            final(self)@ == old(self)@.remove(id),
            final(self).exhausted() == old(self).exhausted(),
    {
        let mut i: usize = 0;
        while i < self.ids.len()
            invariant
                self.wf(),
                self.ids@ == old(self).ids@,
                self.next_id == old(self).next_id,
                i <= self.ids@.len(),
                forall|j: int| 0 <= j < i ==> self.ids@[j] != id,
            decreases self.ids@.len() - i,
        {
            if self.ids[i] == id {
                let ghost before = self.ids@;
                self.ids.remove(i);
                proof {
                    let after = self.ids@;
                    assert(after =~= before.remove(i as int));
                    assert forall|a: int, b: int| 0 <= a < b < after.len() implies after[a] != after[b] by {
                        let sa = if a < i { a } else { a + 1 };
                        let sb = if b < i { b } else { b + 1 };
                        assert(before[sa] != before[sb]);
                    }
                    assert forall|x: u64| after.to_set().contains(x) <==> before.to_set().remove(id).contains(x) by {
                        if after.to_set().contains(x) {
                            let j = choose|j: int| 0 <= j < after.len() && after[j] == x;
                            let sj = if j < i { j } else { j + 1 };
                            assert(before[sj] == x);
                            assert(sj != i);
                        }
                        if before.to_set().remove(id).contains(x) {
                            let j = choose|j: int| 0 <= j < before.len() && before[j] == x;
                            assert(j != i);
                            let aj = if j < i { j } else { j - 1 };
                            assert(after[aj] == x);
                        }
                    }
                    assert(after.to_set() =~= before.to_set().remove(id));
                    assert forall|j: int| 0 <= j < after.len() implies #[trigger] after[j] < self.next_id by {
                        let sj = if j < i { j } else { j + 1 };
                        assert(before[sj] == after[j]);
                    }
                    assert(before.to_set().contains(id));
                }
                return true;
            }
            i = i + 1;
        }
        assert(!self.ids@.contains(id));
        assert(self.ids@.to_set() =~= self.ids@.to_set().remove(id));
        false
    }

    /// Cancels every outstanding unit of work and tells how many there were.
    pub fn cancel_all(&mut self) -> (r: usize)
        requires
            old(self).wf(),
        ensures
            final(self).wf(),
            r == old(self)@.len(),
            final(self)@ == Set::<u64>::empty(),
            final(self).exhausted() == old(self).exhausted(),
    {
        let count = self.len();
        self.ids.clear();
        assert(self.ids@.to_set() =~= Set::<u64>::empty());
        count
    }
}

/// The registry after a run of units of work completed, one after the other.
pub open spec fn after_finishing(outstanding: Set<u64>, finished: Seq<u64>) -> Set<u64>
    decreases finished.len(),
{
    if finished.len() == 0 {
        outstanding
    } else {
        after_finishing(outstanding.remove(finished[0]), finished.drop_first())
    }
}

/// With `n` units of work outstanding, of which `k` distinct ones complete
/// before the cancellation, the cancellation reports `n - k`.
pub proof fn lemma_cancel_count(outstanding: Set<u64>, finished: Seq<u64>)
    requires
        outstanding.finite(),
        finished.no_duplicates(),
        forall|i: int| 0 <= i < finished.len() ==> outstanding.contains(#[trigger] finished[i]),
    ensures
        after_finishing(outstanding, finished).len() == outstanding.len() - finished.len(),
        after_finishing(outstanding, finished).len() <= outstanding.len(),
    decreases finished.len(),
{
    if finished.len() > 0 {
        let rest = finished.drop_first();
        let smaller = outstanding.remove(finished[0]);
        assert forall|i: int| 0 <= i < rest.len() implies smaller.contains(#[trigger] rest[i]) by {
            assert(rest[i] == finished[i + 1]);
            assert(finished[i + 1] != finished[0]);
        }
        assert forall|a: int, b: int| 0 <= a < b < rest.len() implies rest[a] != rest[b] by {
            assert(rest[a] == finished[a + 1] && rest[b] == finished[b + 1]);
        }
        lemma_cancel_count(smaller, rest);
    }
}

/// The handler families that messages are dispatched to.
#[derive(PartialEq, Eq, Structural, Clone, Copy, Debug)]
pub enum Family {
    Ntp,
    Camera,
    Update,
    Command,
    Status,
}

/// Where an inbound message goes.
#[derive(PartialEq, Eq, Structural, Clone, Copy, Debug)]
pub enum Route {
    /// The cancellation topic: handled at once by the loop itself.
    Cancel,
    /// A unit of work of this family.
    Handle(Family),
    /// No registered topic: nothing happens.
    Ignore,
}

/// The route of a message by its topic: the cancellation topic first, then
/// the families in a fixed order.
pub open spec fn route_of(topic: Seq<char>, base: BaseSettings, settings: Settings) -> Route {
    let id = base.pi_zero_id@;
    if topic_matches(topic, settings.cancel_topic@, id) {
        Route::Cancel
    } else if topic_matches(topic, settings.ntp_topic@, id) {
        Route::Handle(Family::Ntp)
    } else if topic_matches(topic, settings.camera_topic@, id) {
        Route::Handle(Family::Camera)
    } else if topic_matches(topic, base.update_topic@, id) {
        Route::Handle(Family::Update)
    } else if topic_matches(topic, settings.command_topic@, id) {
        Route::Handle(Family::Command)
    } else if topic_matches(topic, settings.status_topic@, id) {
        Route::Handle(Family::Status)
    } else {
        Route::Ignore
    }
}

/// Finds where a message on `topic` goes.
pub fn route(topic: &String, base: &BaseSettings, settings: &Settings) -> (r: Route)
    ensures
        r == route_of(topic@, *base, *settings),
{
    let id = base.pi_zero_id.as_str();
    if topic_is_global_or_individual(topic, settings.cancel_topic.as_str(), id) {
        Route::Cancel
    } else if topic_is_global_or_individual(topic, settings.ntp_topic.as_str(), id) {
        Route::Handle(Family::Ntp)
    } else if topic_is_global_or_individual(topic, settings.camera_topic.as_str(), id) {
        Route::Handle(Family::Camera)
    } else if topic_is_global_or_individual(topic, base.update_topic.as_str(), id) {
        Route::Handle(Family::Update)
    } else if topic_is_global_or_individual(topic, settings.command_topic.as_str(), id) {
        Route::Handle(Family::Command)
    } else if topic_is_global_or_individual(topic, settings.status_topic.as_str(), id) {
        Route::Handle(Family::Status)
    } else {
        Route::Ignore
    }
}

/// The logical topics a device listens on.
pub open spec fn logical_topics(base: BaseSettings, settings: Settings) -> Seq<Seq<char>> {
    seq![
        base.update_topic@,
        settings.ntp_topic@,
        settings.camera_topic@,
        settings.command_topic@,
        settings.status_topic@,
        settings.cancel_topic@,
    ]
}

/// Every physical topic a device subscribes to: the four receive topics of
/// each logical topic, in the order of `logical_topics`.
pub open spec fn subscriptions(base: BaseSettings, settings: Settings) -> Seq<Seq<char>> {
    let t = logical_topics(base, settings);
    let id = base.pi_zero_id@;
    receive_topics(t[0], id) + receive_topics(t[1], id) + receive_topics(t[2], id)
        + receive_topics(t[3], id) + receive_topics(t[4], id) + receive_topics(t[5], id)
}

fn push_receive_topics(out: &mut Vec<String>, topic: &str, pi_zero_id: &str)
    requires
        pi_zero_id@.len() >= 2,
    ensures
        final(out)@.len() == old(out)@.len() + 4,
        forall|i: int| 0 <= i < old(out)@.len() ==> #[trigger] final(out)@[i] == old(out)@[i],
        forall|i: int| 0 <= i < 4 ==> #[trigger] final(out)@[old(out)@.len() + i]@ == receive_topics(topic@, pi_zero_id@)[i],
{
    let mut topics = get_receive_topics(topic, pi_zero_id);
    out.append(&mut topics);
}

/// Lists every topic to subscribe to, for the first connection and after each
/// reconnection; subscribing twice to the same list changes nothing.
pub fn subscription_topics(base: &BaseSettings, settings: &Settings) -> (r: Vec<String>)
    requires
        base.pi_zero_id@.len() >= 2,
    ensures
        r@.len() == subscriptions(*base, *settings).len(),
        forall|i: int| 0 <= i < r@.len() ==> #[trigger] r@[i]@ == subscriptions(*base, *settings)[i],
{
    let id = base.pi_zero_id.as_str();
    let mut r: Vec<String> = Vec::new();
    push_receive_topics(&mut r, base.update_topic.as_str(), id);
    push_receive_topics(&mut r, settings.ntp_topic.as_str(), id);
    push_receive_topics(&mut r, settings.camera_topic.as_str(), id);
    push_receive_topics(&mut r, settings.command_topic.as_str(), id);
    push_receive_topics(&mut r, settings.status_topic.as_str(), id);
    push_receive_topics(&mut r, settings.cancel_topic.as_str(), id);
    proof {
        let s = subscriptions(*base, *settings);
        assert forall|i: int| 0 <= i < r@.len() implies #[trigger] r@[i]@ == s[i] by {
            let k = i / 4;
            let j = i % 4;
            assert(i == 4 * k + j);
        }
    }
    r
}

/// The states of the dispatch loop.
#[derive(PartialEq, Eq, Structural, Clone, Copy, Debug)]
pub enum LoopState {
    Polling,
    Dispatching,
    Restarting,
    ShuttingDown,
}

/// What the dispatch loop is told.
pub enum LoopEvent {
    /// The broker acknowledged a new session.
    Reconnected,
    /// A message arrived on this topic.
    Message { topic: String },
    /// The unit of work with this id completed.
    TaskFinished(u64),
    /// The process was asked to stop.
    Interrupted,
}

/// What the dispatch loop must do.
pub enum LoopAction {
    /// Subscribe again to all of these topics.
    Resubscribe(Vec<String>),
    /// Start a unit of work of this family under this id.
    Spawn { family: Family, task: u64 },
    /// Every outstanding unit of work was cancelled: publish the reply on the topic.
    Cancelled { count: usize, topic: String, reply: SuccessWrapper<usize> },
    /// Replace the process image with the updated executable.
    Restart,
    /// Leave at once, publishing nothing.
    Exit,
    /// Nothing to do.
    Nothing,
}

/// The dispatch loop's own state: it alone owns the registry.
pub struct Dispatcher {
    pub state: LoopState,
    pub registry: TaskRegistry,
}

impl Dispatcher {
    /// A loop that polls, with no work outstanding.
    pub fn new() -> (r: Dispatcher)
        ensures
            r.state == LoopState::Polling,
            r.registry.wf(),
            !r.registry.exhausted(),
            r.registry@ == Set::<u64>::empty(),
    {
        Dispatcher { state: LoopState::Polling, registry: TaskRegistry::new() }
    }

    /// The check at the head of each iteration: a raised restart flag stops
    /// the loop before any further message is taken.
    pub fn check_restart(&mut self, restart_flag: bool) -> (r: LoopAction)
        requires
            old(self).registry.wf(),
        ensures
            final(self).registry == old(self).registry,
            old(self).state == LoopState::Polling && restart_flag ==> final(self).state == LoopState::Restarting && r is Restart,
            !(old(self).state == LoopState::Polling && restart_flag) ==> final(self).state == old(self).state && r is Nothing,
    {
        if self.state == LoopState::Polling && restart_flag {
            self.state = LoopState::Restarting;
            LoopAction::Restart
        } else {
            LoopAction::Nothing
        }
    }

    /// Handles one event of the loop.
    ///
    /// A new session brings every subscription back; a message on the
    /// cancellation topic cancels all work at once and reports how much; any
    /// other registered message starts one unit of work; an unknown one is
    /// dropped. After an interrupt, or once restarting, nothing more happens.
    pub fn on_event(&mut self, event: LoopEvent, base: &BaseSettings, settings: &Settings) -> (r: LoopAction)
        requires
            old(self).registry.wf(),
            base.pi_zero_id@.len() >= 2,
        ensures
            final(self).registry.wf(),
            old(self).state != LoopState::Polling ==> final(self).state == old(self).state
                && final(self).registry@ == old(self).registry@ && r is Nothing,
            old(self).state == LoopState::Polling ==> match event {
                LoopEvent::Interrupted => {
                    &&& final(self).state == LoopState::ShuttingDown
                    &&& final(self).registry@ == old(self).registry@
                    &&& r is Exit
                },
                LoopEvent::Reconnected => {
                    &&& final(self).state == LoopState::Polling
                    &&& final(self).registry@ == old(self).registry@
                    &&& r matches LoopAction::Resubscribe(topics)
                    &&& topics@.len() == subscriptions(*base, *settings).len()
                    &&& forall|i: int| 0 <= i < topics@.len() ==> #[trigger] topics@[i]@ == subscriptions(*base, *settings)[i]
                },
                LoopEvent::TaskFinished(id) => {
                    &&& final(self).state == LoopState::Polling
                    &&& final(self).registry@ == old(self).registry@.remove(id)
                    &&& r is Nothing
                },
                LoopEvent::Message { topic } => {
                    &&& final(self).state == LoopState::Polling
                    &&& match route_of(topic@, *base, *settings) {
                        Route::Cancel => {
                            &&& final(self).registry@ == Set::<u64>::empty()
                            &&& r matches LoopAction::Cancelled { count, topic: t, reply }
                            &&& count == old(self).registry@.len()
                            &&& reply.success && reply.value == count
                            &&& t@ == answer_topic(settings.cancel_topic@, base.pi_zero_id@)
                        },
                        Route::Handle(family) => if old(self).registry.exhausted() {
                            &&& r is Nothing
                            &&& final(self).registry@ == old(self).registry@
                        } else {
                            &&& r matches LoopAction::Spawn { family: f, task }
                            &&& f == family
                            &&& !old(self).registry@.contains(task)
                            &&& final(self).registry@ == old(self).registry@.insert(task)
                        },
                        Route::Ignore => {
                            &&& final(self).registry@ == old(self).registry@
                            &&& r is Nothing
                        },
                    }
                },
            },
    {
        if self.state != LoopState::Polling {
            return LoopAction::Nothing;
        }
        match event {
            LoopEvent::Interrupted => {
                self.state = LoopState::ShuttingDown;
                LoopAction::Exit
            },
            LoopEvent::Reconnected => LoopAction::Resubscribe(subscription_topics(base, settings)),
            LoopEvent::TaskFinished(id) => {
                self.registry.finish(id);
                LoopAction::Nothing
            },
            LoopEvent::Message { topic } => {
                self.state = LoopState::Dispatching;
                let action = match route(&topic, base, settings) {
                    Route::Cancel => {
                        let count = self.registry.cancel_all();
                        let reply_topic = get_individual_send_topic(
                            settings.cancel_topic.as_str(),
                            base.pi_zero_id.as_str(),
                        );
                        LoopAction::Cancelled { count, topic: reply_topic, reply: SuccessWrapper::success(count) }
                    },
                    Route::Handle(family) => match self.registry.register() {
                        Some(task) => LoopAction::Spawn { family, task },
                        None => LoopAction::Nothing,
                    },
                    Route::Ignore => LoopAction::Nothing,
                };
                self.state = LoopState::Polling;
                action
            },
        }
    }
}

} // verus!
