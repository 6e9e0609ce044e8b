use crate::channel::{ChannelView, Error, StateChannel};
use crate::queue::QueuedPacket;
use vstd::prelude::*;

verus! {

/// The final acceptance rule of a reconciliation.
pub enum AcceptRule {
    /// A banner announces a channel: every valid channel is accepted.
    Any,
    /// A purchase: where a channel is trusted, the validator confirms the purchase
    /// against it and against the packet that was dequeued for it.
    Purchase { packet: Option<QueuedPacket> },
}

/// Where a reconciliation stands; each stage but the last names the outside work
/// that the driver performs next and reports back as an `Event`.
pub enum Stage {
    /// Look up the trusted channel stored for `incoming.id` (answer: `Found`).
    Lookup { incoming: StateChannel },
    /// Merge `incoming` into the trusted channel of the same id (answer: `Built`).
    Merging { known: StateChannel, incoming: StateChannel },
    /// Build a fresh channel record from `incoming` (answer: `Built`).
    Building { known: Option<StateChannel>, incoming: StateChannel },
    /// Check `candidate`: valid for this client where `known` is `None`, a valid
    /// replacement of `known` otherwise (answer: `Verdict`).
    Checking { known: Option<StateChannel>, candidate: StateChannel },
    /// Apply the acceptance rule to `candidate` against `known` (answer: `Verdict`).
    Accepting { known: StateChannel, candidate: StateChannel },
    /// Overwrite the trusted record with `candidate` (answer: `Written`).
    Storing { candidate: StateChannel },
    /// Append `candidate` to the log of rejected channels (answer: `Written`).
    Appending { candidate: StateChannel, error: Error },
    /// Done: the trusted channel, or why there is none.
    Finished { result: Result<StateChannel, Error> },
}

/// The outcome of the outside work that a stage asked for.
pub enum Event {
    Found(Result<Option<StateChannel>, Error>),
    Built(Result<StateChannel, Error>),
    Verdict(Result<(), Error>),
    Written(Result<(), Error>),
}

/// One reconciliation of an incoming state channel against the store.
pub struct Reconciliation {
    rule: AcceptRule,
    stage: Stage,
}

/// What follows a reconciliation that ended with a trusted channel.
pub enum FollowUp {
    Nothing,
    /// Offer the waiting packets, see `RouterClient::next_offer`.
    SendOffers,
    /// Send the packet message for the purchased packet.
    SendPacket(QueuedPacket),
}

/// The stage that follows a candidate that passed its checks.
pub open spec fn accept_stage(
    rule: AcceptRule,
    known: Option<StateChannel>,
    candidate: StateChannel,
) -> Stage {
    match rule {
        AcceptRule::Any => Stage::Storing { candidate },
        AcceptRule::Purchase { .. } => match known {
            Some(k) => Stage::Accepting { known: k, candidate },
            None => Stage::Storing { candidate },
        },
    }
}

/// The first stage for an incoming channel, or the end where there is none.
pub open spec fn start_stage(incoming: Option<StateChannel>) -> Stage {
    match incoming {
        Some(c) => Stage::Lookup { incoming: c },
        None => Stage::Finished { result: Err(Error::ChannelNotFound) },
    }
}

/// The stage after `event` answers `stage`. An event that does not answer the
/// stage changes nothing.
pub open spec fn next_stage(rule: AcceptRule, stage: Stage, event: Event) -> Stage {
    match stage {
        Stage::Lookup { incoming } => match event {
            Event::Found(Ok(Some(known))) => if known.id@ == incoming.id@ {
                Stage::Merging { known, incoming }
            } else {
                Stage::Building { known: Some(known), incoming }
            },
            Event::Found(Ok(None)) => Stage::Building { known: None, incoming },
            Event::Found(Err(e)) => Stage::Finished { result: Err(e) },
            _ => stage,
        },
        Stage::Merging { known, incoming } => match event {
            Event::Built(Ok(merged)) => accept_stage(rule, Some(known), merged),
            Event::Built(Err(e)) => Stage::Finished { result: Err(e) },
            _ => stage,
        },
        Stage::Building { known, incoming } => match event {
            Event::Built(Ok(candidate)) => Stage::Checking { known, candidate },
            Event::Built(Err(e)) => Stage::Finished { result: Err(e) },
            _ => stage,
        },
        Stage::Checking { known, candidate } => match event {
            Event::Verdict(Ok(_)) => accept_stage(rule, known, candidate),
            Event::Verdict(Err(e)) => if e == Error::InvalidChannel {
                Stage::Appending { candidate, error: e }
            } else {
                Stage::Finished { result: Err(e) }
            },
            _ => stage,
        },
        Stage::Accepting { known, candidate } => match event {
            Event::Verdict(Ok(_)) => Stage::Storing { candidate },
            Event::Verdict(Err(e)) => Stage::Finished { result: Err(e) },
            _ => stage,
        },
        Stage::Storing { candidate } => match event {
            Event::Written(Ok(_)) => Stage::Finished { result: Ok(candidate) },
            Event::Written(Err(e)) => Stage::Finished { result: Err(e) },
            _ => stage,
        },
        Stage::Appending { candidate, error } => match event {
            Event::Written(Ok(_)) => Stage::Finished { result: Err(error) },
            Event::Written(Err(e)) => Stage::Finished { result: Err(e) },
            _ => stage,
        },
        Stage::Finished { .. } => stage,
    }
}

fn accept(rule: &AcceptRule, known: Option<StateChannel>, candidate: StateChannel) -> (r: Stage)
    ensures
        r == accept_stage(*rule, known, candidate),
{
    match rule {
        AcceptRule::Any => Stage::Storing { candidate },
        AcceptRule::Purchase { .. } => match known {
            Some(k) => Stage::Accepting { known: k, candidate },
            None => Stage::Storing { candidate },
        },
    }
}

impl Reconciliation {
    /// The acceptance rule this reconciliation runs under.
    pub closed spec fn rule_spec(&self) -> AcceptRule {
        self.rule
    }

    /// The stage this reconciliation stands at.
    pub closed spec fn stage_spec(&self) -> Stage {
        self.stage
    }

    pub fn rule(&self) -> (r: &AcceptRule)
        ensures
            *r == self.rule_spec(),
    {
        &self.rule
    }

    pub fn stage(&self) -> (r: &Stage)
        ensures
            *r == self.stage_spec(),
    {
        &self.stage
    }

    /// The end of a finished reconciliation: its error, or what the driver does next.
    pub fn conclude(self) -> (r: Result<FollowUp, Error>)
        requires
            self.stage_spec() is Finished,
        ensures
            self.stage_spec()->result is Err ==> r == Err::<FollowUp, Error>(
                self.stage_spec()->result->Err_0,
            ),
            self.stage_spec()->result is Ok ==> r is Ok && match self.rule_spec() {
                AcceptRule::Any => r->Ok_0 is SendOffers,
                AcceptRule::Purchase { packet } => match packet {
                    Some(p) => r->Ok_0 is SendPacket && r->Ok_0->SendPacket_0 == p,
                    None => r->Ok_0 is Nothing,
                },
            },
    {
        let Reconciliation { rule, stage } = self;
        match stage {
            Stage::Finished { result } => match result {
                Err(e) => Err(e),
                Ok(_) => match rule {
                    AcceptRule::Any => Ok(FollowUp::SendOffers),
                    AcceptRule::Purchase { packet } => match packet {
                        Some(p) => Ok(FollowUp::SendPacket(p)),
                        None => Ok(FollowUp::Nothing),
                    },
                },
            },
            _ => Err(Error::Transport),
        }
    }

    /// Begins reconciling `incoming` under `rule`.
    pub fn start(rule: AcceptRule, incoming: Option<StateChannel>) -> (r: Reconciliation)
        ensures
            r.rule_spec() == rule,
            r.stage_spec() == start_stage(incoming),
    {
        let stage = match incoming {
            Some(c) => Stage::Lookup { incoming: c },
            None => Stage::Finished { result: Err(Error::ChannelNotFound) },
        };
        Reconciliation { rule, stage }
    }

    pub fn is_finished(&self) -> (r: bool)
        ensures
            r == (self.stage_spec() is Finished),
    {
        match self.stage {
            Stage::Finished { .. } => true,
            _ => false,
        }
    }

    /// Takes the answer to the current stage and moves to the next one.
    pub fn advance(self, event: Event) -> (r: Reconciliation)
        ensures
            r.rule_spec() == self.rule_spec(),
            r.stage_spec() == next_stage(self.rule_spec(), self.stage_spec(), event),
    {
        let Reconciliation { rule, stage } = self;
        let next = match stage {
            Stage::Lookup { incoming } => match event {
                Event::Found(Ok(Some(known))) => if known.same_id(&incoming) {
                    Stage::Merging { known, incoming }
                } else {
                    Stage::Building { known: Some(known), incoming }
                },
                Event::Found(Ok(None)) => Stage::Building { known: None, incoming },
                Event::Found(Err(e)) => Stage::Finished { result: Err(e) },
                _ => Stage::Lookup { incoming },
            },
            Stage::Merging { known, incoming } => match event {
                Event::Built(Ok(merged)) => accept(&rule, Some(known), merged),
                Event::Built(Err(e)) => Stage::Finished { result: Err(e) },
                _ => Stage::Merging { known, incoming },
            },
            Stage::Building { known, incoming } => match event {
                Event::Built(Ok(candidate)) => Stage::Checking { known, candidate },
                Event::Built(Err(e)) => Stage::Finished { result: Err(e) },
                _ => Stage::Building { known, incoming },
            },
            Stage::Checking { known, candidate } => match event {
                Event::Verdict(Ok(_)) => accept(&rule, known, candidate),
                Event::Verdict(Err(e)) => if e == Error::InvalidChannel {
                    Stage::Appending { candidate, error: e }
                } else {
                    Stage::Finished { result: Err(e) }
                },
                _ => Stage::Checking { known, candidate },
            },
            Stage::Accepting { known, candidate } => match event {
                Event::Verdict(Ok(_)) => Stage::Storing { candidate },
                Event::Verdict(Err(e)) => Stage::Finished { result: Err(e) },
                _ => Stage::Accepting { known, candidate },
            },
            Stage::Storing { candidate } => match event {
                Event::Written(Ok(_)) => Stage::Finished { result: Ok(candidate) },
                Event::Written(Err(e)) => Stage::Finished { result: Err(e) },
                _ => Stage::Storing { candidate },
            },
            Stage::Appending { candidate, error } => match event {
                Event::Written(Ok(_)) => Stage::Finished { result: Err(error) },
                Event::Written(Err(e)) => Stage::Finished { result: Err(e) },
                _ => Stage::Appending { candidate, error },
            },
            Stage::Finished { result } => Stage::Finished { result },
        };
        Reconciliation { rule, stage: next }
    }
}

/// What the store holds: the trusted channel of each id, and the log of
/// channels that were seen but failed their validity check.
pub struct StoreModel {
    pub trusted: Map<Seq<u8>, ChannelView>,
    pub log: Seq<ChannelView>,
}

/// What the driver's write for `stage` does to the store, where `event` reports it done.
pub open spec fn write_effect(stage: Stage, event: Event, s: StoreModel) -> StoreModel {
    match stage {
        Stage::Storing { candidate } => match event {
            Event::Written(Ok(_)) => StoreModel {
                trusted: s.trusted.insert(candidate.id@, candidate@),
                log: s.log,
            },
            _ => s,
        },
        Stage::Appending { candidate, .. } => match event {
            Event::Written(Ok(_)) => StoreModel { trusted: s.trusted, log: s.log.push(candidate@) },
            _ => s,
        },
        _ => s,
    }
}

/// The store after a reconciliation at `stage` takes `events` in order.
pub open spec fn run_effects(rule: AcceptRule, stage: Stage, events: Seq<Event>, s: StoreModel) -> StoreModel
    decreases events.len(),
{
    if events.len() == 0 {
        s
    } else {
        run_effects(
            rule,
            next_stage(rule, stage, events[0]),
            events.drop_first(),
            write_effect(stage, events[0], s),
        )
    }
}

/// A finished reconciliation writes nothing more, whatever events follow.
pub proof fn lemma_finished_writes_nothing(
    rule: AcceptRule,
    stage: Stage,
    events: Seq<Event>,
    s: StoreModel,
)
    requires
        stage is Finished,
    ensures
        run_effects(rule, stage, events, s) == s,
    decreases events.len(),
{
    if events.len() > 0 {
        lemma_finished_writes_nothing(rule, stage, events.drop_first(), s);
    }
}

/// Whether, in a run from `stage` over `events`, the acceptance rule is asked
/// and refuses.
pub open spec fn refused(rule: AcceptRule, stage: Stage, events: Seq<Event>) -> bool
    decreases events.len(),
{
    if events.len() == 0 {
        false
    } else if stage is Accepting && events[0] is Verdict && events[0]->Verdict_0 is Err {
        true
    } else {
        refused(rule, next_stage(rule, stage, events[0]), events.drop_first())
    }
}

/// A stage that writes, or that is done, never leads to the acceptance rule.
proof fn lemma_no_refusal_after_writing(rule: AcceptRule, stage: Stage, events: Seq<Event>)
    requires
        stage is Storing || stage is Appending || stage is Finished,
    ensures
        !refused(rule, stage, events),
    decreases events.len(),
{
    if events.len() > 0 {
        lemma_no_refusal_after_writing(rule, next_stage(rule, stage, events[0]), events.drop_first());
    }
}

/// Before any write, a run in which the acceptance rule refuses writes nothing.
proof fn lemma_refused_run_writes_nothing(
    rule: AcceptRule,
    stage: Stage,
    events: Seq<Event>,
    s: StoreModel,
)
    requires
        !(stage is Storing || stage is Appending),
        refused(rule, stage, events),
    ensures
        run_effects(rule, stage, events, s) == s,
    decreases events.len(),
{
    if stage is Finished {
        lemma_no_refusal_after_writing(rule, stage, events);
    } else {
        let next = next_stage(rule, stage, events[0]);
        assert(write_effect(stage, events[0], s) == s);
        if stage is Accepting && events[0] is Verdict && events[0]->Verdict_0 is Err {
            lemma_finished_writes_nothing(rule, next, events.drop_first(), s);
        } else if next is Storing || next is Appending {
            lemma_no_refusal_after_writing(rule, next, events.drop_first());
        } else {
            lemma_refused_run_writes_nothing(rule, next, events.drop_first(), s);
        }
    }
}

/// A reconciliation whose acceptance rule refuses the candidate leaves the store
/// exactly as it was, for every incoming channel and every sequence of events.
pub proof fn lemma_refusal_never_persists(
    rule: AcceptRule,
    incoming: Option<StateChannel>,
    events: Seq<Event>,
    s: StoreModel,
)
    requires
        refused(rule, start_stage(incoming), events),
    ensures
        run_effects(rule, start_stage(incoming), events, s) == s,
{
    lemma_refused_run_writes_nothing(rule, start_stage(incoming), events, s);
}

/// Once the acceptance rule refuses, the reconciliation ends with that error.
pub proof fn lemma_refusal_ends_with_its_error(rule: AcceptRule, stage: Stage, refusal: Error)
    requires
        stage is Accepting,
    ensures
        next_stage(rule, stage, Event::Verdict(Err(refusal))) == (Stage::Finished {
            result: Err(refusal),
        }),
{
}

/// A candidate that fails its validity check is appended to the log at most
/// once, and exactly once where the driver's next report is a done append; the
/// trusted records stay as they were.
pub proof fn lemma_invalid_channel_is_logged(
    rule: AcceptRule,
    known: Option<StateChannel>,
    candidate: StateChannel,
    events: Seq<Event>,
    s: StoreModel,
)
    ensures
        ({
            let checking = Stage::Checking { known, candidate };
            let all = seq![Event::Verdict(Err(Error::InvalidChannel))] + events;
            let after = run_effects(rule, checking, all, s);
            &&& after.trusted == s.trusted
            &&& after.log == s.log || after.log == s.log.push(candidate@)
            &&& events.len() > 0 && events[0] == Event::Written(Ok(())) ==> after.log == s.log.push(
                candidate@,
            )
        }),
{
    let checking = Stage::Checking { known, candidate };
    let all = seq![Event::Verdict(Err(Error::InvalidChannel))] + events;
    assert(all[0] == Event::Verdict(Err(Error::InvalidChannel)));
    assert(all.drop_first() =~= events);
    let appending = Stage::Appending { candidate, error: Error::InvalidChannel };
    assert(next_stage(rule, checking, all[0]) == appending);
    assert(run_effects(rule, checking, all, s) == run_effects(rule, appending, events, s));
    lemma_appending_writes_at_most_once(rule, candidate, events, s);
    if events.len() > 0 && events[0] == Event::Written(Ok(())) {
        let next = next_stage(rule, appending, events[0]);
        let s2 = write_effect(appending, events[0], s);
        lemma_finished_writes_nothing(rule, next, events.drop_first(), s2);
    }
}

/// An append that waits for its answer writes the candidate to the log at most once.
proof fn lemma_appending_writes_at_most_once(
    rule: AcceptRule,
    candidate: StateChannel,
    events: Seq<Event>,
    s: StoreModel,
)
    ensures
        ({
            let after = run_effects(
                rule,
                Stage::Appending { candidate, error: Error::InvalidChannel },
                events,
                s,
            );
            &&& after.trusted == s.trusted
            &&& after.log == s.log || after.log == s.log.push(candidate@)
        }),
    decreases events.len(),
{
    let appending = Stage::Appending { candidate, error: Error::InvalidChannel };
    if events.len() > 0 {
        let next = next_stage(rule, appending, events[0]);
        let s2 = write_effect(appending, events[0], s);
        match events[0] {
            Event::Written(_) => {
                lemma_finished_writes_nothing(rule, next, events.drop_first(), s2);
            },
            _ => {
                lemma_appending_writes_at_most_once(rule, candidate, events.drop_first(), s);
            },
        }
    }
}

} // verus!
