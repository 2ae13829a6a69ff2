//! The service supervisor: which services run, what becomes of each when it
//! ends, and when the whole run is over.
//!
//! The supervisor decides; its host acts. For each slot the host does what
//! the slot's [`SlotAction`] says (it constructs the service, or runs it, or
//! emits a failure report), tells the supervisor what came of it as a
//! [`SlotEvent`], and gets the next action.

use super::Error;
use vstd::prelude::*;
use vstd::string::*;

verus! {

/// What becomes of a slot whose service has ended.
#[derive(Debug, Clone, Copy, PartialEq, Eq, Structural)]
pub enum RestartPolicy {
    /// The service is constructed and run again, however it ended, and
    /// nothing is reported.
    Forever,
    /// The service is constructed and run again while it ends without a
    /// failure; its first failure is reported and ends the slot.
    UntilFailure,
}

/// Where a slot stands.
#[derive(Debug, Clone, Copy, PartialEq, Eq, Structural)]
pub enum SlotPhase {
    /// The service is being constructed.
    Constructing,
    /// The service runs.
    Running,
    /// The service ended with a failure.
    Crashed,
    /// The service ended without a failure.
    Completed,
    /// The failure of the service has been reported.
    Reported,
    /// The slot has ended: its service will not run again.
    Terminated,
}

/// The record of a failure that ends a slot.
#[derive(Debug, Clone, PartialEq, Eq)]
pub struct FailureReport {
    /// The service that failed.
    pub service: String,
    /// What the service said of its failure.
    pub description: String,
}

/// What the host reports of a slot.
#[derive(Debug, PartialEq, Eq)]
pub enum SlotEvent {
    /// The service has been constructed.
    Constructed,
    /// The service has ended, with this result.
    Finished(Result<(), Error>),
}

/// What the host is to do next for a slot.
#[derive(Debug, Clone, PartialEq, Eq)]
pub enum SlotAction {
    /// Construct the service from a duplicate of the context, and report
    /// [`SlotEvent::Constructed`].
    Construct,
    /// Run the service until it ends, and report [`SlotEvent::Finished`].
    Run,
    /// Emit this record; the slot has ended.
    Report(FailureReport),
    /// Nothing is left to do: the slot has ended.
    Stop,
}

/// One arrow of a slot's state machine: a slot under `policy` can pass from
/// `from` to `to` without passing through any other phase.
pub open spec fn arrow(policy: RestartPolicy, from: SlotPhase, to: SlotPhase) -> bool {
    match (from, to) {
        (SlotPhase::Constructing, SlotPhase::Running) => true,
        (SlotPhase::Running, SlotPhase::Crashed) => true,
        (SlotPhase::Running, SlotPhase::Completed) => true,
        (SlotPhase::Completed, SlotPhase::Constructing) => true,
        (SlotPhase::Crashed, SlotPhase::Constructing) => policy == RestartPolicy::Forever,
        (SlotPhase::Crashed, SlotPhase::Reported) => policy == RestartPolicy::UntilFailure,
        (SlotPhase::Reported, SlotPhase::Terminated) => policy == RestartPolicy::UntilFailure,
        _ => false,
    }
}

/// A phase in which a slot waits for its host.
pub open spec fn resting(phase: SlotPhase) -> bool {
    phase == SlotPhase::Constructing || phase == SlotPhase::Running || phase
        == SlotPhase::Terminated
}

/// The phases that a slot under `policy` passes through, in order, when
/// `event` is reported of it in phase `from`. There are none where the event
/// does not answer the phase.
pub open spec fn passage(policy: RestartPolicy, from: SlotPhase, event: SlotEvent) -> Seq<
    SlotPhase,
> {
    match (from, event) {
        (SlotPhase::Constructing, SlotEvent::Constructed) => seq![SlotPhase::Running],
        (SlotPhase::Running, SlotEvent::Finished(Ok(_))) => seq![
            SlotPhase::Completed,
            SlotPhase::Constructing,
        ],
        (SlotPhase::Running, SlotEvent::Finished(Err(_))) => match policy {
            RestartPolicy::Forever => seq![SlotPhase::Crashed, SlotPhase::Constructing],
            RestartPolicy::UntilFailure => seq![
                SlotPhase::Crashed,
                SlotPhase::Reported,
                SlotPhase::Terminated,
            ],
        },
        _ => Seq::empty(),
    }
}

/// The phase in which a slot comes to rest when `event` is reported of it in
/// phase `from`.
pub open spec fn next_phase(policy: RestartPolicy, from: SlotPhase, event: SlotEvent)
    -> SlotPhase {
    let passed = passage(policy, from, event);
    if passed.len() == 0 {
        from
    } else {
        passed.last()
    }
}

/// Whether the slot's failure is reported when `event` is reported of it in
/// phase `from`.
pub open spec fn reports_failure(policy: RestartPolicy, from: SlotPhase, event: SlotEvent)
    -> bool {
    passage(policy, from, event).contains(SlotPhase::Reported)
}

/// Whether the service is to be constructed again when `event` is reported
/// of the slot in phase `from`.
pub open spec fn constructs_again(policy: RestartPolicy, from: SlotPhase, event: SlotEvent)
    -> bool {
    passage(policy, from, event).contains(SlotPhase::Constructing)
}

/// What the service said of its failure, where `event` reports that it ended
/// with one.
pub open spec fn failure_of(event: SlotEvent) -> Seq<char> {
    match event {
        SlotEvent::Finished(Err(failure)) => failure@,
        _ => Seq::empty(),
    }
}

/// A slot as contracts see it: the service, the policy, and the phase.
pub struct SlotView {
    pub service: Seq<char>,
    pub policy: RestartPolicy,
    pub phase: SlotPhase,
}

/// One supervised service: which it is, what becomes of it when it ends, and
/// where it stands.
#[derive(Debug, PartialEq, Eq)]
pub struct ServiceSlot {
    service: String,
    policy: RestartPolicy,
    phase: SlotPhase,
}

impl View for ServiceSlot {
    type V = SlotView;

    closed spec fn view(&self) -> SlotView {
        SlotView { service: self.service@, policy: self.policy, phase: self.phase }
    }
}

impl ServiceSlot {
    #[verifier::type_invariant]
    spec fn at_rest(&self) -> bool {
        resting(self.phase)
    }

    /// A slot for `service` under `policy`, about to construct the service.
    pub fn new(service: &str, policy: RestartPolicy) -> (slot: ServiceSlot)
        ensures
            slot@ == (SlotView { service: service@, policy, phase: SlotPhase::Constructing }),
    {
        ServiceSlot { service: String::from_str(service), policy, phase: SlotPhase::Constructing }
    }

    /// The service of the slot.
    pub fn service(&self) -> (name: &str)
        ensures
            name@ == self@.service,
    {
        self.service.as_str()
    }

    /// What becomes of the slot when its service ends.
    pub fn policy(&self) -> (policy: RestartPolicy)
        ensures
            policy == self@.policy,
    {
        self.policy
    }

    /// Where the slot stands: it is at rest.
    pub fn phase(&self) -> (phase: SlotPhase)
        ensures
            phase == self@.phase,
            resting(phase),
    {
        proof {
            use_type_invariant(self);
        }
        self.phase
    }

    /// Whether the slot has ended.
    pub fn is_terminated(&self) -> (ended: bool)
        ensures
            ended == (self@.phase == SlotPhase::Terminated),
    {
        match self.phase {
            SlotPhase::Terminated => true,
            _ => false,
        }
    }

    /// What the host is to do for the slot as it stands. The slot is at
    /// rest, so these are all the cases.
    pub fn pending(&self) -> (action: SlotAction)
        ensures
            resting(self@.phase),
            self@.phase == SlotPhase::Constructing ==> action == SlotAction::Construct,
            self@.phase == SlotPhase::Running ==> action == SlotAction::Run,
            self@.phase == SlotPhase::Terminated ==> action == SlotAction::Stop,
    {
        proof {
            use_type_invariant(self);
        }
        match self.phase {
            SlotPhase::Constructing => SlotAction::Construct,
            SlotPhase::Running => SlotAction::Run,
            _ => SlotAction::Stop,
        }
    }

    /// Takes in what the host reports of the slot, moves the slot to the
    /// phase in which it comes to rest, and says what the host is to do next.
    ///
    /// The action is [`SlotAction::Report`], with the service of the slot and
    /// the description of the failure, exactly where the slot passes through
    /// [`SlotPhase::Reported`]; anywhere else it is the action of the phase
    /// that the slot comes to rest in.
    pub fn advance(&mut self, event: SlotEvent) -> (action: SlotAction)
        ensures
            final(self)@ == (SlotView {
                phase: next_phase(old(self)@.policy, old(self)@.phase, event),
                ..old(self)@
            }),
            resting(old(self)@.phase),
            reports_failure(old(self)@.policy, old(self)@.phase, event) <==> action is Report,
            action matches SlotAction::Report(report) ==> report.service@ == old(self)@.service
                && report.description@ == failure_of(event),
            action is Construct <==> final(self)@.phase == SlotPhase::Constructing,
            action is Run <==> final(self)@.phase == SlotPhase::Running,
    {
        proof {
            use_type_invariant(&*self);
        }
        match self.phase {
            SlotPhase::Constructing => match event {
                SlotEvent::Constructed => {
                    self.phase = SlotPhase::Running;
                    SlotAction::Run
                },
                SlotEvent::Finished(_) => SlotAction::Construct,
            },
            SlotPhase::Running => match event {
                SlotEvent::Constructed => SlotAction::Run,
                SlotEvent::Finished(Ok(_)) => {
                    self.phase = SlotPhase::Constructing;
                    SlotAction::Construct
                },
                SlotEvent::Finished(Err(failure)) => match self.policy {
                    RestartPolicy::Forever => {
                        self.phase = SlotPhase::Constructing;
                        SlotAction::Construct
                    },
                    RestartPolicy::UntilFailure => {
                        self.phase = SlotPhase::Terminated;
                        SlotAction::Report(
                            FailureReport {
                                service: self.service.clone(),
                                description: failure.message(),
                            },
                        )
                    },
                },
            },
            _ => SlotAction::Stop,
        }
    }
}

/// Whether one of the slots has ended.
pub open spec fn some_slot_ended(slots: Seq<SlotView>) -> bool {
    exists|i: int| 0 <= i < slots.len() && (#[trigger] slots[i]).phase == SlotPhase::Terminated
}

/// What waiting for the slots comes to: nothing yet, while there are slots
/// and none has ended; a run that is over without a failure, where there is
/// no slot at all; and a fatal outcome as soon as one slot has ended.
pub open spec fn wait_outcome(slots: Seq<SlotView>) -> Option<Result<(), Seq<char>>> {
    if slots.len() == 0 {
        Some(Ok(()))
    } else if some_slot_ended(slots) {
        Some(Err("Internal Service Error"@))
    } else {
        None
    }
}

/// The slots once `event` has been reported of the slot with index `slot`:
/// that slot has moved to the phase in which it comes to rest, and the
/// others are as they were. Where there is no such slot, all are as they
/// were.
pub open spec fn slots_after_report(slots: Seq<SlotView>, slot: int, event: SlotEvent) -> Seq<
    SlotView,
> {
    if 0 <= slot < slots.len() {
        slots.update(
            slot,
            SlotView {
                phase: next_phase(slots[slot].policy, slots[slot].phase, event),
                ..slots[slot]
            },
        )
    } else {
        slots
    }
}

/// The slots once each of `reports`, an index of a slot with what is
/// reported of it, has been taken in, in order.
pub open spec fn slots_after(slots: Seq<SlotView>, reports: Seq<(int, SlotEvent)>) -> Seq<
    SlotView,
>
    decreases reports.len(),
{
    if reports.len() == 0 {
        slots
    } else {
        slots_after(slots_after_report(slots, reports[0].0, reports[0].1), reports.skip(1))
    }
}

/// The supervisor: the context that every service is constructed from, and
/// one slot for each service it was asked to run.
pub struct ServiceManager<C> {
    context: C,
    services: Vec<ServiceSlot>,
}

impl<C> ServiceManager<C> {
    /// The slots, in the order in which they were spawned.
    pub closed spec fn slots(&self) -> Seq<SlotView> {
        Seq::new(self.services.len() as nat, |i: int| self.services[i]@)
    }

    /// The context that the services are constructed from.
    pub closed spec fn shared(&self) -> C {
        self.context
    }

    /// A supervisor of no service yet.
    pub fn new(context: C) -> (manager: Self)
        ensures
            manager.slots() == Seq::<SlotView>::empty(),
            manager.shared() == context,
    {
        let manager = ServiceManager { context, services: Vec::new() };
        manager
    }

    /// The context, for the host to duplicate for each construction.
    pub fn context(&self) -> (context: &C)
        ensures
            *context == self.shared(),
    {
        &self.context
    }

    /// The number of slots.
    pub fn len(&self) -> (count: usize)
        ensures
            count == self.slots().len(),
    {
        self.services.len()
    }

    /// Adds a slot for `service` under `policy`, and returns its index.
    fn add(&mut self, service: &str, policy: RestartPolicy) -> (slot: usize)
        ensures
            slot == old(self).slots().len(),
            final(self).slots() == old(self).slots().push(
                (SlotView { service: service@, policy, phase: SlotPhase::Constructing }),
            ),
            final(self).shared() == old(self).shared(),
    {
        let slot = self.services.len();
        self.services.push(ServiceSlot::new(service, policy));
        slot
    }

    /// Adds a slot for `service` under [`RestartPolicy::Forever`], and
    /// returns its index. The slot begins by constructing the service.
    pub fn spawn(&mut self, service: &str) -> (slot: usize)
        ensures
            slot == old(self).slots().len(),
            final(self).slots() == old(self).slots().push(
                (SlotView {
                    service: service@,
                    policy: RestartPolicy::Forever,
                    phase: SlotPhase::Constructing,
                }),
            ),
            final(self).shared() == old(self).shared(),
    {
        self.add(service, RestartPolicy::Forever)
    }

    /// Adds a slot for `service` under [`RestartPolicy::UntilFailure`], and
    /// returns its index. The slot begins by constructing the service.
    pub fn spawn_with_error_receiver(&mut self, service: &str) -> (slot: usize)
        ensures
            slot == old(self).slots().len(),
            final(self).slots() == old(self).slots().push(
                (SlotView {
                    service: service@,
                    policy: RestartPolicy::UntilFailure,
                    phase: SlotPhase::Constructing,
                }),
            ),
            final(self).shared() == old(self).shared(),
    {
        self.add(service, RestartPolicy::UntilFailure)
    }

    /// What the host is to do for the slot with index `slot` as it stands;
    /// [`SlotAction::Stop`] where there is no such slot. A slot is at rest,
    /// so these are all the cases.
    pub fn pending(&self, slot: usize) -> (action: SlotAction)
        ensures
            slot >= self.slots().len() ==> action == SlotAction::Stop,
            slot < self.slots().len() ==> {
                let phase = self.slots()[slot as int].phase;
                &&& resting(phase)
                &&& phase == SlotPhase::Constructing ==> action == SlotAction::Construct
                &&& phase == SlotPhase::Running ==> action == SlotAction::Run
                &&& phase == SlotPhase::Terminated ==> action == SlotAction::Stop
            },
    {
        if slot < self.services.len() {
            self.services[slot].pending()
        } else {
            SlotAction::Stop
        }
    }

    /// Takes in what the host reports of the slot with index `slot`, as
    /// [`ServiceSlot::advance`] does for that slot; the other slots stay as
    /// they are. Where there is no such slot, nothing changes and the action
    /// is [`SlotAction::Stop`].
    pub fn advance(&mut self, slot: usize, event: SlotEvent) -> (action: SlotAction)
        ensures
            final(self).shared() == old(self).shared(),
            slot >= old(self).slots().len() ==> final(self).slots() == old(self).slots()
                && action == SlotAction::Stop,
            slot < old(self).slots().len() ==> {
                let before = old(self).slots()[slot as int];
                &&& resting(before.phase)
                &&& final(self).slots() == slots_after_report(old(self).slots(), slot as int, event)
                &&& reports_failure(before.policy, before.phase, event) <==> action is Report
                &&& action matches SlotAction::Report(report) ==> report.service@
                    == before.service && report.description@ == failure_of(event)
                &&& action is Construct <==> next_phase(before.policy, before.phase, event)
                    == SlotPhase::Constructing
                &&& action is Run <==> next_phase(before.policy, before.phase, event)
                    == SlotPhase::Running
            },
    {
        if slot < self.services.len() {
            let action = self.services[slot].advance(event);
            action
        } else {
            SlotAction::Stop
        }
    }

    /// Tells whether the run is over: `None` while it goes on, and the
    /// outcome of the run once it is over.
    pub fn wait(&self) -> (outcome: Option<Result<(), Error>>)
        ensures
            match wait_outcome(self.slots()) {
                None => outcome is None,
                Some(Ok(_)) => outcome == Some(Ok::<(), Error>(())),
                Some(Err(text)) => outcome matches Some(Err(failure)) && failure@ == text,
            },
    {
        if self.services.len() == 0 {
            return Some(Ok(()));
        }
        let mut i: usize = 0;
        while i < self.services.len()
            invariant
                i <= self.services.len(),
                forall|j: int| 0 <= j < i ==> (#[trigger] self.slots()[j]).phase
                    != SlotPhase::Terminated,
            decreases self.services.len() - i,
        {
            if self.services[i].is_terminated() {
                assert(self.slots()[i as int].phase == SlotPhase::Terminated);
                return Some(Err(Error::new("Internal Service Error")));
            }
            i = i + 1;
        }
        None
    }
}

/// The phase in which a slot under `policy` rests after the host has
/// reported `events` of it, in order, from phase `phase` on.
pub open spec fn phase_after(policy: RestartPolicy, phase: SlotPhase, events: Seq<SlotEvent>)
    -> SlotPhase
    decreases events.len(),
{
    if events.len() == 0 {
        phase
    } else {
        phase_after(policy, next_phase(policy, phase, events[0]), events.skip(1))
    }
}

/// How often the failure of a slot under `policy` is reported while the
/// host reports `events` of it, in order, from phase `phase` on.
pub open spec fn reports_during(
    policy: RestartPolicy,
    phase: SlotPhase,
    events: Seq<SlotEvent>,
) -> nat
    decreases events.len(),
{
    if events.len() == 0 {
        0
    } else {
        let now: nat = if reports_failure(policy, phase, events[0]) {
            1
        } else {
            0
        };
        now + reports_during(policy, next_phase(policy, phase, events[0]), events.skip(1))
    }
}

/// How often the service of a slot under `policy` is to be constructed
/// again while the host reports `events` of it, in order, from phase
/// `phase` on.
pub open spec fn reconstructions_during(
    policy: RestartPolicy,
    phase: SlotPhase,
    events: Seq<SlotEvent>,
) -> nat
    decreases events.len(),
{
    if events.len() == 0 {
        0
    } else {
        let now: nat = if constructs_again(policy, phase, events[0]) {
            1
        } else {
            0
        };
        now + reconstructions_during(
            policy,
            next_phase(policy, phase, events[0]),
            events.skip(1),
        )
    }
}

/// How often the host of a new slot under `policy` is told to construct the
/// service while it reports `events`: once as the slot begins, and once more
/// each time the service is to be constructed again.
pub open spec fn constructions(policy: RestartPolicy, events: Seq<SlotEvent>) -> nat {
    1 + reconstructions_during(policy, SlotPhase::Constructing, events)
}

/// What the host reports of a service that is constructed and then ends
/// with a failure, once for each of `failures`, in order.
pub open spec fn crashes(failures: Seq<Error>) -> Seq<SlotEvent>
    decreases failures.len(),
{
    if failures.len() == 0 {
        Seq::empty()
    } else {
        seq![SlotEvent::Constructed, SlotEvent::Finished(Err(failures[0]))] + crashes(
            failures.skip(1),
        )
    }
}

/// What the host reports of a service that is constructed and then ends
/// without a failure, `times` times.
pub open spec fn completions(times: nat) -> Seq<SlotEvent>
    decreases times,
{
    if times == 0 {
        Seq::empty()
    } else {
        seq![SlotEvent::Constructed, SlotEvent::Finished(Ok(()))] + completions(
            (times - 1) as nat,
        )
    }
}

/// Whatever is reported of a slot, the slot moves along the arrows of its
/// state machine: from the phase it rested in to the first phase it passes
/// through, and from each of those to the next.
pub proof fn law_slots_follow_the_arrows(policy: RestartPolicy, from: SlotPhase, event: SlotEvent)
    ensures
        ({
            let passed = passage(policy, from, event);
            &&& passed.len() > 0 ==> arrow(policy, from, passed[0]) && resting(passed.last())
            &&& forall|i: int|
                0 < i < passed.len() ==> arrow(policy, #[trigger] passed[i - 1], passed[i])
        }),
{
}

/// Unfolds the first two of a sequence of events.
proof fn lemma_two_events(
    policy: RestartPolicy,
    phase: SlotPhase,
    first: SlotEvent,
    second: SlotEvent,
    later: Seq<SlotEvent>,
)
    ensures
        ({
            let events = seq![first, second] + later;
            let middle = next_phase(policy, phase, first);
            let after = next_phase(policy, middle, second);
            let reported: nat = if reports_failure(policy, phase, first) {
                1
            } else {
                0
            };
            let reported_next: nat = if reports_failure(policy, middle, second) {
                1
            } else {
                0
            };
            let built: nat = if constructs_again(policy, phase, first) {
                1
            } else {
                0
            };
            let built_next: nat = if constructs_again(policy, middle, second) {
                1
            } else {
                0
            };
            &&& phase_after(policy, phase, events) == phase_after(policy, after, later)
            &&& reports_during(policy, phase, events) == reported + reported_next
                + reports_during(policy, after, later)
            &&& reconstructions_during(policy, phase, events) == built + built_next
                + reconstructions_during(policy, after, later)
        }),
{
    let events = seq![first, second] + later;
    let rest = seq![second] + later;
    assert(events.skip(1) =~= rest);
    assert(rest.skip(1) =~= later);
    let middle = next_phase(policy, phase, first);
    assert(phase_after(policy, phase, events) == phase_after(policy, middle, rest));
    assert(reports_during(policy, middle, rest) == (if reports_failure(policy, middle, second) {
        1nat
    } else {
        0nat
    }) + reports_during(policy, next_phase(policy, middle, second), later));
    assert(reconstructions_during(policy, middle, rest) == (if constructs_again(
        policy,
        middle,
        second,
    ) {
        1nat
    } else {
        0nat
    }) + reconstructions_during(policy, next_phase(policy, middle, second), later));
}

/// A slot that has ended stays ended, and nothing more comes of it.
proof fn lemma_ended_slot_stays_ended(policy: RestartPolicy, events: Seq<SlotEvent>)
    ensures
        phase_after(policy, SlotPhase::Terminated, events) == SlotPhase::Terminated,
        reports_during(policy, SlotPhase::Terminated, events) == 0,
        reconstructions_during(policy, SlotPhase::Terminated, events) == 0,
    decreases events.len(),
{
    if events.len() > 0 {
        lemma_ended_slot_stays_ended(policy, events.skip(1));
    }
}

/// A new slot under [`RestartPolicy::Forever`] whose service was constructed
/// and then crashed, `failures.len()` times over, is constructing the
/// service once more: the service has been constructed once more often than
/// it crashed. Nothing was reported, the slot has not ended, and the wait
/// for a supervisor of this slot goes on.
pub proof fn law_forever_slot_is_rebuilt_after_every_crash(
    service: Seq<char>,
    failures: Seq<Error>,
)
    ensures
        phase_after(RestartPolicy::Forever, SlotPhase::Constructing, crashes(failures))
            == SlotPhase::Constructing,
        constructions(RestartPolicy::Forever, crashes(failures)) == failures.len() + 1,
        reports_during(RestartPolicy::Forever, SlotPhase::Constructing, crashes(failures)) == 0,
        wait_outcome(
            seq![
                SlotView {
                    service,
                    policy: RestartPolicy::Forever,
                    phase: phase_after(
                        RestartPolicy::Forever,
                        SlotPhase::Constructing,
                        crashes(failures),
                    ),
                },
            ],
        ) is None,
    decreases failures.len(),
{
    lemma_crashes_rebuild(failures);
    let slots = seq![
        SlotView {
            service,
            policy: RestartPolicy::Forever,
            phase: SlotPhase::Constructing,
        },
    ];
    law_wait_goes_on_while_no_slot_ended(slots);
}

/// What [`law_forever_slot_is_rebuilt_after_every_crash`] says of the slot
/// alone, by induction on the number of crashes.
proof fn lemma_crashes_rebuild(failures: Seq<Error>)
    ensures
        phase_after(RestartPolicy::Forever, SlotPhase::Constructing, crashes(failures))
            == SlotPhase::Constructing,
        reconstructions_during(
            RestartPolicy::Forever,
            SlotPhase::Constructing,
            crashes(failures),
        ) == failures.len(),
        reports_during(RestartPolicy::Forever, SlotPhase::Constructing, crashes(failures)) == 0,
    decreases failures.len(),
{
    if failures.len() > 0 {
        lemma_two_events(
            RestartPolicy::Forever,
            SlotPhase::Constructing,
            SlotEvent::Constructed,
            SlotEvent::Finished(Err(failures[0])),
            crashes(failures.skip(1)),
        );
        lemma_crashes_rebuild(failures.skip(1));
    }
}

/// A slot under [`RestartPolicy::Forever`] never ends and never reports,
/// whatever is reported of it.
pub proof fn law_forever_slot_never_ends(phase: SlotPhase, events: Seq<SlotEvent>)
    requires
        phase != SlotPhase::Terminated,
    ensures
        phase_after(RestartPolicy::Forever, phase, events) != SlotPhase::Terminated,
        reports_during(RestartPolicy::Forever, phase, events) == 0,
    decreases events.len(),
{
    if events.len() > 0 {
        law_forever_slot_never_ends(
            next_phase(RestartPolicy::Forever, phase, events[0]),
            events.skip(1),
        );
    }
}

/// A new slot under [`RestartPolicy::UntilFailure`] whose service ended
/// without a failure, any number of times, and then crashed for the first
/// time, has ended, and its failure was reported exactly once, whatever is
/// reported of the slot later. The wait for a supervisor of this slot is
/// over, with a fatal outcome.
pub proof fn law_first_crash_is_reported_once(
    service: Seq<char>,
    times: nat,
    failure: Error,
    later: Seq<SlotEvent>,
)
    ensures
        ({
            let events = completions(times) + (seq![
                SlotEvent::Constructed,
                SlotEvent::Finished(Err(failure)),
            ] + later);
            let phase = phase_after(RestartPolicy::UntilFailure, SlotPhase::Constructing, events);
            &&& phase == SlotPhase::Terminated
            &&& reports_during(RestartPolicy::UntilFailure, SlotPhase::Constructing, events) == 1
            &&& wait_outcome(
                seq![SlotView { service, policy: RestartPolicy::UntilFailure, phase }],
            ) == Some(Err::<(), Seq<char>>("Internal Service Error"@))
        }),
{
    lemma_first_crash(times, failure, later);
    let ended = seq![
        SlotView {
            service,
            policy: RestartPolicy::UntilFailure,
            phase: SlotPhase::Terminated,
        },
    ];
    law_wait_ends_when_a_slot_ended(ended, 0);
}

/// What [`law_first_crash_is_reported_once`] says of the slot alone, by
/// induction on the number of times the service ended without a failure.
proof fn lemma_first_crash(times: nat, failure: Error, later: Seq<SlotEvent>)
    ensures
        ({
            let events = completions(times) + (seq![
                SlotEvent::Constructed,
                SlotEvent::Finished(Err(failure)),
            ] + later);
            &&& phase_after(RestartPolicy::UntilFailure, SlotPhase::Constructing, events)
                == SlotPhase::Terminated
            &&& reports_during(RestartPolicy::UntilFailure, SlotPhase::Constructing, events) == 1
        }),
    decreases times,
{
    let crash = seq![SlotEvent::Constructed, SlotEvent::Finished(Err(failure))] + later;
    if times == 0 {
        lemma_two_events(
            RestartPolicy::UntilFailure,
            SlotPhase::Constructing,
            SlotEvent::Constructed,
            SlotEvent::Finished(Err(failure)),
            later,
        );
        lemma_ended_slot_stays_ended(RestartPolicy::UntilFailure, later);
    } else {
        let rest = completions((times - 1) as nat) + crash;
        assert(completions(times) + crash =~= seq![
            SlotEvent::Constructed,
            SlotEvent::Finished(Ok(())),
        ] + rest);
        lemma_two_events(
            RestartPolicy::UntilFailure,
            SlotPhase::Constructing,
            SlotEvent::Constructed,
            SlotEvent::Finished(Ok(())),
            rest,
        );
        lemma_first_crash((times - 1) as nat, failure, later);
    }
}

/// Slots under [`RestartPolicy::Forever`] keep the wait going, whatever is
/// reported of them: the wait for a supervisor that has such slots only, and
/// at least one, never ends.
pub proof fn law_forever_slots_keep_the_wait_going(
    slots: Seq<SlotView>,
    reports: Seq<(int, SlotEvent)>,
)
    requires
        slots.len() > 0,
        forall|i: int|
            0 <= i < slots.len() ==> (#[trigger] slots[i]).policy == RestartPolicy::Forever
                && slots[i].phase != SlotPhase::Terminated,
    ensures
        wait_outcome(slots_after(slots, reports)) is None,
    decreases reports.len(),
{
    if reports.len() > 0 {
        let next = slots_after_report(slots, reports[0].0, reports[0].1);
        assert forall|i: int| 0 <= i < next.len() implies (#[trigger] next[i]).policy
            == RestartPolicy::Forever && next[i].phase != SlotPhase::Terminated by {
        }
        law_forever_slots_keep_the_wait_going(next, reports.skip(1));
    }
}

/// Once a slot has ended, the wait is over whatever is reported later.
proof fn lemma_ended_slot_ends_the_wait(
    slots: Seq<SlotView>,
    slot: int,
    reports: Seq<(int, SlotEvent)>,
)
    requires
        0 <= slot < slots.len(),
        slots[slot].phase == SlotPhase::Terminated,
    ensures
        wait_outcome(slots_after(slots, reports)) == Some(
            Err::<(), Seq<char>>("Internal Service Error"@),
        ),
    decreases reports.len(),
{
    if reports.len() > 0 {
        let next = slots_after_report(slots, reports[0].0, reports[0].1);
        lemma_ended_slot_ends_the_wait(next, slot, reports.skip(1));
    }
}

/// The first crash of a running service under
/// [`RestartPolicy::UntilFailure`] ends the wait with a fatal outcome, and
/// nothing that is reported later takes that back.
pub proof fn law_crash_under_until_failure_ends_the_wait(
    slots: Seq<SlotView>,
    slot: int,
    failure: Error,
    later: Seq<(int, SlotEvent)>,
)
    requires
        0 <= slot < slots.len(),
        slots[slot].policy == RestartPolicy::UntilFailure,
        slots[slot].phase == SlotPhase::Running,
    ensures
        wait_outcome(slots_after(slots, seq![(slot, SlotEvent::Finished(Err(failure)))] + later))
            == Some(Err::<(), Seq<char>>("Internal Service Error"@)),
{
    let reports = seq![(slot, SlotEvent::Finished(Err(failure)))] + later;
    let next = slots_after_report(slots, slot, SlotEvent::Finished(Err(failure)));
    assert(reports.skip(1) =~= later);
    lemma_ended_slot_ends_the_wait(next, slot, later);
}

/// While there are slots and none has ended, the wait goes on; so it does
/// not end on account of a slot under [`RestartPolicy::Forever`].
pub proof fn law_wait_goes_on_while_no_slot_ended(slots: Seq<SlotView>)
    requires
        slots.len() > 0,
        forall|i: int| 0 <= i < slots.len() ==> (#[trigger] slots[i]).phase != SlotPhase::Terminated,
    ensures
        wait_outcome(slots) is None,
{
}

/// As soon as one slot has ended, the wait is over, with a fatal outcome.
pub proof fn law_wait_ends_when_a_slot_ended(slots: Seq<SlotView>, slot: int)
    requires
        0 <= slot < slots.len(),
        slots[slot].phase == SlotPhase::Terminated,
    ensures
        wait_outcome(slots) == Some(Err::<(), Seq<char>>("Internal Service Error"@)),
{
}

} // verus!
