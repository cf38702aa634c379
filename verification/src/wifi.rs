//! The Wi-Fi transport adapter: how one activation gets its driver, takes
//! the shared socket storage, configures the link-layer stack and races the
//! caller's task against the stack's own loop.
//!
//! The adapter performs none of these activities itself. It names the next
//! one as a [`RunCommand`]; whoever drives it carries the activity out and
//! hands back what happened as a [`RunEvent`].

use crate::nal::{create_net_config, net_config, Config, ConfigView};
use crate::net::HardwareAddress;
use crate::wireless::{EmbassyNetContext, EmbassyNetContextView};
use vstd::prelude::*;

verus! {

/// A source of Wi-Fi drivers and their controllers. It is asked once for
/// every activation of the transport, and may be asked again once the pair
/// it handed out is no longer in use.
pub trait WifiDriverProvider {
    /// The network driver.
    type Driver;

    /// The controller of the radio.
    type Controller;

    /// Whether the provider, as it stands, hands out this driver and this
    /// controller when it is asked.
    spec fn provides(&self, driver: Self::Driver, controller: Self::Controller) -> bool;

    /// Whether a provider that has handed out a pair stands as `after`
    /// once the pair has come back to it as this driver and this
    /// controller.
    spec fn takes_back(
        &self,
        driver: Self::Driver,
        controller: Self::Controller,
        after: &Self,
    ) -> bool;

    /// Hands out the driver and its controller, and takes them back when
    /// the borrower is done with them.
    fn provide(&mut self) -> (pair: (&mut Self::Driver, &mut Self::Controller))
        ensures
            old(self).provides(*pair.0, *pair.1),
            old(self).takes_back(*final(pair.0), *final(pair.1), final(self)),
    ;
}

/// A borrowed provider hands out what the provider itself hands out.
impl<T: WifiDriverProvider> WifiDriverProvider for &mut T {
    type Driver = T::Driver;

    type Controller = T::Controller;

    open spec fn provides(&self, driver: T::Driver, controller: T::Controller) -> bool {
        (**self).provides(driver, controller)
    }

    open spec fn takes_back(
        &self,
        driver: T::Driver,
        controller: T::Controller,
        after: &Self,
    ) -> bool {
        (**self).takes_back(driver, controller, &**after)
    }

    /// Asks the provider behind the borrow, and leaves the borrow on that
    /// same provider: what the pair comes back as is what the provider
    /// holds when the borrow ends.
    fn provide(&mut self) -> (pair: (&mut T::Driver, &mut T::Controller))
        ensures
            *final(*final(self)) == *final(*old(self)),
    {
        (**self).provide()
    }
}

/// A provider around a driver and a controller that exist already: every
/// activation works on the same pair.
pub struct PreexistingWifi<D, C>(pub D, pub C);

impl<D, C> WifiDriverProvider for PreexistingWifi<D, C> {
    type Driver = D;

    type Controller = C;

    open spec fn provides(&self, driver: D, controller: C) -> bool {
        driver == self.0 && controller == self.1
    }

    open spec fn takes_back(&self, driver: D, controller: C, after: &Self) -> bool {
        after.0 == driver && after.1 == controller
    }

    /// Lends out the pair that the provider was made of. What the borrower
    /// leaves in it is what the provider holds afterwards.
    fn provide(&mut self) -> (pair: (&mut D, &mut C))
        ensures
            *pair.0 == old(self).0,
            *pair.1 == old(self).1,
            final(self).0 == *final(pair.0),
            final(self).1 == *final(pair.1),
    {
        (&mut self.0, &mut self.1)
    }
}

/// Where an activation of the Wi-Fi transport stands.
#[derive(Clone, Copy, Debug, PartialEq, Eq)]
pub enum RunState {
    /// No activation has been started.
    Idle,
    /// The activation waits for its driver if `driver` is `None`, and for
    /// the lock of the socket storage once it knows the hardware address
    /// of the driver.
    Acquiring { driver: Option<[u8; 6]> },
    /// The activation holds the lock and waits for the seed of the stack.
    Configuring { mac: [u8; 6] },
    /// The activation holds the lock; the caller's task and the loop of
    /// the stack run.
    Racing,
    /// The last activation has returned and has given the lock back.
    Returned,
}

/// What the adapter asks for.
#[derive(Debug, PartialEq, Eq)]
pub enum RunCommand {
    /// Ask the provider for a driver and a controller.
    Provide,
    /// The socket storage is locked by another activation: wait until it
    /// may be free and report [`RunEvent::Wake`].
    AwaitResources,
    /// Draw eight random bytes for the seed of the stack.
    DrawSeed,
    /// Build the stack over the driver with this configuration and seed,
    /// hand the caller's task the interface, the socket binder and the
    /// controller, and run the task and the loop of the stack until either
    /// of them ends.
    Launch { config: Config, seed: u64 },
}

/// What a [`RunCommand`] holds.
pub enum RunCommandView {
    /// Ask the provider for a driver and a controller.
    Provide,
    /// Wait until the socket storage may be free.
    AwaitResources,
    /// Draw eight random bytes for the seed of the stack.
    DrawSeed,
    /// Build the stack and race the task against its loop.
    Launch { config: ConfigView, seed: u64 },
}

impl View for RunCommand {
    type V = RunCommandView;

    open spec fn view(&self) -> RunCommandView {
        match self {
            RunCommand::Provide => RunCommandView::Provide,
            RunCommand::AwaitResources => RunCommandView::AwaitResources,
            RunCommand::DrawSeed => RunCommandView::DrawSeed,
            RunCommand::Launch { config, seed } => RunCommandView::Launch {
                config: config@,
                seed: *seed,
            },
        }
    }
}

/// What happened outside the adapter. `E` is the error type of the
/// protocol engine.
#[derive(Debug, PartialEq, Eq)]
pub enum RunEvent<E> {
    /// The provider handed out a driver with this hardware address.
    Provided { mac: [u8; 6] },
    /// The provider failed.
    ProvisioningFailed(E),
    /// The socket storage may be free now.
    Wake,
    /// These random bytes were drawn.
    Seed([u8; 8]),
    /// The caller's task ended with this result.
    TaskFinished(Result<(), E>),
    /// The loop of the stack ended, which it is not meant to do.
    StackExited,
}

/// What the adapter decides when something happened.
#[derive(Debug, PartialEq, Eq)]
pub enum RunStep<E> {
    /// The activation goes on with this.
    Run(RunCommand),
    /// The activation returns this result to its caller.
    Return(Result<(), E>),
    /// The event belongs to no step that the adapter waits for; nothing
    /// changed.
    Stray,
}

/// What a [`RunStep`] holds.
pub enum RunStepView<E> {
    /// The activation goes on with this.
    Run(RunCommandView),
    /// The activation returns this result to its caller.
    Return(Result<(), E>),
    /// Nothing changed.
    Stray,
}

impl<E> View for RunStep<E> {
    type V = RunStepView<E>;

    open spec fn view(&self) -> RunStepView<E> {
        match self {
            RunStep::Run(c) => RunStepView::Run(c@),
            RunStep::Return(r) => RunStepView::Return(*r),
            RunStep::Stray => RunStepView::Stray,
        }
    }
}

/// The number whose little-endian bytes are `bytes`.
pub open spec fn seed_of(bytes: [u8; 8]) -> u64 {
    (bytes[0] as int + bytes[1] as int * 0x100 + bytes[2] as int * 0x1_0000 + bytes[3] as int
        * 0x100_0000 + bytes[4] as int * 0x1_0000_0000 + bytes[5] as int * 0x100_0000_0000
        + bytes[6] as int * 0x1_0000_0000_0000 + bytes[7] as int * 0x100_0000_0000_0000) as u64
}

/// Computes the seed of the stack from eight random bytes.
pub fn seed_from_bytes(bytes: &[u8; 8]) -> (seed: u64)
    ensures
        seed == seed_of(*bytes),
{
    let low: u64 = bytes[0] as u64 + bytes[1] as u64 * 0x100 + bytes[2] as u64 * 0x1_0000
        + bytes[3] as u64 * 0x100_0000;
    let high: u64 = bytes[4] as u64 + bytes[5] as u64 * 0x100 + bytes[6] as u64 * 0x1_0000
        + bytes[7] as u64 * 0x100_0000;
    low + high * 0x1_0000_0000
}

/// An activation in this state holds the lock of the socket storage.
pub open spec fn holds_lock(state: RunState) -> bool {
    state is Configuring || state is Racing
}

/// The lock after an activation in `state` has let go of it.
pub open spec fn released(state: RunState, locked: bool) -> bool {
    if holds_lock(state) {
        false
    } else {
        locked
    }
}

/// An activation that knows its driver tries to take the lock: it goes on
/// to configure if the lock is free, and waits if it is not.
pub open spec fn try_acquire<E>(mac: [u8; 6], locked: bool) -> (RunState, bool, RunStepView<E>) {
    if locked {
        (
            RunState::Acquiring { driver: Some(mac) },
            true,
            RunStepView::Run(RunCommandView::AwaitResources),
        )
    } else {
        (RunState::Configuring { mac }, true, RunStepView::Run(RunCommandView::DrawSeed))
    }
}

/// An activation begins, from whatever state: an activation that was under
/// way is given up and its lock given back, and the provider is asked for
/// a driver.
pub open spec fn run_begin(state: RunState, locked: bool) -> (RunState, bool, RunCommandView) {
    (RunState::Acquiring { driver: None }, released(state, locked), RunCommandView::Provide)
}

/// An activation is given up: its lock is given back and the adapter is
/// idle.
pub open spec fn run_abandon(state: RunState, locked: bool) -> (RunState, bool) {
    (RunState::Idle, released(state, locked))
}

/// What the adapter does with an event, given whether the socket storage
/// is locked: the state and the lock afterwards, and the decision.
///
/// The activation gets its driver, takes the lock as soon as it is free,
/// draws a seed, and launches the stack with the configuration that
/// belongs to the driver's hardware address. It returns what the task
/// returned, or success if the loop of the stack ended first, and gives
/// the lock back as it returns. A failure of the provider is returned as
/// it is, before the lock is asked for.
pub open spec fn run_advance<E>(state: RunState, locked: bool, event: RunEvent<E>) -> (
    RunState,
    bool,
    RunStepView<E>,
) {
    match state {
        RunState::Acquiring { driver: None } => match event {
            RunEvent::Provided { mac } => try_acquire(mac, locked),
            RunEvent::ProvisioningFailed(e) => (
                RunState::Returned,
                locked,
                RunStepView::Return(Err(e)),
            ),
            _ => (state, locked, RunStepView::Stray),
        },
        RunState::Acquiring { driver: Some(mac) } => match event {
            RunEvent::Wake => try_acquire(mac, locked),
            _ => (state, locked, RunStepView::Stray),
        },
        RunState::Configuring { mac } => match event {
            RunEvent::Seed(bytes) => (
                RunState::Racing,
                locked,
                RunStepView::Run(
                    RunCommandView::Launch { config: net_config(mac), seed: seed_of(bytes) },
                ),
            ),
            _ => (state, locked, RunStepView::Stray),
        },
        RunState::Racing => match event {
            RunEvent::TaskFinished(result) => (
                RunState::Returned,
                false,
                RunStepView::Return(result),
            ),
            RunEvent::StackExited => (RunState::Returned, false, RunStepView::Return(Ok(()))),
            _ => (state, locked, RunStepView::Stray),
        },
        _ => (state, locked, RunStepView::Stray),
    }
}

impl RunState {
    /// Tells whether an activation in this state holds the lock of the
    /// socket storage.
    pub fn holds_resources(&self) -> (holds: bool)
        ensures
            holds == holds_lock(*self),
    {
        match self {
            RunState::Configuring { .. } => true,
            RunState::Racing => true,
            _ => false,
        }
    }

    fn release(&self, context: &mut EmbassyNetContext)
        ensures
            final(context)@ == (EmbassyNetContextView {
                buffers: old(context)@.buffers,
                locked: released(*self, old(context)@.locked),
            }),
    {
        if self.holds_resources() {
            context.unlock();
        }
    }

    fn acquire<E>(&mut self, context: &mut EmbassyNetContext, mac: [u8; 6]) -> (step: RunStep<E>)
        ensures
            (*final(self), final(context)@.locked, step@) == try_acquire::<E>(
                mac,
                old(context)@.locked,
            ),
            final(context)@.buffers == old(context)@.buffers,
    {
        if context.try_lock() {
            *self = RunState::Configuring { mac };
            RunStep::Run(RunCommand::DrawSeed)
        } else {
            *self = RunState::Acquiring { driver: Some(mac) };
            RunStep::Run(RunCommand::AwaitResources)
        }
    }

    /// Starts an activation on the shared storage `context`.
    pub fn begin(&mut self, context: &mut EmbassyNetContext) -> (command: RunCommand)
        ensures
            (*final(self), final(context)@.locked, command@) == run_begin(
                *old(self),
                old(context)@.locked,
            ),
            final(context)@.buffers == old(context)@.buffers,
    {
        self.release(context);
        *self = RunState::Acquiring { driver: None };
        RunCommand::Provide
    }

    /// Gives the activation up, as when its caller stops waiting for it.
    pub fn abandon(&mut self, context: &mut EmbassyNetContext)
        ensures
            (*final(self), final(context)@.locked) == run_abandon(*old(self), old(context)@.locked),
            final(context)@.buffers == old(context)@.buffers,
    {
        self.release(context);
        *self = RunState::Idle;
    }

    /// Takes what happened outside and decides how the activation goes on.
    pub fn advance<E>(&mut self, context: &mut EmbassyNetContext, event: RunEvent<E>) -> (step:
        RunStep<E>)
        ensures
            (*final(self), final(context)@.locked, step@) == run_advance(
                *old(self),
                old(context)@.locked,
                event,
            ),
            final(context)@.buffers == old(context)@.buffers,
    {
        match *self {
            RunState::Acquiring { driver: None } => match event {
                RunEvent::Provided { mac } => self.acquire(context, mac),
                RunEvent::ProvisioningFailed(e) => {
                    *self = RunState::Returned;
                    RunStep::Return(Err(e))
                },
                _ => RunStep::Stray,
            },
            RunState::Acquiring { driver: Some(mac) } => match event {
                RunEvent::Wake => self.acquire(context, mac),
                _ => RunStep::Stray,
            },
            RunState::Configuring { mac } => match event {
                RunEvent::Seed(bytes) => {
                    *self = RunState::Racing;
                    let config = create_net_config(&HardwareAddress::Ethernet(mac));
                    RunStep::Run(RunCommand::Launch { config, seed: seed_from_bytes(&bytes) })
                },
                _ => RunStep::Stray,
            },
            RunState::Racing => match event {
                RunEvent::TaskFinished(result) => {
                    context.unlock();
                    *self = RunState::Returned;
                    RunStep::Return(result)
                },
                RunEvent::StackExited => {
                    context.unlock();
                    *self = RunState::Returned;
                    RunStep::Return(Ok(()))
                },
                _ => RunStep::Stray,
            },
            _ => RunStep::Stray,
        }
    }
}

/// The Wi-Fi transport adapter: a driver provider, and the state of the
/// activation that runs on what the provider hands out.
pub struct EmbassyWifi<T> {
    provider: T,
    state: RunState,
}

impl<T> EmbassyWifi<T> {
    /// The driver provider.
    pub closed spec fn spec_provider(&self) -> T {
        self.provider
    }

    /// Where the activation stands.
    pub closed spec fn spec_state(&self) -> RunState {
        self.state
    }

    /// Creates the adapter over a driver provider.
    pub fn wrap(provider: T) -> (wifi: Self)
        ensures
            wifi.spec_provider() == provider,
            wifi.spec_state() == RunState::Idle,
    {
        EmbassyWifi { provider, state: RunState::Idle }
    }

    /// Creates the adapter over a driver provider. It is the same as
    /// [`Self::wrap`].
    pub fn new(provider: T) -> (wifi: Self)
        ensures
            wifi.spec_provider() == provider,
            wifi.spec_state() == RunState::Idle,
    {
        Self::wrap(provider)
    }

    /// Returns the provider and the state of the activation, each to be
    /// worked on while the other is in use: the pair that the provider
    /// hands out lives as long as the activation.
    pub fn split(&mut self) -> (parts: (&mut T, &mut RunState))
        ensures
            *parts.0 == old(self).spec_provider(),
            *parts.1 == old(self).spec_state(),
            final(self).spec_provider() == *final(parts.0),
            final(self).spec_state() == *final(parts.1),
    {
        (&mut self.provider, &mut self.state)
    }

    /// Returns the provider, to ask it for a driver.
    pub fn provider_mut(&mut self) -> (provider: &mut T)
        ensures
            *provider == old(self).spec_provider(),
            final(self).spec_provider() == *final(provider),
            final(self).spec_state() == old(self).spec_state(),
    {
        &mut self.provider
    }

    /// Returns where the activation stands.
    pub fn state(&self) -> (state: RunState)
        ensures
            state == self.spec_state(),
    {
        self.state
    }

    /// Tells whether the activation holds the lock of the socket storage.
    pub fn holds_resources(&self) -> (holds: bool)
        ensures
            holds == holds_lock(self.spec_state()),
    {
        self.state.holds_resources()
    }

    /// Starts an activation on the shared storage `context`.
    pub fn run(&mut self, context: &mut EmbassyNetContext) -> (command: RunCommand)
        ensures
            (final(self).spec_state(), final(context)@.locked, command@) == run_begin(
                old(self).spec_state(),
                old(context)@.locked,
            ),
            final(context)@.buffers == old(context)@.buffers,
            final(self).spec_provider() == old(self).spec_provider(),
    {
        self.state.begin(context)
    }

    /// Gives the activation up, as when its caller stops waiting for it.
    pub fn abandon(&mut self, context: &mut EmbassyNetContext)
        ensures
            (final(self).spec_state(), final(context)@.locked) == run_abandon(
                old(self).spec_state(),
                old(context)@.locked,
            ),
            final(context)@.buffers == old(context)@.buffers,
            final(self).spec_provider() == old(self).spec_provider(),
    {
        self.state.abandon(context)
    }

    /// Takes what happened outside and decides how the activation goes on.
    pub fn advance<E>(&mut self, context: &mut EmbassyNetContext, event: RunEvent<E>) -> (step:
        RunStep<E>)
        ensures
            (final(self).spec_state(), final(context)@.locked, step@) == run_advance(
                old(self).spec_state(),
                old(context)@.locked,
                event,
            ),
            final(context)@.buffers == old(context)@.buffers,
            final(self).spec_provider() == old(self).spec_provider(),
    {
        self.state.advance(context, event)
    }
}

/// The activations on one shared storage exclude each other: at most one
/// of them holds the lock, and the lock is taken exactly when one does.
pub open spec fn exclusive(locked: bool, states: Seq<RunState>) -> bool {
    &&& forall|i: int, j: int|
        0 <= i < states.len() && 0 <= j < states.len() && holds_lock(states[i]) && holds_lock(
            states[j],
        ) ==> i == j
    &&& locked <==> exists|i: int| 0 <= i < states.len() && holds_lock(states[i])
}

/// Storage that nobody has locked and adapters that have not been started
/// exclude each other.
pub proof fn lemma_exclusive_at_start(states: Seq<RunState>)
    requires
        forall|i: int| 0 <= i < states.len() ==> states[i] is Idle,
    ensures
        exclusive(false, states),
{
}

/// Whatever happens to whichever activation, the activations go on
/// excluding each other.
pub proof fn lemma_advance_keeps_exclusive<E>(
    locked: bool,
    states: Seq<RunState>,
    i: int,
    event: RunEvent<E>,
)
    requires
        exclusive(locked, states),
        0 <= i < states.len(),
    ensures
        ({
            let (state, locked_after, _step) = run_advance(states[i], locked, event);
            exclusive(locked_after, states.update(i, state))
        }),
{
    let (state, locked_after, _step) = run_advance(states[i], locked, event);
    let after = states.update(i, state);
    if holds_lock(state) {
        assert(holds_lock(after[i]));
        if !holds_lock(states[i]) {
            assert(!locked);
        }
    } else {
        if locked_after {
            let k = choose|k: int| 0 <= k < states.len() && holds_lock(states[k]);
            assert(k != i);
            assert(holds_lock(after[k]));
        }
    }
    assert forall|a: int, b: int|
        0 <= a < after.len() && 0 <= b < after.len() && holds_lock(after[a]) && holds_lock(
            after[b],
        ) implies a == b by {
        if a != i && b != i {
            assert(holds_lock(states[a]) && holds_lock(states[b]));
        } else if a == i && b != i {
            assert(holds_lock(states[b]));
        } else if b == i && a != i {
            assert(holds_lock(states[a]));
        }
    }
}

/// Starting an activation, or giving one up, leaves the activations
/// excluding each other.
pub proof fn lemma_begin_keeps_exclusive(locked: bool, states: Seq<RunState>, i: int)
    requires
        exclusive(locked, states),
        0 <= i < states.len(),
    ensures
        exclusive(run_begin(states[i], locked).1, states.update(i, run_begin(states[i], locked).0)),
        exclusive(
            run_abandon(states[i], locked).1,
            states.update(i, run_abandon(states[i], locked).0),
        ),
{
    let locked_after = released(states[i], locked);
    let begun = states.update(i, RunState::Acquiring { driver: None });
    let idle = states.update(i, RunState::Idle);
    if locked_after {
        let k = choose|k: int| 0 <= k < states.len() && holds_lock(states[k]);
        assert(k != i);
        assert(holds_lock(begun[k]));
        assert(holds_lock(idle[k]));
    }
    assert forall|a: int, b: int|
        0 <= a < begun.len() && 0 <= b < begun.len() && holds_lock(begun[a]) && holds_lock(
            begun[b],
        ) implies a == b by {
        assert(holds_lock(states[a]) && holds_lock(states[b]));
    }
    assert forall|a: int, b: int|
        0 <= a < idle.len() && 0 <= b < idle.len() && holds_lock(idle[a]) && holds_lock(
            idle[b],
        ) implies a == b by {
        assert(holds_lock(states[a]) && holds_lock(states[b]));
    }
}

/// What one of the adapters on a shared storage may be made to do.
pub enum Move<E> {
    /// Adapter `who` starts an activation.
    Begin { who: int },
    /// Adapter `who` gives its activation up.
    Abandon { who: int },
    /// Adapter `who` is told `event`.
    Advance { who: int, event: RunEvent<E> },
}

/// The lock and the adapters after one move. A move of an adapter that
/// does not exist changes nothing.
pub open spec fn after_move<E>(locked: bool, states: Seq<RunState>, m: Move<E>) -> (
    bool,
    Seq<RunState>,
) {
    match m {
        Move::Begin { who } => if 0 <= who < states.len() {
            (run_begin(states[who], locked).1, states.update(who, run_begin(states[who], locked).0))
        } else {
            (locked, states)
        },
        Move::Abandon { who } => if 0 <= who < states.len() {
            (
                run_abandon(states[who], locked).1,
                states.update(who, run_abandon(states[who], locked).0),
            )
        } else {
            (locked, states)
        },
        Move::Advance { who, event } => if 0 <= who < states.len() {
            (
                run_advance(states[who], locked, event).1,
                states.update(who, run_advance(states[who], locked, event).0),
            )
        } else {
            (locked, states)
        },
    }
}

/// The lock and the adapters after the moves, one after the other.
pub open spec fn after_moves<E>(locked: bool, states: Seq<RunState>, moves: Seq<Move<E>>) -> (
    bool,
    Seq<RunState>,
)
    decreases moves.len(),
{
    if moves.len() == 0 {
        (locked, states)
    } else {
        let before = after_moves(locked, states, moves.drop_last());
        after_move(before.0, before.1, moves.last())
    }
}

/// At every instant at most one activation holds the lock: whatever the
/// adapters on one shared storage are made to do, in whatever order, they
/// go on excluding each other.
pub proof fn lemma_always_exclusive<E>(locked: bool, states: Seq<RunState>, moves: Seq<Move<E>>)
    requires
        exclusive(locked, states),
    ensures
        exclusive(after_moves(locked, states, moves).0, after_moves(locked, states, moves).1),
        after_moves(locked, states, moves).1.len() == states.len(),
    decreases moves.len(),
{
    if moves.len() > 0 {
        lemma_always_exclusive(locked, states, moves.drop_last());
        let before = after_moves(locked, states, moves.drop_last());
        match moves.last() {
            Move::Begin { who } => {
                if 0 <= who < before.1.len() {
                    lemma_begin_keeps_exclusive(before.0, before.1, who);
                }
            },
            Move::Abandon { who } => {
                if 0 <= who < before.1.len() {
                    lemma_begin_keeps_exclusive(before.0, before.1, who);
                }
            },
            Move::Advance { who, event } => {
                if 0 <= who < before.1.len() {
                    lemma_advance_keeps_exclusive(before.0, before.1, who, event);
                }
            },
        }
    }
}

/// While one activation holds the lock, another that asks for it is told
/// to wait and stays where it is, as often as it asks.
pub proof fn lemma_second_waits_for_first<E>(
    locked: bool,
    states: Seq<RunState>,
    holder: int,
    waiter: int,
    mac: [u8; 6],
)
    requires
        exclusive(locked, states),
        0 <= holder < states.len(),
        0 <= waiter < states.len(),
        holds_lock(states[holder]),
        states[waiter] == (RunState::Acquiring { driver: Some(mac) }) || states[waiter] == (
        RunState::Acquiring { driver: None }),
    ensures
        run_advance::<E>(
            RunState::Acquiring { driver: Some(mac) },
            locked,
            RunEvent::Wake,
        ) == (
            RunState::Acquiring { driver: Some(mac) },
            true,
            RunStepView::<E>::Run(RunCommandView::AwaitResources),
        ),
        run_advance::<E>(
            RunState::Acquiring { driver: None },
            locked,
            RunEvent::Provided { mac },
        ) == (
            RunState::Acquiring { driver: Some(mac) },
            true,
            RunStepView::<E>::Run(RunCommandView::AwaitResources),
        ),
{
}

/// As soon as the activation that holds the lock has returned, however it
/// did, an activation that waited for the lock gets it at its next try.
pub proof fn lemma_second_runs_after_first<E>(
    locked: bool,
    states: Seq<RunState>,
    holder: int,
    waiter: int,
    mac: [u8; 6],
    end: RunEvent<E>,
)
    requires
        exclusive(locked, states),
        0 <= holder < states.len(),
        0 <= waiter < states.len(),
        states[holder] is Racing,
        states[waiter] == (RunState::Acquiring { driver: Some(mac) }),
        end is TaskFinished || end is StackExited,
    ensures
        ({
            let (returned, locked_after, step) = run_advance(states[holder], locked, end);
            &&& step is Return
            &&& returned is Returned
            &&& !locked_after
            &&& run_advance::<E>(states[waiter], locked_after, RunEvent::Wake) == (
                RunState::Configuring { mac },
                true,
                RunStepView::<E>::Run(RunCommandView::DrawSeed),
            )
        }),
{
}

/// However an activation returns, the adapter has given the lock back and
/// a new activation can be started on it; with the storage free, the new
/// activation gets its driver, takes the lock and launches the stack anew.
pub proof fn lemma_run_is_restartable<E>(
    state: RunState,
    locked: bool,
    event: RunEvent<E>,
    mac: [u8; 6],
    bytes: [u8; 8],
)
    requires
        run_advance(state, locked, event).2 is Return,
    ensures
        ({
            let (returned, locked_after, _step) = run_advance(state, locked, event);
            let (begun, locked_begun, command) = run_begin(returned, locked_after);
            let (configuring, locked_taken, draw) = run_advance::<E>(
                begun,
                false,
                RunEvent::Provided { mac },
            );
            let (racing, locked_racing, launch) = run_advance::<E>(
                configuring,
                locked_taken,
                RunEvent::Seed(bytes),
            );
            &&& returned is Returned
            &&& !holds_lock(returned)
            &&& holds_lock(state) ==> !locked_after
            &&& !holds_lock(state) ==> locked_after == locked
            &&& begun == (RunState::Acquiring { driver: None })
            &&& locked_begun == locked_after
            &&& command == RunCommandView::Provide
            &&& draw == RunStepView::<E>::Run(RunCommandView::DrawSeed)
            &&& launch == RunStepView::<E>::Run(
                RunCommandView::Launch { config: net_config(mac), seed: seed_of(bytes) },
            )
            &&& racing is Racing
            &&& locked_racing
        }),
{
}

/// The race between the task and the loop of the stack: what the task
/// returned is returned unchanged, and an end of the loop counts as
/// success. Either way the lock is free afterwards.
pub proof fn lemma_race_outcome<E>(locked: bool, result: Result<(), E>)
    ensures
        run_advance(RunState::Racing, locked, RunEvent::TaskFinished(result)) == (
            RunState::Returned,
            false,
            RunStepView::Return(result),
        ),
        run_advance::<E>(RunState::Racing, locked, RunEvent::StackExited) == (
            RunState::Returned,
            false,
            RunStepView::<E>::Return(Ok(())),
        ),
{
}

} // verus!
