//! The storage that the transport adapters share, and the BLE transport
//! adapter.

use crate::nal::{is_unused, MatterUdpBuffers, UdpBuffers, MAX_SOCKETS, MIN_SOCKET_SET};
use vstd::prelude::*;

verus! {

/// The storage of the network layer: the pool of UDP socket buffers, and
/// the socket storage of the link-layer stack behind a lock that at most
/// one transport activation holds at a time.
pub struct EmbassyNetContext {
    buffers: MatterUdpBuffers,
    locked: bool,
}

/// What an [`EmbassyNetContext`] holds.
pub struct EmbassyNetContextView {
    /// For each socket buffer, whether it is in use.
    pub buffers: Seq<bool>,
    /// Whether the socket storage is locked.
    pub locked: bool,
}

/// The context as it is created: every buffer free, the storage unlocked.
pub open spec fn fresh_context(c: EmbassyNetContextView) -> bool {
    &&& c.buffers.len() == MAX_SOCKETS
    &&& is_unused(c.buffers)
    &&& !c.locked
}

impl View for EmbassyNetContext {
    type V = EmbassyNetContextView;

    closed spec fn view(&self) -> EmbassyNetContextView {
        EmbassyNetContextView { buffers: self.buffers@, locked: self.locked }
    }
}

impl EmbassyNetContext {
    /// The pool has one buffer for each socket of the engine, and the
    /// stack's storage has room for them and for two more.
    pub proof fn lemma_sized(&self)
        ensures
            self@.buffers.len() == MAX_SOCKETS,
            self@.buffers.len() + 2 == MIN_SOCKET_SET,
    {
        self.buffers.lemma_capacity();
    }

    /// Creates a context: every buffer free, the storage unlocked.
    pub fn new() -> (context: Self)
        ensures
            fresh_context(context@),
    {
        EmbassyNetContext { buffers: UdpBuffers::new(), locked: false }
    }

    /// Makes the context as new again, in place.
    pub fn init(&mut self)
        ensures
            fresh_context(final(self)@),
    {
        self.buffers.init();
        self.locked = false;
    }

    /// Takes the lock of the socket storage if it is free, and tells
    /// whether it did. A caller that is told `false` has to wait and try
    /// again.
    pub fn try_lock(&mut self) -> (taken: bool)
        ensures
            taken == !old(self)@.locked,
            final(self)@ == (EmbassyNetContextView { buffers: old(self)@.buffers, locked: true }),
    {
        let taken = !self.locked;
        self.locked = true;
        taken
    }

    /// Gives the lock of the socket storage back.
    pub fn unlock(&mut self)
        ensures
            final(self)@ == (EmbassyNetContextView { buffers: old(self)@.buffers, locked: false }),
    {
        self.locked = false;
    }

    /// Tells whether the socket storage is locked.
    pub fn is_locked(&self) -> (locked: bool)
        ensures
            locked == self@.locked,
    {
        self.locked
    }

    /// Returns the number of sockets that the locked storage has room
    /// for: one for each socket buffer, and two for the stack itself.
    pub fn socket_capacity(&self) -> (n: usize)
        ensures
            n == MIN_SOCKET_SET,
            n == self@.buffers.len() + 2,
    {
        proof {
            self.lemma_sized();
        }
        MIN_SOCKET_SET
    }

    /// Returns the pool of socket buffers.
    pub fn buffers(&self) -> (buffers: &MatterUdpBuffers)
        ensures
            buffers@ == self@.buffers,
    {
        &self.buffers
    }

    /// Returns the pool of socket buffers, to bind and close sockets.
    pub fn buffers_mut(&mut self) -> (buffers: &mut MatterUdpBuffers)
        ensures
            buffers@ == old(self)@.buffers,
            final(self)@ == (EmbassyNetContextView {
                buffers: final(buffers)@,
                locked: old(self)@.locked,
            }),
    {
        &mut self.buffers
    }
}

impl Default for EmbassyNetContext {
    fn default() -> (context: Self)
        ensures
            fresh_context(context@),
    {
        Self::new()
    }
}

/// The storage that a wireless protocol stack embeds: the context of the
/// BLE transport, the context of the network layer, and whatever the user
/// embeds on top.
pub struct EmbassyGatt<B, E = ()> {
    btp_gatt_context: B,
    enet_context: EmbassyNetContext,
    embedding: E,
}

impl<B, E> EmbassyGatt<B, E> {
    /// The context of the BLE transport.
    pub closed spec fn spec_ble_context(&self) -> B {
        self.btp_gatt_context
    }

    /// The context of the network layer.
    pub closed spec fn spec_enet_context(&self) -> EmbassyNetContext {
        self.enet_context
    }

    /// The user's embedding.
    pub closed spec fn spec_embedding(&self) -> E {
        self.embedding
    }

    /// Creates the storage around a BLE context and a user embedding, with
    /// a new network context.
    pub fn new(btp_gatt_context: B, embedding: E) -> (gatt: Self)
        ensures
            gatt.spec_ble_context() == btp_gatt_context,
            gatt.spec_embedding() == embedding,
            fresh_context(gatt.spec_enet_context()@),
    {
        EmbassyGatt { btp_gatt_context, enet_context: EmbassyNetContext::new(), embedding }
    }

    /// Initialises the storage where it stands: it gets the given BLE
    /// context and embedding, and its network context is made as new.
    pub fn init(&mut self, btp_gatt_context: B, embedding: E)
        ensures
            final(self).spec_ble_context() == btp_gatt_context,
            final(self).spec_embedding() == embedding,
            fresh_context(final(self).spec_enet_context()@),
    {
        self.btp_gatt_context = btp_gatt_context;
        self.enet_context.init();
        self.embedding = embedding;
    }

    /// Returns the context of the BLE transport.
    pub fn ble_context(&self) -> (context: &B)
        ensures
            *context == self.spec_ble_context(),
    {
        &self.btp_gatt_context
    }

    /// Returns the context of the network layer.
    pub fn enet_context(&self) -> (context: &EmbassyNetContext)
        ensures
            *context == self.spec_enet_context(),
    {
        &self.enet_context
    }

    /// Returns the context of the network layer, for a transport
    /// activation to work on.
    pub fn enet_context_mut(&mut self) -> (context: &mut EmbassyNetContext)
        ensures
            *context == old(self).spec_enet_context(),
            final(self).spec_enet_context() == *final(context),
            final(self).spec_ble_context() == old(self).spec_ble_context(),
            final(self).spec_embedding() == old(self).spec_embedding(),
    {
        &mut self.enet_context
    }

    /// Returns the user's embedding.
    pub fn embedding(&self) -> (embedding: &E)
        ensures
            *embedding == self.spec_embedding(),
    {
        &self.embedding
    }
}

/// Where an activation of the BLE transport stands.
#[derive(Clone, Copy, Debug, PartialEq, Eq)]
pub enum BleState {
    /// No activation has been started.
    Idle,
    /// The activation waits for its provider to hand out a controller.
    Provisioning,
    /// The caller's task runs on the BLE peripheral.
    Running,
    /// The last activation has returned.
    Returned,
}

/// What the BLE adapter asks for.
#[derive(Clone, Copy, Debug, PartialEq, Eq)]
pub enum BleCommand {
    /// Ask the provider for a controller.
    Provide,
    /// Build the peripheral over the controller and the BLE context, and
    /// run the caller's task on it.
    Serve,
}

/// What happened outside the BLE adapter. `E` is the error type of the
/// protocol engine.
#[derive(Debug, PartialEq, Eq)]
pub enum BleEvent<E> {
    /// The provider handed out a controller.
    Provided,
    /// The provider failed.
    ProvisioningFailed(E),
    /// The caller's task ended with this result.
    TaskFinished(Result<(), E>),
}

/// What the BLE adapter decides when something happened.
#[derive(Debug, PartialEq, Eq)]
pub enum BleStep<E> {
    /// The activation goes on with this.
    Run(BleCommand),
    /// The activation returns this result to its caller.
    Return(Result<(), E>),
    /// The event belongs to no step that the adapter waits for; nothing
    /// changed.
    Stray,
}

/// What the BLE adapter does with an event: it waits for the controller,
/// then for the task, and returns what the task returned. A failure of the
/// provider is returned as it is.
pub open spec fn ble_advance<E>(state: BleState, event: BleEvent<E>) -> (BleState, BleStep<E>) {
    match state {
        BleState::Provisioning => match event {
            BleEvent::Provided => (BleState::Running, BleStep::Run(BleCommand::Serve)),
            BleEvent::ProvisioningFailed(e) => (BleState::Returned, BleStep::Return(Err(e))),
            _ => (state, BleStep::Stray),
        },
        BleState::Running => match event {
            BleEvent::TaskFinished(result) => (BleState::Returned, BleStep::Return(result)),
            _ => (state, BleStep::Stray),
        },
        _ => (state, BleStep::Stray),
    }
}

impl BleState {
    /// Starts an activation, from whatever state: the provider is asked
    /// for a controller.
    pub fn begin(&mut self) -> (command: BleCommand)
        ensures
            command == BleCommand::Provide,
            *final(self) == BleState::Provisioning,
    {
        *self = BleState::Provisioning;
        BleCommand::Provide
    }

    /// Takes what happened outside and decides how the activation goes on.
    pub fn advance<E>(&mut self, event: BleEvent<E>) -> (step: BleStep<E>)
        ensures
            (*final(self), step) == ble_advance(*old(self), event),
    {
        match *self {
            BleState::Provisioning => match event {
                BleEvent::Provided => {
                    *self = BleState::Running;
                    BleStep::Run(BleCommand::Serve)
                },
                BleEvent::ProvisioningFailed(e) => {
                    *self = BleState::Returned;
                    BleStep::Return(Err(e))
                },
                _ => BleStep::Stray,
            },
            BleState::Running => match event {
                BleEvent::TaskFinished(result) => {
                    *self = BleState::Returned;
                    BleStep::Return(result)
                },
                _ => BleStep::Stray,
            },
            _ => BleStep::Stray,
        }
    }
}

/// The BLE transport adapter: a controller provider, the shared BLE
/// context, and the state of the activation that runs the caller's task on
/// a peripheral over them.
pub struct EmbassyBle<'a, T, B> {
    provider: T,
    context: &'a B,
    state: BleState,
}

impl<'a, T, B> EmbassyBle<'a, T, B> {
    /// The controller provider.
    pub closed spec fn spec_provider(&self) -> T {
        self.provider
    }

    /// The BLE context.
    pub closed spec fn spec_context(&self) -> &'a B {
        self.context
    }

    /// Where the activation stands.
    pub closed spec fn spec_state(&self) -> BleState {
        self.state
    }

    /// Creates the adapter over the BLE context of a stack's storage.
    pub fn new<E>(provider: T, stack: &'a EmbassyGatt<B, E>) -> (ble: Self)
        ensures
            ble.spec_provider() == provider,
            *ble.spec_context() == stack.spec_ble_context(),
            ble.spec_state() == BleState::Idle,
    {
        Self::wrap(provider, stack.ble_context())
    }

    /// Creates the adapter over a provider and a BLE context.
    pub fn wrap(provider: T, context: &'a B) -> (ble: Self)
        ensures
            ble.spec_provider() == provider,
            ble.spec_context() == context,
            ble.spec_state() == BleState::Idle,
    {
        EmbassyBle { provider, context, state: BleState::Idle }
    }

    /// Returns the provider and the state of the activation, each to be
    /// worked on while the other is in use: the controller that the
    /// provider hands out lives as long as the activation.
    pub fn split(&mut self) -> (parts: (&mut T, &mut BleState))
        ensures
            *parts.0 == old(self).spec_provider(),
            *parts.1 == old(self).spec_state(),
            final(self).spec_provider() == *final(parts.0),
            final(self).spec_state() == *final(parts.1),
            final(self).spec_context() == old(self).spec_context(),
    {
        (&mut self.provider, &mut self.state)
    }

    /// Returns the provider, to ask it for a controller.
    pub fn provider_mut(&mut self) -> (provider: &mut T)
        ensures
            *provider == old(self).spec_provider(),
            final(self).spec_provider() == *final(provider),
            final(self).spec_context() == old(self).spec_context(),
            final(self).spec_state() == old(self).spec_state(),
    {
        &mut self.provider
    }

    /// Returns the BLE context.
    pub fn context(&self) -> (context: &'a B)
        ensures
            context == self.spec_context(),
    {
        self.context
    }

    /// Returns where the activation stands.
    pub fn state(&self) -> (state: BleState)
        ensures
            state == self.spec_state(),
    {
        self.state
    }

    /// Starts an activation, from whatever state: the provider is asked
    /// for a controller.
    pub fn run(&mut self) -> (command: BleCommand)
        ensures
            command == BleCommand::Provide,
            final(self).spec_state() == BleState::Provisioning,
            final(self).spec_provider() == old(self).spec_provider(),
            final(self).spec_context() == old(self).spec_context(),
    {
        self.state.begin()
    }

    /// Takes what happened outside and decides how the activation goes on.
    pub fn advance<E>(&mut self, event: BleEvent<E>) -> (step: BleStep<E>)
        ensures
            (final(self).spec_state(), step) == ble_advance(old(self).spec_state(), event),
            final(self).spec_provider() == old(self).spec_provider(),
            final(self).spec_context() == old(self).spec_context(),
    {
        self.state.advance(event)
    }
}

} // verus!
