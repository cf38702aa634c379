use rs_matter_embassy::nal::{MAX_SOCKETS, MIN_SOCKET_SET};
use rs_matter_embassy::wireless::{
    BleCommand, BleEvent, BleState, BleStep, EmbassyBle, EmbassyGatt, EmbassyNetContext,
};

type Event = BleEvent<u32>;

#[test]
fn new_context_is_free_and_unlocked() {
    let ctx = EmbassyNetContext::new();
    assert!(!ctx.is_locked());
    assert_eq!(ctx.buffers().capacity(), MAX_SOCKETS);
    assert!(!ctx.buffers().is_used(0));
    assert!(!ctx.buffers().is_used(1));
    assert_eq!(ctx.socket_capacity(), MIN_SOCKET_SET);
    assert_eq!(ctx.socket_capacity(), ctx.buffers().capacity() + 2);
}

#[test]
fn default_context_is_a_new_context() {
    let ctx = EmbassyNetContext::default();
    assert!(!ctx.is_locked());
    assert!(!ctx.buffers().is_exhausted());
    assert!(!ctx.buffers().is_used(0));
}

#[test]
fn the_lock_has_one_holder_at_a_time() {
    let mut ctx = EmbassyNetContext::new();
    assert!(ctx.try_lock());
    assert!(ctx.is_locked());
    assert!(!ctx.try_lock());
    assert!(!ctx.try_lock());
    assert!(ctx.is_locked());
    ctx.unlock();
    assert!(!ctx.is_locked());
    assert!(ctx.try_lock());
}

#[test]
fn locking_leaves_the_buffers_alone() {
    let mut ctx = EmbassyNetContext::new();
    assert_eq!(ctx.buffers_mut().acquire(), Some(0));
    assert!(ctx.try_lock());
    assert!(ctx.buffers().is_used(0));
    ctx.unlock();
    assert!(ctx.buffers().is_used(0));
    assert!(!ctx.buffers().is_used(1));
}

#[test]
fn init_makes_a_used_context_new_again() {
    let mut ctx = EmbassyNetContext::new();
    assert!(ctx.try_lock());
    assert_eq!(ctx.buffers_mut().acquire(), Some(0));
    assert_eq!(ctx.buffers_mut().acquire(), Some(1));
    ctx.init();
    assert!(!ctx.is_locked());
    assert!(!ctx.buffers().is_used(0));
    assert!(!ctx.buffers().is_used(1));
}

#[test]
fn gatt_storage_hands_out_its_three_parts() {
    let mut gatt = EmbassyGatt::new("ble", 17u8);
    assert_eq!(*gatt.ble_context(), "ble");
    assert_eq!(*gatt.embedding(), 17);
    assert!(!gatt.enet_context().is_locked());
    assert!(gatt.enet_context_mut().try_lock());
    assert!(gatt.enet_context().is_locked());
    gatt.init("le", 18);
    assert!(!gatt.enet_context().is_locked());
    assert_eq!(*gatt.ble_context(), "le");
    assert_eq!(*gatt.embedding(), 18);
}

#[test]
fn ble_activation_runs_the_task_on_the_provided_controller() {
    let gatt = EmbassyGatt::new(5u16, ());
    let mut ble = EmbassyBle::new("provider", &gatt);
    assert_eq!(*ble.context(), 5);
    assert_eq!(*ble.provider_mut(), "provider");
    assert_eq!(ble.state(), BleState::Idle);
    assert_eq!(ble.run(), BleCommand::Provide);
    assert_eq!(ble.state(), BleState::Provisioning);
    assert_eq!(ble.advance(Event::Provided), BleStep::Run(BleCommand::Serve));
    assert_eq!(ble.state(), BleState::Running);
    assert_eq!(ble.advance(Event::TaskFinished(Err(4))), BleStep::Return(Err(4)));
    assert_eq!(ble.state(), BleState::Returned);
}

#[test]
fn ble_activation_can_be_started_again() {
    let context = 0u8;
    let mut ble = EmbassyBle::wrap((), &context);
    for result in [Ok(()), Err(1), Ok(())] {
        assert_eq!(ble.run(), BleCommand::Provide);
        assert_eq!(ble.advance(Event::Provided), BleStep::Run(BleCommand::Serve));
        assert_eq!(ble.advance(Event::TaskFinished(result)), BleStep::Return(result));
        assert_eq!(ble.state(), BleState::Returned);
    }
}

#[test]
fn ble_provider_failure_is_returned() {
    let context = 0u8;
    let mut ble = EmbassyBle::wrap((), &context);
    ble.run();
    assert_eq!(ble.advance(Event::ProvisioningFailed(8)), BleStep::Return(Err(8)));
    assert_eq!(ble.state(), BleState::Returned);
}

#[test]
fn ble_events_that_belong_to_no_step_change_nothing() {
    let context = 0u8;
    let mut ble = EmbassyBle::wrap((), &context);
    assert_eq!(ble.advance(Event::Provided), BleStep::Stray);
    assert_eq!(ble.advance(Event::TaskFinished(Ok(()))), BleStep::Stray);
    assert_eq!(ble.state(), BleState::Idle);
    ble.run();
    assert_eq!(ble.advance(Event::TaskFinished(Ok(()))), BleStep::Stray);
    assert_eq!(ble.state(), BleState::Provisioning);
    ble.advance(Event::Provided);
    assert_eq!(ble.advance(Event::Provided), BleStep::Stray);
    assert_eq!(ble.advance(Event::ProvisioningFailed(1)), BleStep::Stray);
    assert_eq!(ble.state(), BleState::Running);
    ble.advance(Event::TaskFinished(Ok(())));
    assert_eq!(ble.advance(Event::TaskFinished(Ok(()))), BleStep::Stray);
    assert_eq!(ble.state(), BleState::Returned);
}

#[test]
fn ble_adapter_splits_into_provider_and_activation() {
    let context = 3u8;
    let mut ble = EmbassyBle::wrap(String::from("p"), &context);
    {
        let (provider, state) = ble.split();
        provider.push('!');
        assert_eq!(state.begin(), BleCommand::Provide);
        assert_eq!(state.advance(Event::Provided), BleStep::Run(BleCommand::Serve));
    }
    assert_eq!(ble.provider_mut().as_str(), "p!");
    assert_eq!(ble.state(), BleState::Running);
    assert_eq!(*ble.context(), 3);
}
