use rs_matter_embassy::nal::{create_net_config, ConfigV4, ConfigV6};
use rs_matter_embassy::net::HardwareAddress;
use rs_matter_embassy::wifi::{
    seed_from_bytes, EmbassyWifi, PreexistingWifi, RunCommand, RunEvent, RunState, RunStep,
    WifiDriverProvider,
};
use rs_matter_embassy::wireless::EmbassyNetContext;

type Event = RunEvent<u32>;

const MAC: [u8; 6] = [0x52, 0x74, 0xf2, 0xb1, 0xa8, 0x7f];

fn launch(mac: [u8; 6], seed: u64) -> RunStep<u32> {
    RunStep::Run(RunCommand::Launch {
        config: create_net_config(&HardwareAddress::Ethernet(mac)),
        seed,
    })
}

fn run_until_racing(wifi: &mut EmbassyWifi<()>, ctx: &mut EmbassyNetContext) {
    assert_eq!(wifi.run(ctx), RunCommand::Provide);
    assert_eq!(
        wifi.advance(ctx, Event::Provided { mac: MAC }),
        RunStep::Run(RunCommand::DrawSeed)
    );
    assert_eq!(wifi.advance(ctx, Event::Seed([7, 0, 0, 0, 0, 0, 0, 0])), launch(MAC, 7));
    assert_eq!(wifi.state(), RunState::Racing);
}

#[test]
fn seed_is_little_endian() {
    assert_eq!(seed_from_bytes(&[1, 0, 0, 0, 0, 0, 0, 0]), 1);
    assert_eq!(seed_from_bytes(&[0, 1, 0, 0, 0, 0, 0, 0]), 256);
    assert_eq!(seed_from_bytes(&[0, 0, 0, 0, 0, 0, 0, 0x80]), 1 << 63);
    assert_eq!(seed_from_bytes(&[0xff; 8]), u64::MAX);
    assert_eq!(seed_from_bytes(&[0; 8]), 0);
    let bytes = [0x12, 0x34, 0x56, 0x78, 0x9a, 0xbc, 0xde, 0xf0];
    assert_eq!(seed_from_bytes(&bytes), 0xf0de_bc9a_7856_3412);
    assert_eq!(seed_from_bytes(&bytes), u64::from_le_bytes(bytes));
}

#[test]
fn an_activation_walks_through_its_states() {
    let mut ctx = EmbassyNetContext::new();
    let mut wifi = EmbassyWifi::wrap(());
    assert_eq!(wifi.state(), RunState::Idle);
    assert!(!wifi.holds_resources());

    assert_eq!(wifi.run(&mut ctx), RunCommand::Provide);
    assert_eq!(wifi.state(), RunState::Acquiring { driver: None });
    assert!(!ctx.is_locked());

    assert_eq!(
        wifi.advance(&mut ctx, Event::Provided { mac: MAC }),
        RunStep::Run(RunCommand::DrawSeed)
    );
    assert_eq!(wifi.state(), RunState::Configuring { mac: MAC });
    assert!(wifi.holds_resources());
    assert!(ctx.is_locked());

    let step = wifi.advance(&mut ctx, Event::Seed([0x78, 0x56, 0x34, 0x12, 0, 0, 0, 0]));
    match step {
        RunStep::Run(RunCommand::Launch { config, seed }) => {
            assert_eq!(seed, 0x1234_5678);
            assert_eq!(config.ipv4, ConfigV4::Dhcp);
            match config.ipv6 {
                ConfigV6::Static(s) => {
                    assert_eq!(
                        s.address.address.octets(),
                        [0xfe, 0x80, 0, 0, 0, 0, 0, 0, 0x50, 0x74, 0xf2, 0xff, 0xfe, 0xb1, 0xa8, 0x7f]
                    );
                    assert_eq!(s.address.prefix_len, 10);
                }
                ConfigV6::Off => panic!("IPv6 must be configured"),
            }
        }
        other => panic!("unexpected step {:?}", other),
    }
    assert_eq!(wifi.state(), RunState::Racing);
    assert!(ctx.is_locked());

    assert_eq!(wifi.advance(&mut ctx, Event::TaskFinished(Ok(()))), RunStep::Return(Ok(())));
    assert_eq!(wifi.state(), RunState::Returned);
    assert!(!wifi.holds_resources());
    assert!(!ctx.is_locked());
}

#[test]
fn the_result_of_the_task_is_returned_unchanged() {
    let mut ctx = EmbassyNetContext::new();
    let mut wifi = EmbassyWifi::wrap(());
    run_until_racing(&mut wifi, &mut ctx);
    assert_eq!(
        wifi.advance(&mut ctx, Event::TaskFinished(Err(42))),
        RunStep::Return(Err(42))
    );
    assert!(!ctx.is_locked());
}

#[test]
fn an_end_of_the_stack_loop_counts_as_success() {
    let mut ctx = EmbassyNetContext::new();
    let mut wifi = EmbassyWifi::wrap(());
    run_until_racing(&mut wifi, &mut ctx);
    assert_eq!(wifi.advance(&mut ctx, Event::StackExited), RunStep::Return(Ok(())));
    assert_eq!(wifi.state(), RunState::Returned);
    assert!(!ctx.is_locked());
}

#[test]
fn a_failure_of_the_provider_is_returned_before_the_lock_is_asked_for() {
    let mut ctx = EmbassyNetContext::new();
    let mut wifi = EmbassyWifi::wrap(());
    assert_eq!(wifi.run(&mut ctx), RunCommand::Provide);
    assert_eq!(
        wifi.advance(&mut ctx, Event::ProvisioningFailed(9)),
        RunStep::Return(Err(9))
    );
    assert_eq!(wifi.state(), RunState::Returned);
    assert!(!ctx.is_locked());
}

#[test]
fn run_can_be_started_again_however_it_returned() {
    let endings: [fn() -> Event; 3] = [
        || Event::TaskFinished(Ok(())),
        || Event::TaskFinished(Err(1)),
        || Event::StackExited,
    ];
    for ending in endings {
        let mut ctx = EmbassyNetContext::new();
        let mut wifi = EmbassyWifi::wrap(());
        run_until_racing(&mut wifi, &mut ctx);
        wifi.advance(&mut ctx, ending());
        assert_eq!(wifi.state(), RunState::Returned);
        assert!(!ctx.is_locked());
        run_until_racing(&mut wifi, &mut ctx);
        assert!(ctx.is_locked());
    }
}

#[test]
fn a_second_activation_waits_until_the_first_returns() {
    let mut ctx = EmbassyNetContext::new();
    let mut first = EmbassyWifi::wrap(());
    let mut second = EmbassyWifi::wrap(());
    let other_mac = [2, 0, 0, 0, 0, 1];

    run_until_racing(&mut first, &mut ctx);
    assert_eq!(second.run(&mut ctx), RunCommand::Provide);
    assert!(ctx.is_locked());
    assert_eq!(
        second.advance(&mut ctx, Event::Provided { mac: other_mac }),
        RunStep::Run(RunCommand::AwaitResources)
    );
    assert_eq!(second.state(), RunState::Acquiring { driver: Some(other_mac) });
    assert!(!second.holds_resources());
    assert_eq!(
        second.advance(&mut ctx, Event::Wake),
        RunStep::Run(RunCommand::AwaitResources)
    );
    assert!(first.holds_resources());

    assert_eq!(first.advance(&mut ctx, Event::TaskFinished(Err(3))), RunStep::Return(Err(3)));
    assert!(!ctx.is_locked());
    assert_eq!(second.advance(&mut ctx, Event::Wake), RunStep::Run(RunCommand::DrawSeed));
    assert!(second.holds_resources());
    assert!(!first.holds_resources());
    assert!(ctx.is_locked());
    assert_eq!(second.advance(&mut ctx, Event::Seed([0; 8])), launch(other_mac, 0));

    assert_eq!(first.run(&mut ctx), RunCommand::Provide);
    assert_eq!(
        first.advance(&mut ctx, Event::Provided { mac: MAC }),
        RunStep::Run(RunCommand::AwaitResources)
    );
    assert!(ctx.is_locked());
}

#[test]
fn abandoning_gives_the_lock_back_only_if_it_was_held() {
    let mut ctx = EmbassyNetContext::new();
    let mut first = EmbassyWifi::wrap(());
    let mut second = EmbassyWifi::wrap(());
    run_until_racing(&mut first, &mut ctx);
    second.run(&mut ctx);
    second.advance(&mut ctx, Event::Provided { mac: MAC });

    second.abandon(&mut ctx);
    assert_eq!(second.state(), RunState::Idle);
    assert!(ctx.is_locked());

    first.abandon(&mut ctx);
    assert_eq!(first.state(), RunState::Idle);
    assert!(!ctx.is_locked());
}

#[test]
fn starting_over_gives_up_the_activation_under_way() {
    let mut ctx = EmbassyNetContext::new();
    let mut wifi = EmbassyWifi::wrap(());
    run_until_racing(&mut wifi, &mut ctx);
    assert!(ctx.is_locked());
    assert_eq!(wifi.run(&mut ctx), RunCommand::Provide);
    assert_eq!(wifi.state(), RunState::Acquiring { driver: None });
    assert!(!ctx.is_locked());
}

#[test]
fn events_that_belong_to_no_step_change_nothing() {
    let mut ctx = EmbassyNetContext::new();
    let mut wifi = EmbassyWifi::wrap(());
    for event in [
        Event::Provided { mac: MAC },
        Event::ProvisioningFailed(1),
        Event::Wake,
        Event::Seed([0; 8]),
        Event::TaskFinished(Ok(())),
        Event::StackExited,
    ] {
        assert_eq!(wifi.advance(&mut ctx, event), RunStep::Stray);
        assert_eq!(wifi.state(), RunState::Idle);
        assert!(!ctx.is_locked());
    }

    wifi.run(&mut ctx);
    for event in [Event::Wake, Event::Seed([0; 8]), Event::TaskFinished(Ok(())), Event::StackExited] {
        assert_eq!(wifi.advance(&mut ctx, event), RunStep::Stray);
        assert_eq!(wifi.state(), RunState::Acquiring { driver: None });
    }

    wifi.advance(&mut ctx, Event::Provided { mac: MAC });
    for event in [
        Event::Provided { mac: MAC },
        Event::ProvisioningFailed(1),
        Event::Wake,
        Event::TaskFinished(Ok(())),
        Event::StackExited,
    ] {
        assert_eq!(wifi.advance(&mut ctx, event), RunStep::Stray);
        assert_eq!(wifi.state(), RunState::Configuring { mac: MAC });
        assert!(ctx.is_locked());
    }

    wifi.advance(&mut ctx, Event::Seed([0; 8]));
    for event in [
        Event::Provided { mac: MAC },
        Event::ProvisioningFailed(1),
        Event::Wake,
        Event::Seed([0; 8]),
    ] {
        assert_eq!(wifi.advance(&mut ctx, event), RunStep::Stray);
        assert_eq!(wifi.state(), RunState::Racing);
        assert!(ctx.is_locked());
    }
}

#[test]
fn running_leaves_the_socket_buffers_alone() {
    let mut ctx = EmbassyNetContext::new();
    assert_eq!(ctx.buffers_mut().acquire(), Some(0));
    let mut wifi = EmbassyWifi::wrap(());
    run_until_racing(&mut wifi, &mut ctx);
    assert!(ctx.buffers().is_used(0));
    assert!(!ctx.buffers().is_used(1));
    wifi.advance(&mut ctx, Event::StackExited);
    assert!(ctx.buffers().is_used(0));
    assert!(!ctx.buffers().is_used(1));
}

#[test]
fn preexisting_provider_lends_the_same_pair_every_time() {
    let mut provider = PreexistingWifi(10u32, String::from("ctl"));
    {
        let (driver, controller) = provider.provide();
        assert_eq!(*driver, 10);
        assert_eq!(controller.as_str(), "ctl");
        *driver += 1;
        controller.push('!');
    }
    let (driver, controller) = provider.provide();
    assert_eq!(*driver, 11);
    assert_eq!(controller.as_str(), "ctl!");
    assert_eq!(provider.0, 11);
}

#[test]
fn the_adapter_hands_out_its_provider() {
    let mut wifi = EmbassyWifi::new(PreexistingWifi(1u8, 2u8));
    let (driver, controller) = wifi.provider_mut().provide();
    assert_eq!((*driver, *controller), (1, 2));
    *controller = 9;
    assert_eq!(wifi.provider_mut().1, 9);
    assert_eq!(wifi.state(), RunState::Idle);
}

fn provide_twice<P: WifiDriverProvider<Driver = u32, Controller = u8>>(mut provider: P) -> (u32, u8) {
    {
        let (driver, controller) = provider.provide();
        *driver += 1;
        *controller += 1;
    }
    let (driver, controller) = provider.provide();
    (*driver, *controller)
}

#[test]
fn a_borrowed_provider_provides_from_the_provider_itself() {
    let mut provider = PreexistingWifi(10u32, 20u8);
    assert_eq!(provide_twice(&mut provider), (11, 21));
    assert_eq!((provider.0, provider.1), (11, 21));
    assert_eq!(provide_twice(provider), (12, 22));
}

#[test]
fn the_adapter_splits_into_provider_and_activation() {
    let mut ctx = EmbassyNetContext::new();
    let mut wifi = EmbassyWifi::wrap(PreexistingWifi(1u8, 2u8));
    {
        let (provider, state) = wifi.split();
        assert_eq!(state.begin(&mut ctx), RunCommand::Provide);
        let (driver, _controller) = provider.provide();
        *driver = 5;
        assert_eq!(
            state.advance(&mut ctx, Event::Provided { mac: MAC }),
            RunStep::Run(RunCommand::DrawSeed)
        );
        assert!(state.holds_resources());
    }
    assert_eq!(wifi.state(), RunState::Configuring { mac: MAC });
    assert_eq!(wifi.provider_mut().0, 5);
    assert!(ctx.is_locked());
    {
        let (_provider, state) = wifi.split();
        state.abandon(&mut ctx);
    }
    assert_eq!(wifi.state(), RunState::Idle);
    assert!(!ctx.is_locked());
}
