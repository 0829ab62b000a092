use tao::event::{
    dispatch_turn, normalize_host_event, DeviceEvent, DeviceId, ElementState, Event,
    HostNotification, ModifiersState, StartCause, VirtualKeyCode, WindowEvent, WindowId,
};
use tao::event_loop::{
    decide_wait, escape_requests_exit, run_scripted, ControlFlow, EventLoopState, LoopAction,
    LoopPhase, WaitDecision,
};

#[test]
fn wait_decisions_follow_the_control_flow() {
    assert_eq!(decide_wait(&ControlFlow::Poll), WaitDecision::PollNow);
    assert_eq!(decide_wait(&ControlFlow::Wait), WaitDecision::WaitForNotification);
    assert_eq!(decide_wait(&ControlFlow::WaitUntil(250)), WaitDecision::WaitWithDeadline(250));
    assert_eq!(decide_wait(&ControlFlow::Exit), WaitDecision::StopLoop);
}

#[test]
fn active_loop_dispatches_batches() {
    let mut state = EventLoopState::new();
    assert_eq!(state.next_action(), LoopAction::DispatchBatch(WaitDecision::PollNow));
    state.set_control_flow(ControlFlow::Wait);
    assert_eq!(
        state.next_action(),
        LoopAction::DispatchBatch(WaitDecision::WaitForNotification)
    );
    assert_eq!(state.phase, LoopPhase::Active);
}

#[test]
fn exit_is_terminal_for_the_loop() {
    let mut state = EventLoopState::new();
    assert_eq!(state.next_action(), LoopAction::DispatchBatch(WaitDecision::PollNow));

    state.set_control_flow(ControlFlow::Exit);
    assert_eq!(state.next_action(), LoopAction::EmitLoopDestroyed);
    assert_eq!(state.phase, LoopPhase::Finished);

    // Writes after the loop returned change nothing observable: no further
    // batch is ever dispatched.
    state.set_control_flow(ControlFlow::Poll);
    assert_eq!(state.next_action(), LoopAction::AlreadyFinished);
    state.set_control_flow(ControlFlow::Wait);
    assert_eq!(state.next_action(), LoopAction::AlreadyFinished);
}

#[test]
fn a_scripted_run_stops_dispatching_once_exit_is_written() {
    let mut state = EventLoopState::new();
    let script = vec![ControlFlow::Wait, ControlFlow::Exit, ControlFlow::Poll, ControlFlow::Poll];
    let actions = run_scripted(&mut state, &script);
    assert_eq!(
        actions,
        vec![
            LoopAction::DispatchBatch(WaitDecision::PollNow),
            LoopAction::DispatchBatch(WaitDecision::WaitForNotification),
            LoopAction::EmitLoopDestroyed,
            LoopAction::AlreadyFinished,
        ]
    );
    assert_eq!(state.phase, LoopPhase::Finished);
}

#[test]
fn released_escape_drives_exit_but_pressed_does_not() {
    let released = WindowEvent::KeyboardInput {
        state: ElementState::Released,
        virtual_keycode: Some(VirtualKeyCode::Escape),
        scancode: 1,
    };
    let pressed = WindowEvent::KeyboardInput {
        state: ElementState::Pressed,
        virtual_keycode: Some(VirtualKeyCode::Escape),
        scancode: 1,
    };

    let mut flow = ControlFlow::Wait;
    escape_requests_exit(&pressed, &mut flow);
    assert_eq!(flow, ControlFlow::Wait);

    escape_requests_exit(&released, &mut flow);
    assert_eq!(flow, ControlFlow::Exit);
}

#[test]
fn other_keys_leave_the_control_flow_alone() {
    let other = WindowEvent::KeyboardInput {
        state: ElementState::Released,
        virtual_keycode: Some(VirtualKeyCode::Space),
        scancode: 57,
    };
    let mut flow = ControlFlow::Poll;
    escape_requests_exit(&other, &mut flow);
    assert_eq!(flow, ControlFlow::Poll);
    escape_requests_exit(&WindowEvent::CloseRequested, &mut flow);
    assert_eq!(flow, ControlFlow::Poll);
}

#[test]
fn press_and_release_of_one_button_stay_distinguishable() {
    let press: Event<()> =
        normalize_host_event(&HostNotification::Button { device: 4, button: 1, pressed: true });
    let release: Event<()> =
        normalize_host_event(&HostNotification::Button { device: 4, button: 1, pressed: false });

    assert_eq!(
        press,
        Event::DeviceEvent {
            device_id: DeviceId(4),
            event: DeviceEvent::Button { button: 1, state: ElementState::Pressed },
        }
    );
    assert_eq!(
        release,
        Event::DeviceEvent {
            device_id: DeviceId(4),
            event: DeviceEvent::Button { button: 1, state: ElementState::Released },
        }
    );
    assert_ne!(press, release);
}

#[test]
fn a_turn_is_bounded_by_its_batching_markers() {
    let click_release = vec![
        HostNotification::Button { device: 4, button: 1, pressed: true },
        HostNotification::Button { device: 4, button: 1, pressed: false },
    ];
    let turn: Vec<Event<()>> = dispatch_turn(StartCause::Poll, &click_release);
    assert_eq!(turn.len(), 4);
    assert_eq!(turn[0], Event::NewEvents(StartCause::Poll));
    assert_eq!(
        turn[1],
        Event::DeviceEvent {
            device_id: DeviceId(4),
            event: DeviceEvent::Button { button: 1, state: ElementState::Pressed },
        }
    );
    assert_eq!(
        turn[2],
        Event::DeviceEvent {
            device_id: DeviceId(4),
            event: DeviceEvent::Button { button: 1, state: ElementState::Released },
        }
    );
    assert_eq!(turn[3], Event::MainEventsCleared);
}

#[test]
fn key_events_keep_their_window_state_and_scancode() {
    let e: Event<()> = normalize_host_event(&HostNotification::Key {
        window: 9,
        scancode: 53,
        virtual_keycode: Some(VirtualKeyCode::Escape),
        pressed: false,
    });
    assert_eq!(
        e,
        Event::WindowEvent {
            window_id: WindowId(9),
            event: WindowEvent::KeyboardInput {
                state: ElementState::Released,
                virtual_keycode: Some(VirtualKeyCode::Escape),
                scancode: 53,
            },
        }
    );
}

#[test]
fn released_escape_ends_the_reference_application() {
    let mut state = EventLoopState::new();
    let mut flow = ControlFlow::Wait;

    // One turn of the loop: the host reports a press and then a release of
    // the Escape key; the reference policy reacts to window events.
    let keys = vec![
        HostNotification::Key {
            window: 1,
            scancode: 53,
            virtual_keycode: Some(VirtualKeyCode::Escape),
            pressed: true,
        },
        HostNotification::Key {
            window: 1,
            scancode: 53,
            virtual_keycode: Some(VirtualKeyCode::Escape),
            pressed: false,
        },
    ];
    let turn: Vec<Event<()>> = dispatch_turn(StartCause::WaitCancelled, &keys);
    for event in &turn {
        if let Event::WindowEvent { event, .. } = event {
            escape_requests_exit(event, &mut flow);
        }
    }
    assert_eq!(flow, ControlFlow::Exit);

    // The write takes effect at the next wait-decision point: the loop
    // tears down and never dispatches again.
    state.set_control_flow(flow);
    assert_eq!(state.next_action(), LoopAction::EmitLoopDestroyed);
    assert_eq!(state.next_action(), LoopAction::AlreadyFinished);
}

#[test]
fn close_motion_and_modifier_notifications_normalize() {
    let close: Event<()> = normalize_host_event(&HostNotification::CloseRequested { window: 2 });
    assert_eq!(
        close,
        Event::WindowEvent { window_id: WindowId(2), event: WindowEvent::CloseRequested }
    );

    let motion: Event<()> = normalize_host_event(&HostNotification::MouseMotion {
        device: 3,
        delta_x: -5,
        delta_y: 12,
    });
    assert_eq!(
        motion,
        Event::DeviceEvent {
            device_id: DeviceId(3),
            event: DeviceEvent::MouseMotion { delta_x: -5, delta_y: 12 },
        }
    );

    let mods: Event<()> = normalize_host_event(&HostNotification::ModifiersChanged {
        window: 2,
        shift: true,
        ctrl: false,
        alt: true,
        logo: false,
    });
    assert_eq!(
        mods,
        Event::WindowEvent {
            window_id: WindowId(2),
            event: WindowEvent::ModifiersChanged(ModifiersState {
                shift: true,
                ctrl: false,
                alt: true,
                logo: false,
            }),
        }
    );
}
