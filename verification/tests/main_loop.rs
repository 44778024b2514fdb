use engine::input::{InputState, KeyState};
use engine::main_loop::{
    apply_layer_changes, call_order, default_event_handler, route_event, CallOrder, EventResult,
    EventRoute,
};
use engine::scancode::Scancode;
use CallOrder::{Deferred, Standard};
use engine::window::Event;

#[test]
fn standard_layers_first_then_deferred_from_the_top() {
    let orders = vec![Standard, Deferred, Standard, Deferred];
    assert_eq!(call_order(&orders), vec![0, 2, 3, 1]);
}

#[test]
fn call_order_edge_cases() {
    assert_eq!(call_order(&vec![]), Vec::<usize>::new());
    assert_eq!(call_order(&vec![Deferred, Deferred, Deferred]), vec![2, 1, 0]);
    assert_eq!(call_order(&vec![Standard, Standard]), vec![0, 1]);
}

#[test]
fn call_order_calls_every_layer_once() {
    let orders = vec![Deferred, Standard, Deferred, Standard, Standard, Deferred];
    let mut order = call_order(&orders);
    assert_eq!(order.len(), orders.len());
    order.sort();
    assert_eq!(order, (0..orders.len()).collect::<Vec<_>>());
}

#[test]
fn routes_of_event_results() {
    assert_eq!(route_event(EventResult::Handled), EventRoute::NextEvent);
    assert_eq!(route_event(EventResult::Exit), EventRoute::Quit);
    assert_eq!(route_event(EventResult::Ignored), EventRoute::NextLayer);
}

#[test]
fn default_handler_quits_on_quit() {
    let mut inputs = InputState::new();
    assert_eq!(default_event_handler(&mut inputs, &Event::Quit), EventResult::Exit);
}

#[test]
fn default_handler_tracks_keys() {
    let mut inputs = InputState::new();
    let r = default_event_handler(&mut inputs, &Event::KeyDown { key: Scancode::W });
    assert_eq!(r, EventResult::Ignored);
    assert_eq!(inputs.key_state(Scancode::W), KeyState::Down);
    let r = default_event_handler(&mut inputs, &Event::KeyUp { key: Scancode::W });
    assert_eq!(r, EventResult::Ignored);
    assert_eq!(inputs.key_state(Scancode::W), KeyState::Up);
}

#[test]
fn default_handler_moves_the_wheel() {
    let mut inputs = InputState::new();
    inputs.set_wheel_position(10, 20);
    let r = default_event_handler(&mut inputs, &Event::Scroll { x: 1, y: -3 });
    assert_eq!(r, EventResult::Ignored);
    assert_eq!(inputs.wheel_delta(), (1, -3));
    assert_eq!(inputs.wheel_position(), (11, 17));
}

#[test]
fn default_handler_ignores_window_events() {
    let mut inputs = InputState::new();
    let r = default_event_handler(&mut inputs, &Event::Resize { width: 3, height: 4 });
    assert_eq!(r, EventResult::Ignored);
    let r = default_event_handler(&mut inputs, &Event::FocusLost);
    assert_eq!(r, EventResult::Ignored);
    assert_eq!(inputs.wheel_position(), (0, 0));
}

#[test]
fn layer_changes_pop_from_the_top_then_push() {
    let mut layers = vec![10, 20, 30, 40];
    let mut pop = vec![1, 3];
    let mut push = vec![50, 60];
    apply_layer_changes(&mut layers, &mut pop, &mut push);
    assert_eq!(layers, vec![10, 30, 50, 60]);
    assert!(pop.is_empty());
    assert!(push.is_empty());
}

#[test]
fn layer_changes_in_any_pop_order() {
    let mut layers = vec![1, 2, 3, 4, 5];
    let mut pop = vec![0, 4, 2];
    let mut push = vec![];
    apply_layer_changes(&mut layers, &mut pop, &mut push);
    assert_eq!(layers, vec![2, 4]);
}

#[test]
fn popping_one_position_twice_removes_two_layers() {
    let mut layers = vec![1, 2, 3];
    let mut pop = vec![1, 1];
    let mut push = vec![9];
    apply_layer_changes(&mut layers, &mut pop, &mut push);
    assert_eq!(layers, vec![1, 9]);
}
