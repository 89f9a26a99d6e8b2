use hengine::camera_controller::CameraControllerSystem;
use hengine::input::{
    ActionMap, DeviceInput, InputAction, InputManager, InputValue, KeyCode, MouseButton,
    WindowInput, KEY_A, KEY_D, KEY_LEFT_SHIFT, KEY_S, KEY_SPACE, KEY_W,
};
use hengine::vector::Vector3;

fn action(name: &str) -> InputAction {
    InputAction::new(name)
}

fn key(code: u32, pressed: bool) -> WindowInput {
    WindowInput::Keyboard { key: KeyCode(code), pressed }
}

#[test]
fn binding_defaults_to_released_button() {
    let mut im = InputManager::new();
    im.bind_key(KeyCode(KEY_W), action("MoveForward"));
    assert_eq!(im.get_action_value(&action("MoveForward")), Some(InputValue::Button(false)));
    assert_eq!(InputValue::default(), InputValue::Button(false));
}

#[test]
fn unbound_action_is_absent() {
    let im = InputManager::new();
    assert_eq!(im.get_action_value(&action("Jump")), None);
}

#[test]
fn key_press_and_release_write_bound_action() {
    let mut im = InputManager::new();
    im.bind_key(KeyCode(KEY_W), action("MoveForward"));
    let notes = im.process_window_event(&key(KEY_W, true));
    assert_eq!(notes, vec![(action("MoveForward"), InputValue::Button(true))]);
    assert_eq!(im.get_action_value(&action("MoveForward")), Some(InputValue::Button(true)));
    im.process_window_event(&key(KEY_W, false));
    assert_eq!(im.get_action_value(&action("MoveForward")), Some(InputValue::Button(false)));
}

#[test]
fn unbound_key_is_ignored() {
    let mut im = InputManager::new();
    im.bind_key(KeyCode(KEY_W), action("MoveForward"));
    let notes = im.process_window_event(&key(KEY_S, true));
    assert!(notes.is_empty());
    assert_eq!(im.get_action_value(&action("MoveForward")), Some(InputValue::Button(false)));
}

#[test]
fn mouse_button_writes_bound_action() {
    let mut im = InputManager::new();
    im.bind_mouse_button(MouseButton::Left, action("Fire"));
    let notes = im.process_window_event(&WindowInput::MouseInput {
        button: MouseButton::Left,
        pressed: true,
    });
    assert_eq!(notes, vec![(action("Fire"), InputValue::Button(true))]);
    assert_eq!(im.get_action_value(&action("Fire")), Some(InputValue::Button(true)));
    let notes = im.process_window_event(&WindowInput::MouseInput {
        button: MouseButton::Other(7),
        pressed: true,
    });
    assert!(notes.is_empty());
}

#[test]
fn cursor_moves_write_no_action() {
    let mut im = InputManager::new();
    im.bind_mouse_motion(action("Look"));
    let notes = im.process_window_event(&WindowInput::CursorMoved { x: 10, y: 20 });
    assert!(notes.is_empty());
    assert_eq!(im.get_action_value(&action("Look")), Some(InputValue::Vector2(0, 0)));
}

#[test]
fn rebinding_a_key_moves_it_to_the_later_action() {
    let mut im = InputManager::new();
    im.bind_key(KeyCode(KEY_W), action("MoveForward"));
    im.bind_key(KeyCode(KEY_W), action("Jump"));
    let notes = im.process_window_event(&key(KEY_W, true));
    assert_eq!(notes, vec![(action("Jump"), InputValue::Button(true))]);
    assert_eq!(im.get_action_value(&action("Jump")), Some(InputValue::Button(true)));
    assert_eq!(im.get_action_value(&action("MoveForward")), Some(InputValue::Button(false)));
}

#[test]
fn mouse_motion_is_broadcast_to_every_motion_action() {
    let mut im = InputManager::new();
    im.bind_mouse_motion(action("Look"));
    im.bind_mouse_motion(action("Aim"));
    im.bind_key(KeyCode(KEY_W), action("MoveForward"));
    let notes = im.process_device_event(&DeviceInput::MouseMotion { dx: 3, dy: -4 });
    assert_eq!(notes.len(), 2);
    assert!(notes.contains(&(action("Look"), InputValue::Vector2(3, -4))));
    assert!(notes.contains(&(action("Aim"), InputValue::Vector2(3, -4))));
    assert_eq!(im.get_action_value(&action("Look")), Some(InputValue::Vector2(3, -4)));
    assert_eq!(im.get_action_value(&action("MoveForward")), Some(InputValue::Button(false)));
    assert!(im.process_device_event(&DeviceInput::Other).is_empty());
}

#[test]
fn update_resets_motion_and_keeps_buttons() {
    let mut im = InputManager::new();
    im.bind_mouse_motion(action("Look"));
    im.bind_key(KeyCode(KEY_W), action("MoveForward"));
    im.process_window_event(&key(KEY_W, true));
    im.process_device_event(&DeviceInput::MouseMotion { dx: 5, dy: 6 });
    im.update();
    assert_eq!(im.get_action_value(&action("Look")), Some(InputValue::Vector2(0, 0)));
    assert_eq!(im.get_action_value(&action("MoveForward")), Some(InputValue::Button(true)));
    im.update();
    assert_eq!(im.get_action_value(&action("Look")), Some(InputValue::Vector2(0, 0)));
    assert_eq!(im.get_action_value(&action("MoveForward")), Some(InputValue::Button(true)));
}

#[test]
fn action_maps_collect_actions() {
    let mut im = InputManager::new();
    let map = im.create_action_map("Flight");
    map.add_action(action("MoveForward"));
    map.add_action(action("MoveForward"));
    map.set_enabled(false);
    let mut standalone = ActionMap::new("Menu");
    standalone.add_action(action("Select"));
    standalone.set_enabled(true);
}

#[test]
fn camera_bindings_drive_movement_direction() {
    let camera = CameraControllerSystem::new();
    let mut im = InputManager::new();
    camera.setup_input(&mut im);
    assert_eq!(camera.movement_direction(&im), Vector3::new(0, 0, 0));
    im.process_window_event(&key(KEY_W, true));
    assert_eq!(camera.movement_direction(&im), Vector3::new(0, 0, 1));
    im.process_window_event(&key(KEY_A, true));
    assert_eq!(camera.movement_direction(&im), Vector3::new(1, 0, 1));
    im.process_window_event(&key(KEY_SPACE, true));
    assert_eq!(camera.movement_direction(&im), Vector3::new(1, 1, 1));
}

#[test]
fn opposing_actions_cancel() {
    let camera = CameraControllerSystem::new();
    let mut im = InputManager::new();
    camera.setup_input(&mut im);
    for code in [KEY_W, KEY_S, KEY_A, KEY_D, KEY_SPACE, KEY_LEFT_SHIFT] {
        im.process_window_event(&key(code, true));
    }
    assert_eq!(camera.movement_direction(&im), Vector3::new(0, 0, 0));
    im.process_window_event(&key(KEY_S, false));
    im.process_window_event(&key(KEY_A, false));
    assert_eq!(camera.movement_direction(&im), Vector3::new(-1, 0, 1));
}

#[test]
fn look_delta_reads_motion_before_the_frame_ends() {
    let camera = CameraControllerSystem::new();
    let mut im = InputManager::new();
    camera.setup_input(&mut im);
    assert_eq!(camera.look_delta(&im), None);
    im.process_device_event(&DeviceInput::MouseMotion { dx: -2, dy: 9 });
    assert_eq!(camera.look_delta(&im), Some((-2, 9)));
    im.update();
    assert_eq!(camera.look_delta(&im), None);
}
