//! The input stage of the camera controller: which actions move and turn the
//! camera, the keys they are bound to, and the movement direction and look
//! delta that the current action values ask for.
use vstd::prelude::*;
use crate::input::{
    InputAction, InputManager, InputState, InputValue, KeyCode, KEY_A, KEY_D, KEY_LEFT_SHIFT,
    KEY_S, KEY_SPACE, KEY_W,
};
use crate::vector::Vector3;

verus! {

/// 1 when `action` is bound and currently holds a pressed button, else 0.
pub open spec fn held(s: InputState, action: Seq<char>) -> int {
    if s.values.contains_key(action) && s.values[action] == InputValue::Button(true) {
        1
    } else {
        0
    }
}

/// The six directional actions and the look action of a camera controller.
pub struct CameraControllerSystem {
    move_forward: InputAction,
    move_backward: InputAction,
    move_left: InputAction,
    move_right: InputAction,
    move_up: InputAction,
    move_down: InputAction,
    look_action: InputAction,
}

impl CameraControllerSystem {
    pub closed spec fn forward(&self) -> Seq<char> {
        self.move_forward@
    }

    pub closed spec fn backward(&self) -> Seq<char> {
        self.move_backward@
    }

    pub closed spec fn left(&self) -> Seq<char> {
        self.move_left@
    }

    pub closed spec fn right(&self) -> Seq<char> {
        self.move_right@
    }

    pub closed spec fn up(&self) -> Seq<char> {
        self.move_up@
    }

    pub closed spec fn down(&self) -> Seq<char> {
        self.move_down@
    }

    pub closed spec fn look(&self) -> Seq<char> {
        self.look_action@
    }

    pub fn new() -> (r: CameraControllerSystem)
        ensures
            r.forward() == "MoveForward"@,
            r.backward() == "MoveBackward"@,
            r.left() == "MoveLeft"@,
            r.right() == "MoveRight"@,
            r.up() == "MoveUp"@,
            r.down() == "MoveDown"@,
            r.look() == "Look"@,
    {
        CameraControllerSystem {
            move_forward: InputAction::new("MoveForward"),
            move_backward: InputAction::new("MoveBackward"),
            move_left: InputAction::new("MoveLeft"),
            move_right: InputAction::new("MoveRight"),
            move_up: InputAction::new("MoveUp"),
            move_down: InputAction::new("MoveDown"),
            look_action: InputAction::new("Look"),
        }
    }

    /// Binds W, S, A, D, space and left shift to forward, backward, left,
    /// right, up and down, in that order, and raw mouse motion to the look action.
    pub fn setup_input(&self, input_manager: &mut InputManager)
        requires
            old(input_manager).wf(),
        ensures
            final(input_manager).wf(),
            final(input_manager)@ == old(input_manager)@.bind_key(KeyCode(KEY_W), self.forward()).bind_key(
                KeyCode(KEY_S),
                self.backward(),
            ).bind_key(KeyCode(KEY_A), self.left()).bind_key(KeyCode(KEY_D), self.right()).bind_key(
                KeyCode(KEY_SPACE),
                self.up(),
            ).bind_key(KeyCode(KEY_LEFT_SHIFT), self.down()).bind_mouse_motion(self.look()),
    {
        input_manager.bind_key(KeyCode(KEY_W), self.move_forward.clone());
        input_manager.bind_key(KeyCode(KEY_S), self.move_backward.clone());
        input_manager.bind_key(KeyCode(KEY_A), self.move_left.clone());
        input_manager.bind_key(KeyCode(KEY_D), self.move_right.clone());
        input_manager.bind_key(KeyCode(KEY_SPACE), self.move_up.clone());
        input_manager.bind_key(KeyCode(KEY_LEFT_SHIFT), self.move_down.clone());
        input_manager.bind_mouse_motion(self.look_action.clone());
    }

    /// Whether `action` holds a pressed button.
    fn is_held(input_manager: &InputManager, action: &InputAction) -> (r: i64)
        requires
            input_manager.wf(),
        ensures
            r == held(input_manager@, action@),
    {
        match input_manager.get_action_value(action) {
            Some(InputValue::Button(true)) => 1,
            _ => 0,
        }
    }

    /// The camera-local movement direction that the held actions ask for:
    /// forward is +z, left is +x, up is +y.  Each axis is the difference of
    /// its two opposing actions, so two opposing actions held together cancel.
    pub fn movement_direction(&self, input_manager: &InputManager) -> (r: Vector3)
        requires
            input_manager.wf(),
        ensures
            r.x == held(input_manager@, self.left()) - held(input_manager@, self.right()),
            r.y == held(input_manager@, self.up()) - held(input_manager@, self.down()),
            r.z == held(input_manager@, self.forward()) - held(input_manager@, self.backward()),
            held(input_manager@, self.left()) == held(input_manager@, self.right()) ==> r.x == 0,
            held(input_manager@, self.up()) == held(input_manager@, self.down()) ==> r.y == 0,
            held(input_manager@, self.forward()) == held(input_manager@, self.backward()) ==> r.z
                == 0,
    {
        let forward = Self::is_held(input_manager, &self.move_forward);
        let backward = Self::is_held(input_manager, &self.move_backward);
        let left = Self::is_held(input_manager, &self.move_left);
        let right = Self::is_held(input_manager, &self.move_right);
        let up = Self::is_held(input_manager, &self.move_up);
        let down = Self::is_held(input_manager, &self.move_down);
        Vector3::new(left - right, up - down, forward - backward)
    }

    /// The raw look delta, when the look action holds a non-zero motion value.
    pub fn look_delta(&self, input_manager: &InputManager) -> (r: Option<(i32, i32)>)
        requires
            input_manager.wf(),
        ensures
            r == (match input_manager@.values.get(self.look()) {
                Some(InputValue::Vector2(dx, dy)) => if dx != 0 || dy != 0 {
                    Some((dx, dy))
                } else {
                    None::<(i32, i32)>
                },
                _ => None::<(i32, i32)>,
            }),
    {
        match input_manager.get_action_value(&self.look_action) {
            Some(InputValue::Vector2(dx, dy)) => if dx != 0 || dy != 0 {
                Some((dx, dy))
            } else {
                None
            },
            _ => None,
        }
    }
}

} // verus!
