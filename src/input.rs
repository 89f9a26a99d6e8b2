//! The input manager: named actions, their current values, and the bindings
//! from physical controls to actions.
use vstd::prelude::*;
use crate::table::{
    has_key, lemma_table_entry, lemma_table_keys, lemma_table_map_values, lemma_table_push,
    lemma_table_update, table_map, unique_keys,
};

verus! {

/// USB HID keyboard usage ID of the A key.
pub const KEY_A: u32 = 0x04;

/// USB HID keyboard usage ID of the D key.
pub const KEY_D: u32 = 0x07;

/// USB HID keyboard usage ID of the S key.
pub const KEY_S: u32 = 0x16;

/// USB HID keyboard usage ID of the W key.
pub const KEY_W: u32 = 0x1A;

/// USB HID keyboard usage ID of the space bar.
pub const KEY_SPACE: u32 = 0x2C;

/// USB HID keyboard usage ID of the left shift key.
pub const KEY_LEFT_SHIFT: u32 = 0xE1;

/// A physical keyboard key, identified by its USB HID keyboard usage ID.
#[derive(Clone, Copy, Debug, PartialEq, Eq, Hash, Structural)]
pub struct KeyCode(pub u32);

/// A physical mouse button.
#[derive(Clone, Copy, Debug, PartialEq, Eq, Hash, Structural)]
pub enum MouseButton {
    Left,
    Right,
    Middle,
    Back,
    Forward,
    Other(u16),
}

/// The stable name of a logical control, such as "MoveForward".
#[derive(Debug, PartialEq, Eq, Hash)]
pub struct InputAction(pub String);

impl View for InputAction {
    type V = Seq<char>;

    open spec fn view(&self) -> Seq<char> {
        self.0@
    }
}

impl Clone for InputAction {
    fn clone(&self) -> (r: InputAction)
        ensures
            r == *self,
    {
        InputAction(self.0.clone())
    }
}

impl InputAction {
    pub fn new(name: &str) -> (r: InputAction)
        ensures
            r@ == name@,
    {
        InputAction(name.to_owned())
    }
}

/// The value of an action: a button state, a scalar, or a two-dimensional
/// motion delta in raw device counts.
#[derive(Clone, Copy, Debug, PartialEq, Eq, Structural)]
pub enum InputValue {
    Button(bool),
    Scalar(i32),
    Vector2(i32, i32),
}

impl Default for InputValue {
    fn default() -> (r: InputValue)
        ensures
            r == InputValue::Button(false),
    {
        InputValue::Button(false)
    }
}

/// A named group of actions that can be switched on and off as a whole.
pub struct ActionMap {
    name: String,
    actions: Vec<InputAction>,
    enabled: bool,
}

/// What an action map holds.
pub struct ActionMapView {
    pub name: Seq<char>,
    pub actions: Set<Seq<char>>,
    pub enabled: bool,
}

impl View for ActionMap {
    type V = ActionMapView;

    closed spec fn view(&self) -> ActionMapView {
        ActionMapView {
            name: self.name@,
            actions: self.actions@.map_values(|a: InputAction| a@).to_set(),
            enabled: self.enabled,
        }
    }
}

impl ActionMap {
    pub fn new(name: &str) -> (r: ActionMap)
        ensures
            r@ == (ActionMapView { name: name@, actions: Set::empty(), enabled: true }),
    {
        let r = ActionMap { name: name.to_owned(), actions: Vec::new(), enabled: true };
        assert(r.actions@.map_values(|a: InputAction| a@).to_set() =~= Set::empty());
        r
    }

    pub fn add_action(&mut self, action: InputAction)
        ensures
            final(self)@ == (ActionMapView {
                actions: old(self)@.actions.insert(action@),
                ..old(self)@
            }),
    {
        let ghost names = self.actions@.map_values(|a: InputAction| a@);
        let mut i: usize = 0;
        while i < self.actions.len()
            invariant
                0 <= i <= self.actions@.len(),
                names == self.actions@.map_values(|a: InputAction| a@),
                forall|j: int| 0 <= j < i ==> names[j] != action@,
            decreases self.actions@.len() - i,
        {
            if self.actions[i].0 == action.0 {
                assert(names[i as int] == action@);
                assert(names.to_set().insert(action@) =~= names.to_set());
                return;
            }
            i += 1;
        }
        self.actions.push(action);
        assert(self.actions@.map_values(|a: InputAction| a@) =~= names.push(action@));
        proof {
            names.lemma_push_to_set_commute(action@);
        }
    }

    pub fn set_enabled(&mut self, enabled: bool)
        ensures
            final(self)@ == (ActionMapView { enabled, ..old(self)@ }),
    {
        self.enabled = enabled;
    }
}

/// A window event, reduced to what the input manager reads.
#[derive(Clone, Copy, Debug, PartialEq, Eq, Structural)]
pub enum WindowInput {
    Keyboard { key: KeyCode, pressed: bool },
    MouseInput { button: MouseButton, pressed: bool },
    CursorMoved { x: i32, y: i32 },
    Other,
}

/// A raw device event, reduced to what the input manager reads.
#[derive(Clone, Copy, Debug, PartialEq, Eq, Structural)]
pub enum DeviceInput {
    MouseMotion { dx: i32, dy: i32 },
    Other,
}

/// What an input manager holds.
pub struct InputState {
    /// Action maps by name.
    pub maps: Map<Seq<char>, ActionMapView>,
    /// The last value written to each bound action.
    pub values: Map<Seq<char>, InputValue>,
    /// The action each bound key drives.
    pub keys: Map<KeyCode, Seq<char>>,
    /// The action each bound mouse button drives.
    pub buttons: Map<MouseButton, Seq<char>>,
    pub mouse_position: (i32, i32),
    pub mouse_delta: (i32, i32),
}

/// A motion value takes the delta `(dx, dy)`; any other value is kept.
pub open spec fn moved_to(v: InputValue, dx: i32, dy: i32) -> InputValue {
    match v {
        InputValue::Vector2(_, _) => InputValue::Vector2(dx, dy),
        _ => v,
    }
}

impl InputState {
    /// A manager with no binding, no action and no map.
    pub open spec fn initial() -> InputState {
        InputState {
            maps: Map::empty(),
            values: Map::empty(),
            keys: Map::empty(),
            buttons: Map::empty(),
            mouse_position: (0, 0),
            mouse_delta: (0, 0),
        }
    }

    pub open spec fn bind_key(self, key: KeyCode, action: Seq<char>) -> InputState {
        InputState {
            keys: self.keys.insert(key, action),
            values: self.values.insert(action, InputValue::Button(false)),
            ..self
        }
    }

    pub open spec fn bind_mouse_button(self, button: MouseButton, action: Seq<char>) -> InputState {
        InputState {
            buttons: self.buttons.insert(button, action),
            values: self.values.insert(action, InputValue::Button(false)),
            ..self
        }
    }

    pub open spec fn bind_mouse_motion(self, action: Seq<char>) -> InputState {
        InputState { values: self.values.insert(action, InputValue::Vector2(0, 0)), ..self }
    }

    /// The action writes that a window event causes, in order.
    pub open spec fn window_writes(self, event: WindowInput) -> Seq<(Seq<char>, InputValue)> {
        match event {
            WindowInput::Keyboard { key, pressed } => if self.keys.contains_key(key) {
                seq![(self.keys[key], InputValue::Button(pressed))]
            } else {
                seq![]
            },
            WindowInput::MouseInput { button, pressed } => if self.buttons.contains_key(button) {
                seq![(self.buttons[button], InputValue::Button(pressed))]
            } else {
                seq![]
            },
            _ => seq![],
        }
    }

    pub open spec fn process_window_event(self, event: WindowInput) -> InputState {
        match event {
            WindowInput::Keyboard { key, pressed } => if self.keys.contains_key(key) {
                InputState {
                    values: self.values.insert(self.keys[key], InputValue::Button(pressed)),
                    ..self
                }
            } else {
                self
            },
            WindowInput::MouseInput { button, pressed } => if self.buttons.contains_key(button) {
                InputState {
                    values: self.values.insert(self.buttons[button], InputValue::Button(pressed)),
                    ..self
                }
            } else {
                self
            },
            WindowInput::CursorMoved { x, y } => InputState { mouse_position: (x, y), ..self },
            WindowInput::Other => self,
        }
    }

    pub open spec fn process_device_event(self, event: DeviceInput) -> InputState {
        match event {
            DeviceInput::MouseMotion { dx, dy } => InputState {
                mouse_delta: (dx, dy),
                values: self.values.map_values(|v: InputValue| moved_to(v, dx, dy)),
                ..self
            },
            DeviceInput::Other => self,
        }
    }

    /// The end of a frame: the motion delta and every motion action return to zero.
    pub open spec fn update(self) -> InputState {
        InputState {
            mouse_delta: (0, 0),
            values: self.values.map_values(|v: InputValue| moved_to(v, 0, 0)),
            ..self
        }
    }
}

/// Maintains the current value of every action from a stream of input events.
pub struct InputManager {
    action_maps: Vec<(String, ActionMap)>,
    action_values: Vec<(InputAction, InputValue)>,
    key_bindings: Vec<(KeyCode, InputAction)>,
    mouse_bindings: Vec<(MouseButton, InputAction)>,
    mouse_position: (i32, i32),
    mouse_delta: (i32, i32),
}

/// The action-value table as (action name, value) pairs.
pub open spec fn value_entries_of(t: Seq<(InputAction, InputValue)>) -> Seq<(Seq<char>, InputValue)> {
    t.map_values(|p: (InputAction, InputValue)| (p.0@, p.1))
}

/// The key-binding table as (key, action name) pairs.
pub open spec fn key_entries_of(t: Seq<(KeyCode, InputAction)>) -> Seq<(KeyCode, Seq<char>)> {
    t.map_values(|p: (KeyCode, InputAction)| (p.0, p.1@))
}

/// The mouse-button binding table as (button, action name) pairs.
pub open spec fn button_entries_of(t: Seq<(MouseButton, InputAction)>) -> Seq<(MouseButton, Seq<char>)> {
    t.map_values(|p: (MouseButton, InputAction)| (p.0, p.1@))
}

/// The action-map table as (map name, map) pairs.
pub open spec fn map_entries_of(t: Seq<(String, ActionMap)>) -> Seq<(Seq<char>, ActionMapView)> {
    t.map_values(|p: (String, ActionMap)| (p.0@, p.1@))
}

/// Every entry of `notes` is a distinct motion action of `values`, set to
/// `(dx, dy)`, and every motion action of `values` is among them.
pub open spec fn motion_notifications(
    notes: Seq<(Seq<char>, InputValue)>,
    values: Map<Seq<char>, InputValue>,
    dx: i32,
    dy: i32,
) -> bool {
    &&& forall|i: int|
        0 <= i < notes.len() ==> {
            &&& notes[i].1 == InputValue::Vector2(dx, dy)
            &&& values.contains_key(notes[i].0)
            &&& values[notes[i].0] is Vector2
        }
    &&& forall|k: Seq<char>|
        values.contains_key(k) && values[k] is Vector2 ==> exists|i: int|
            0 <= i < notes.len() && notes[i].0 == k
    &&& forall|i: int, j: int| 0 <= i < j < notes.len() ==> notes[i].0 != notes[j].0
}

fn find_value(t: &Vec<(InputAction, InputValue)>, action: &InputAction) -> (r: Option<usize>)
    ensures
        match r {
            Some(i) => i < t@.len() && t@[i as int].0@ == action@,
            None => !has_key(value_entries_of(t@), action@),
        },
{
    let mut i: usize = 0;
    while i < t.len()
        invariant
            0 <= i <= t@.len(),
            forall|j: int| 0 <= j < i ==> t@[j].0@ != action@,
        decreases t@.len() - i,
    {
        if t[i].0.0 == action.0 {
            return Some(i);
        }
        i += 1;
    }
    None
}

fn find_key(t: &Vec<(KeyCode, InputAction)>, key: KeyCode) -> (r: Option<usize>)
    ensures
        match r {
            Some(i) => i < t@.len() && t@[i as int].0 == key,
            None => !has_key(key_entries_of(t@), key),
        },
{
    let mut i: usize = 0;
    while i < t.len()
        invariant
            0 <= i <= t@.len(),
            forall|j: int| 0 <= j < i ==> t@[j].0 != key,
        decreases t@.len() - i,
    {
        if t[i].0 == key {
            return Some(i);
        }
        i += 1;
    }
    None
}

fn find_button(t: &Vec<(MouseButton, InputAction)>, button: MouseButton) -> (r: Option<usize>)
    ensures
        match r {
            Some(i) => i < t@.len() && t@[i as int].0 == button,
            None => !has_key(button_entries_of(t@), button),
        },
{
    let mut i: usize = 0;
    while i < t.len()
        invariant
            0 <= i <= t@.len(),
            forall|j: int| 0 <= j < i ==> t@[j].0 != button,
        decreases t@.len() - i,
    {
        if t[i].0 == button {
            return Some(i);
        }
        i += 1;
    }
    None
}

fn find_map(t: &Vec<(String, ActionMap)>, name: &String) -> (r: Option<usize>)
    ensures
        match r {
            Some(i) => i < t@.len() && t@[i as int].0@ == name@,
            None => !has_key(map_entries_of(t@), name@),
        },
{
    let mut i: usize = 0;
    while i < t.len()
        invariant
            0 <= i <= t@.len(),
            forall|j: int| 0 <= j < i ==> t@[j].0@ != name@,
        decreases t@.len() - i,
    {
        if t[i].0 == *name {
            return Some(i);
        }
        i += 1;
    }
    None
}

fn map_at_mut(t: &mut Vec<(String, ActionMap)>, i: usize) -> (r: &mut ActionMap)
    requires
        i < old(t)@.len(),
    ensures
        *r == old(t)@[i as int].1,
        final(t)@ == old(t)@.update(i as int, (old(t)@[i as int].0, *final(r))),
{
    &mut t[i].1
}

impl View for InputManager {
    type V = InputState;

    closed spec fn view(&self) -> InputState {
        InputState {
            maps: table_map(map_entries_of(self.action_maps@)),
            values: table_map(value_entries_of(self.action_values@)),
            keys: table_map(key_entries_of(self.key_bindings@)),
            buttons: table_map(button_entries_of(self.mouse_bindings@)),
            mouse_position: self.mouse_position,
            mouse_delta: self.mouse_delta,
        }
    }
}

impl InputManager {
    /// The manager's tables each hold every key at most once.
    pub closed spec fn wf(&self) -> bool {
        &&& unique_keys(map_entries_of(self.action_maps@))
        &&& unique_keys(value_entries_of(self.action_values@))
        &&& unique_keys(key_entries_of(self.key_bindings@))
        &&& unique_keys(button_entries_of(self.mouse_bindings@))
    }

    pub fn new() -> (r: InputManager)
        ensures
            r.wf(),
            r@ == InputState::initial(),
    {
        let r = InputManager {
            action_maps: Vec::new(),
            action_values: Vec::new(),
            key_bindings: Vec::new(),
            mouse_bindings: Vec::new(),
            mouse_position: (0, 0),
            mouse_delta: (0, 0),
        };
        assert(map_entries_of(r.action_maps@) =~= Seq::empty());
        assert(value_entries_of(r.action_values@) =~= Seq::empty());
        assert(key_entries_of(r.key_bindings@) =~= Seq::empty());
        assert(button_entries_of(r.mouse_bindings@) =~= Seq::empty());
        r
    }

    /// Writes `value` to `action`, adding the action if it is new.
    fn write_value(&mut self, action: InputAction, value: InputValue)
        requires
            old(self).wf(),
        ensures
            final(self).wf(),
            final(self)@ == (InputState { values: old(self)@.values.insert(action@, value), ..old(self)@ }),
    {
        let ghost e = value_entries_of(self.action_values@);
        match find_value(&self.action_values, &action) {
            Some(i) => {
                proof {
                    lemma_table_update(e, i as int, value);
                }
                self.action_values.set(i, (action, value));
                assert(value_entries_of(self.action_values@) =~= e.update(i as int, (e[i as int].0, value)));
            },
            None => {
                proof {
                    lemma_table_push(e, action@, value);
                }
                self.action_values.push((action, value));
                assert(value_entries_of(self.action_values@) =~= e.push((action@, value)));
            },
        }
    }

    pub fn bind_key(&mut self, key: KeyCode, action: InputAction)
        requires
            old(self).wf(),
        ensures
            final(self).wf(),
            final(self)@ == old(self)@.bind_key(key, action@),
    {
        let ghost e = key_entries_of(self.key_bindings@);
        let name = action.clone();
        match find_key(&self.key_bindings, key) {
            Some(i) => {
                proof {
                    lemma_table_update(e, i as int, action@);
                }
                self.key_bindings.set(i, (key, name));
                assert(key_entries_of(self.key_bindings@) =~= e.update(i as int, (e[i as int].0, action@)));
            },
            None => {
                proof {
                    lemma_table_push(e, key, action@);
                }
                self.key_bindings.push((key, name));
                assert(key_entries_of(self.key_bindings@) =~= e.push((key, action@)));
            },
        }
        self.write_value(action, InputValue::Button(false));
    }

    pub fn bind_mouse_button(&mut self, button: MouseButton, action: InputAction)
        requires
            old(self).wf(),
        ensures
            final(self).wf(),
            final(self)@ == old(self)@.bind_mouse_button(button, action@),
    {
        let ghost e = button_entries_of(self.mouse_bindings@);
        let name = action.clone();
        match find_button(&self.mouse_bindings, button) {
            Some(i) => {
                proof {
                    lemma_table_update(e, i as int, action@);
                }
                self.mouse_bindings.set(i, (button, name));
                assert(button_entries_of(self.mouse_bindings@) =~= e.update(i as int, (e[i as int].0, action@)));
            },
            None => {
                proof {
                    lemma_table_push(e, button, action@);
                }
                self.mouse_bindings.push((button, name));
                assert(button_entries_of(self.mouse_bindings@) =~= e.push((button, action@)));
            },
        }
        self.write_value(action, InputValue::Button(false));
    }

    pub fn bind_mouse_motion(&mut self, action: InputAction)
        requires
            old(self).wf(),
        ensures
            final(self).wf(),
            final(self)@ == old(self)@.bind_mouse_motion(action@),
    {
        self.write_value(action, InputValue::Vector2(0, 0));
    }

    /// The last value written to `action`, or `None` if it was never bound.
    pub fn get_action_value(&self, action: &InputAction) -> (r: Option<InputValue>)
        requires
            self.wf(),
        ensures
            r == (if self@.values.contains_key(action@) {
                Some(self@.values[action@])
            } else {
                None::<InputValue>
            }),
    {
        let ghost e = value_entries_of(self.action_values@);
        proof {
            lemma_table_keys(e, action@);
        }
        match find_value(&self.action_values, action) {
            Some(i) => {
                proof {
                    lemma_table_entry(e, i as int);
                }
                Some(self.action_values[i].1)
            },
            None => None,
        }
    }

    /// Creates the action map `name`, replacing any map of that name, and
    /// hands it out for filling.
    pub fn create_action_map(&mut self, name: &str) -> (r: &mut ActionMap)
        requires
            old(self).wf(),
        ensures
            r@ == (ActionMapView { name: name@, actions: Set::empty(), enabled: true }),
            final(self).wf(),
            final(self)@ == (InputState { maps: old(self)@.maps.insert(name@, final(r)@), ..old(self)@ }),
    {
        let ghost e = map_entries_of(self.action_maps@);
        let key = name.to_owned();
        let map = ActionMap::new(name);
        let i = match find_map(&self.action_maps, &key) {
            Some(i) => {
                proof {
                    lemma_table_update(e, i as int, map@);
                }
                self.action_maps.set(i, (key, map));
                assert(map_entries_of(self.action_maps@) =~= e.update(i as int, (e[i as int].0, map@)));
                i
            },
            None => {
                proof {
                    lemma_table_push(e, name@, map@);
                }
                self.action_maps.push((key, map));
                assert(map_entries_of(self.action_maps@) =~= e.push((name@, map@)));
                self.action_maps.len() - 1
            },
        };
        let ghost mid = self.action_maps@;
        let r = map_at_mut(&mut self.action_maps, i);
        proof {
            let ghost fin = mid.update(i as int, (mid[i as int].0, *final(r)));
            let ghost me = map_entries_of(mid);
            assert(map_entries_of(fin) =~= me.update(i as int, (me[i as int].0, final(r)@)));
            assert(me[i as int].0 == name@);
            lemma_table_update(me, i as int, final(r)@);
            assert(table_map(map_entries_of(fin)) == old(self)@.maps.insert(name@, final(r)@));
            assert(after_borrow(self.action_maps)@ == fin);
        }
        r
    }

    /// Applies a window event and returns the action writes it made, in order.
    pub fn process_window_event(&mut self, event: &WindowInput) -> (notes: Vec<(InputAction, InputValue)>)
        requires
            old(self).wf(),
        ensures
            final(self).wf(),
            final(self)@ == old(self)@.process_window_event(*event),
            value_entries_of(notes@) == old(self)@.window_writes(*event),
    {
        let mut notes: Vec<(InputAction, InputValue)> = Vec::new();
        match *event {
            WindowInput::Keyboard { key, pressed } => {
                let ghost e = key_entries_of(self.key_bindings@);
                proof {
                    lemma_table_keys(e, key);
                }
                if let Some(i) = find_key(&self.key_bindings, key) {
                    proof {
                        lemma_table_entry(e, i as int);
                    }
                    let action = self.key_bindings[i].1.clone();
                    notes.push((action.clone(), InputValue::Button(pressed)));
                    self.write_value(action, InputValue::Button(pressed));
                }
            },
            WindowInput::MouseInput { button, pressed } => {
                let ghost e = button_entries_of(self.mouse_bindings@);
                proof {
                    lemma_table_keys(e, button);
                }
                if let Some(i) = find_button(&self.mouse_bindings, button) {
                    proof {
                        lemma_table_entry(e, i as int);
                    }
                    let action = self.mouse_bindings[i].1.clone();
                    notes.push((action.clone(), InputValue::Button(pressed)));
                    self.write_value(action, InputValue::Button(pressed));
                }
            },
            WindowInput::CursorMoved { x, y } => {
                self.mouse_position = (x, y);
            },
            WindowInput::Other => {},
        }
        assert(value_entries_of(notes@) =~= old(self)@.window_writes(*event));
        notes
    }

    /// Sets every motion action to `(dx, dy)`; returns the actions set, in table order.
    fn move_motion_actions(&mut self, dx: i32, dy: i32) -> (notes: Vec<(InputAction, InputValue)>)
        requires
            old(self).wf(),
        ensures
            final(self).wf(),
            final(self)@ == (InputState {
                values: old(self)@.values.map_values(|v: InputValue| moved_to(v, dx, dy)),
                ..old(self)@
            }),
            motion_notifications(value_entries_of(notes@), old(self)@.values, dx, dy),
    {
        let ghost e0 = value_entries_of(self.action_values@);
        let ghost f = |v: InputValue| moved_to(v, dx, dy);
        let ghost g = |p: (Seq<char>, InputValue)| (p.0, f(p.1));
        let mut notes: Vec<(InputAction, InputValue)> = Vec::new();
        let ghost mut idx: Seq<int> = Seq::empty();
        let n = self.action_values.len();
        let mut i: usize = 0;
        while i < n
            invariant
                n == e0.len(),
                0 <= i <= n,
                self.action_values@.len() == n,
                self.action_maps == old(self).action_maps,
                self.key_bindings == old(self).key_bindings,
                self.mouse_bindings == old(self).mouse_bindings,
                self.mouse_position == old(self).mouse_position,
                self.mouse_delta == old(self).mouse_delta,
                e0 == value_entries_of(old(self).action_values@),
                unique_keys(e0),
                forall|j: int| 0 <= j < i ==> value_entries_of(self.action_values@)[j] == (e0[j].0, moved_to(e0[j].1, dx, dy)),
                forall|j: int| i <= j < n ==> value_entries_of(self.action_values@)[j] == e0[j],
                idx.len() == notes@.len(),
                forall|t: int, u: int| 0 <= t < u < idx.len() ==> idx[t] < idx[u],
                forall|t: int| 0 <= t < idx.len() ==> 0 <= #[trigger] idx[t] < i,
                forall|t: int| 0 <= t < idx.len() ==> (#[trigger] e0[idx[t]]).1 is Vector2,
                forall|t: int|
                    0 <= t < idx.len() ==> #[trigger] value_entries_of(notes@)[t] == (
                        e0[idx[t]].0,
                        InputValue::Vector2(dx, dy),
                    ),
                forall|j: int| 0 <= j < i && e0[j].1 is Vector2 ==> exists|t: int| 0 <= t < idx.len() && idx[t] == j,
            decreases n - i,
        {
            let ghost before = self.action_values@;
            assert(value_entries_of(before)[i as int] == e0[i as int]);
            let current = self.action_values[i].1;
            assert(current == e0[i as int].1);
            if let InputValue::Vector2(_, _) = current {
                let action = self.action_values[i].0.clone();
                let ghost old_notes = notes@;
                notes.push((action.clone(), InputValue::Vector2(dx, dy)));
                assert(value_entries_of(notes@) =~= value_entries_of(old_notes).push(
                    (e0[i as int].0, InputValue::Vector2(dx, dy)),
                ));
                self.action_values.set(i, (action, InputValue::Vector2(dx, dy)));
                proof {
                    let old_idx = idx;
                    idx = idx.push(i as int);
                    assert forall|t: int, u: int| 0 <= t < u < idx.len() implies idx[t] < idx[u] by {
                        if u == idx.len() - 1 {
                            assert(old_idx[t] < i);
                            assert(idx[t] == old_idx[t]);
                        } else {
                            assert(idx[t] == old_idx[t] && idx[u] == old_idx[u]);
                        }
                    }
                    assert forall|t: int| 0 <= t < idx.len() implies {
                        &&& 0 <= idx[t] < i + 1
                        &&& e0[idx[t]].1 is Vector2
                        &&& value_entries_of(notes@)[t] == (e0[idx[t]].0, InputValue::Vector2(dx, dy))
                    } by {
                        if t < idx.len() - 1 {
                            assert(idx[t] == old_idx[t]);
                            assert(0 <= old_idx[t] < i);
                            assert(e0[old_idx[t]].1 is Vector2);
                            assert(value_entries_of(old_notes)[t] == (e0[old_idx[t]].0, InputValue::Vector2(dx, dy)));
                        }
                    }
                    assert forall|j: int| 0 <= j < i + 1 && e0[j].1 is Vector2 implies exists|t: int|
                        0 <= t < idx.len() && idx[t] == j by {
                        if j == i {
                            assert(idx[idx.len() - 1] == j);
                        } else {
                            let t = choose|t: int| 0 <= t < old_idx.len() && old_idx[t] == j;
                            assert(idx[t] == j);
                        }
                    }
                    assert(value_entries_of(self.action_values@) =~= value_entries_of(before).update(
                        i as int,
                        (e0[i as int].0, moved_to(e0[i as int].1, dx, dy)),
                    ));
                }
            } else {
                assert(self.action_values@ == before);
                assert((e0[i as int].0, moved_to(e0[i as int].1, dx, dy)) == e0[i as int]);
            }
            assert(value_entries_of(self.action_values@)[i as int] == (e0[i as int].0, moved_to(e0[i as int].1, dx, dy)));
            i += 1;
        }
        let ghost e1 = value_entries_of(self.action_values@);
        proof {
            assert(e1 =~= e0.map_values(g));
            lemma_table_map_values(e0, f);
            assert forall|a: int, b: int| 0 <= a < e1.len() && 0 <= b < e1.len() && a != b implies e1[a].0
                != e1[b].0 by {
                assert(e1[a].0 == e0[a].0);
                assert(e1[b].0 == e0[b].0);
            }
            let ne = value_entries_of(notes@);
            let vals = table_map(e0);
            assert forall|t: int| 0 <= t < ne.len() implies {
                &&& ne[t].1 == InputValue::Vector2(dx, dy)
                &&& vals.contains_key(ne[t].0)
                &&& vals[ne[t].0] is Vector2
            } by {
                lemma_table_entry(e0, idx[t]);
            }
            assert forall|k: Seq<char>| vals.contains_key(k) && vals[k] is Vector2 implies exists|t: int|
                0 <= t < ne.len() && ne[t].0 == k by {
                lemma_table_keys(e0, k);
                let j = choose|j: int| 0 <= j < e0.len() && e0[j].0 == k;
                lemma_table_entry(e0, j);
                let t = choose|t: int| 0 <= t < idx.len() && idx[t] == j;
                assert(ne[t].0 == k);
            }
            assert forall|a: int, b: int| 0 <= a < b < ne.len() implies ne[a].0 != ne[b].0 by {
                assert(idx[a] < idx[b]);
            }
        }
        notes
    }

    /// Applies a raw device event.  Mouse motion is written into every action
    /// that holds a motion value; the actions written are returned.
    pub fn process_device_event(&mut self, event: &DeviceInput) -> (notes: Vec<(InputAction, InputValue)>)
        requires
            old(self).wf(),
        ensures
            final(self).wf(),
            final(self)@ == old(self)@.process_device_event(*event),
            match *event {
                DeviceInput::MouseMotion { dx, dy } => motion_notifications(
                    value_entries_of(notes@),
                    old(self)@.values,
                    dx,
                    dy,
                ),
                DeviceInput::Other => notes@.len() == 0,
            },
    {
        match *event {
            DeviceInput::MouseMotion { dx, dy } => {
                self.mouse_delta = (dx, dy);
                self.move_motion_actions(dx, dy)
            },
            DeviceInput::Other => Vec::new(),
        }
    }

    /// Ends the frame: the motion delta and every motion action return to zero.
    pub fn update(&mut self)
        requires
            old(self).wf(),
        ensures
            final(self).wf(),
            final(self)@ == old(self)@.update(),
    {
        self.mouse_delta = (0, 0);
        let _ = self.move_motion_actions(0, 0);
    }
}

/// Ending a frame keeps the value of every action that is not a motion
/// action, sets every motion action to (0, 0), and ending the frame a second
/// time with no event in between changes nothing.
pub proof fn lemma_update_resets_motion(s: InputState)
    ensures
        s.update().values.dom() == s.values.dom(),
        forall|k: Seq<char>|
            #![trigger s.update().values[k]]
            s.values.contains_key(k) ==> s.update().values[k] == (if s.values[k] is Vector2 {
                InputValue::Vector2(0, 0)
            } else {
                s.values[k]
            }),
        s.update().update() == s.update(),
{
    let u = s.update();
    assert(u.values.dom() =~= s.values.dom());
    assert(u.update().values =~= u.values);
}

/// Binding a key that is already bound moves it to the new action: the key
/// then drives the new action only, and a press or release of it leaves the
/// earlier action's value alone.
pub proof fn lemma_rebinding_key(
    s: InputState,
    key: KeyCode,
    first: Seq<char>,
    second: Seq<char>,
    pressed: bool,
)
    ensures
        ({
            let t = s.bind_key(key, first).bind_key(key, second);
            let after = t.process_window_event(WindowInput::Keyboard { key, pressed });
            &&& t.keys[key] == second
            &&& after.values == t.values.insert(second, InputValue::Button(pressed))
            &&& first != second ==> after.values[first] == t.values[first]
        }),
{
}

} // verus!