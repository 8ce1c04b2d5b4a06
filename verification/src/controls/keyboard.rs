use vstd::prelude::*;

use crate::controls::bindings::{ActionTracker, InputState, lists_held_actions};

verus! {

/// A keyboard event, as the window reports it
#[derive(Clone, Copy, Debug, PartialEq, Eq, Structural)]
pub struct KeyEvent {
    /// The code of the physical key; `None` for a key the platform could not identify
    pub code: Option<u32>,
    /// Whether the key went down (`true`) or up
    pub pressed: bool,
    /// Whether this is a repeat generated by holding the key
    pub repeat: bool,
}

/// Maps key codes to actions `K` and tracks the actions pressed, released and held.
pub struct KeyboardHandler<K> {
    keys: ActionTracker<K>,
}

impl<K: Copy> KeyboardHandler<K> {
    /// The abstract input state
    pub open spec fn state(&self) -> InputState<K> {
        InputState {
            bindings: self.bindings(),
            held: self.held_keys(),
            pressed: self.pressed(),
            released: self.released(),
        }
    }

    /// The action bound to each key code
    pub closed spec fn bindings(&self) -> Map<u32, K> {
        self.keys.bindings()
    }

    /// The bound keys that are held down
    pub closed spec fn held_keys(&self) -> Set<u32> {
        self.keys.held_inputs()
    }

    /// Actions pressed since the last poll, in order
    pub closed spec fn pressed(&self) -> Seq<K> {
        self.keys.pressed()
    }

    /// Actions released since the last poll, in order
    pub closed spec fn released(&self) -> Seq<K> {
        self.keys.released()
    }

    /// The internal buffer of held actions
    pub closed spec fn held_buffer(&self) -> Seq<K> {
        self.keys.held_buffer()
    }

    /// The handler's internal state is consistent
    pub closed spec fn wf(&self) -> bool {
        self.keys.wf()
    }

    pub fn new() -> (handler: Self)
        ensures
            handler.wf(),
            handler.bindings() == Map::<u32, K>::empty(),
            handler.held_keys() == Set::<u32>::empty(),
            handler.pressed() == Seq::<K>::empty(),
            handler.released() == Seq::<K>::empty(),
            handler.held_buffer() == Seq::<K>::empty(),
    {
        Self { keys: ActionTracker::new() }
    }

    /// Map a key code to an action
    pub fn register_key(&mut self, key: u32, action: K)
        requires
            old(self).wf(),
        ensures
            final(self).wf(),
            final(self).bindings() == old(self).bindings().insert(key, action),
            final(self).held_keys() == old(self).held_keys(),
            final(self).pressed() == old(self).pressed(),
            final(self).released() == old(self).released(),
            final(self).held_buffer() == old(self).held_buffer(),
    {
        self.keys.register(key, action);
    }

    /// Mark a key event as detected. Should be called for each keyboard event of the window.
    ///
    /// Repeats and unidentified keys are ignored, and so are keys without an action. Pressing a
    /// key that is not held records its action as pressed; releasing a key records its action
    /// as released.
    pub fn key_event(&mut self, key_event: &KeyEvent)
        requires
            old(self).wf(),
        ensures
            final(self).wf(),
            final(self).bindings() == old(self).bindings(),
            final(self).held_buffer() == old(self).held_buffer(),
            key_event.repeat || key_event.code is None ==> *final(self) == *old(self),
            !key_event.repeat && key_event.code is Some ==> final(self).state() == old(
                self,
            ).state().input_event(key_event.code->0, key_event.pressed),
    {
        if key_event.repeat {
            return;
        }
        let key_code = match key_event.code {
            Some(code) => code,
            None => {
                return;
            },
        };
        self.keys.input_event(key_code, key_event.pressed);
    }

    /// Take the actions pressed since the last poll
    pub fn poll_on_press(&mut self) -> (actions: Vec<K>)
        requires
            old(self).wf(),
        ensures
            final(self).wf(),
            actions@ == old(self).pressed(),
            final(self).pressed() == Seq::<K>::empty(),
            final(self).bindings() == old(self).bindings(),
            final(self).held_keys() == old(self).held_keys(),
            final(self).released() == old(self).released(),
            final(self).held_buffer() == old(self).held_buffer(),
    {
        self.keys.poll_on_press()
    }

    /// Take the actions released since the last poll
    pub fn poll_on_release(&mut self) -> (actions: Vec<K>)
        requires
            old(self).wf(),
        ensures
            final(self).wf(),
            actions@ == old(self).released(),
            final(self).released() == Seq::<K>::empty(),
            final(self).bindings() == old(self).bindings(),
            final(self).held_keys() == old(self).held_keys(),
            final(self).pressed() == old(self).pressed(),
            final(self).held_buffer() == old(self).held_buffer(),
    {
        self.keys.poll_on_release()
    }

    /// Take the actions of the keys that are held, one per held key in some order
    pub fn poll_on_held(&mut self) -> (actions: Vec<K>)
        requires
            old(self).wf(),
        ensures
            final(self).wf(),
            lists_held_actions(old(self).bindings(), old(self).held_keys(), actions@),
            final(self).held_buffer() == Seq::<K>::empty(),
            final(self).bindings() == old(self).bindings(),
            final(self).held_keys() == old(self).held_keys(),
            final(self).pressed() == old(self).pressed(),
            final(self).released() == old(self).released(),
    {
        self.keys.poll_on_held()
    }

    /// Look at the actions pressed since the last poll without taking them
    pub fn peek_on_press(&self) -> (actions: &[K])
        ensures
            actions@ == self.pressed(),
    {
        self.keys.peek_on_press()
    }

    /// Look at the actions released since the last poll without taking them
    pub fn peek_on_release(&self) -> (actions: &[K])
        ensures
            actions@ == self.released(),
    {
        self.keys.peek_on_release()
    }

    /// Look at the actions of the keys that are held without taking them
    pub fn peek_on_held(&mut self) -> (actions: &[K])
        requires
            old(self).wf(),
        ensures
            final(self).wf(),
            lists_held_actions(old(self).bindings(), old(self).held_keys(), actions@),
            final(self).held_buffer() == actions@,
            final(self).bindings() == old(self).bindings(),
            final(self).held_keys() == old(self).held_keys(),
            final(self).pressed() == old(self).pressed(),
            final(self).released() == old(self).released(),
    {
        self.keys.peek_on_held()
    }

    /// Clear the detected events since the last poll; held keys stay held
    pub fn clear_events(&mut self)
        requires
            old(self).wf(),
        ensures
            final(self).wf(),
            final(self).pressed() == Seq::<K>::empty(),
            final(self).released() == Seq::<K>::empty(),
            final(self).held_buffer() == Seq::<K>::empty(),
            final(self).bindings() == old(self).bindings(),
            final(self).held_keys() == old(self).held_keys(),
    {
        self.keys.clear_events()
    }
}

} // verus!
