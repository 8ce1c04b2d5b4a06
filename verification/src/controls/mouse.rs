use vstd::prelude::*;

use crate::controls::bindings::{ActionTracker, InputState, lists_held_actions};

verus! {

/// Maps mouse button codes to actions `M` and tracks the actions pressed, released and held.
pub struct MouseHandler<M> {
    buttons: ActionTracker<M>,
}

impl<M: Copy> MouseHandler<M> {
    /// The abstract input state
    pub open spec fn state(&self) -> InputState<M> {
        InputState {
            bindings: self.bindings(),
            held: self.held_buttons(),
            pressed: self.pressed(),
            released: self.released(),
        }
    }

    /// The action bound to each button code
    pub closed spec fn bindings(&self) -> Map<u32, M> {
        self.buttons.bindings()
    }

    /// The bound buttons that are held down
    pub closed spec fn held_buttons(&self) -> Set<u32> {
        self.buttons.held_inputs()
    }

    /// Actions pressed since the last poll, in order
    pub closed spec fn pressed(&self) -> Seq<M> {
        self.buttons.pressed()
    }

    /// Actions released since the last poll, in order
    pub closed spec fn released(&self) -> Seq<M> {
        self.buttons.released()
    }

    /// The internal buffer of held actions
    pub closed spec fn held_buffer(&self) -> Seq<M> {
        self.buttons.held_buffer()
    }

    /// The handler's internal state is consistent
    pub closed spec fn wf(&self) -> bool {
        self.buttons.wf()
    }

    pub fn new() -> (handler: Self)
        ensures
            handler.wf(),
            handler.bindings() == Map::<u32, M>::empty(),
            handler.held_buttons() == Set::<u32>::empty(),
            handler.pressed() == Seq::<M>::empty(),
            handler.released() == Seq::<M>::empty(),
            handler.held_buffer() == Seq::<M>::empty(),
    {
        Self { buttons: ActionTracker::new() }
    }

    /// Map a mouse button code to an action
    pub fn register_button(&mut self, button: u32, action: M)
        requires
            old(self).wf(),
        ensures
            final(self).wf(),
            final(self).bindings() == old(self).bindings().insert(button, action),
            final(self).held_buttons() == old(self).held_buttons(),
            final(self).pressed() == old(self).pressed(),
            final(self).released() == old(self).released(),
            final(self).held_buffer() == old(self).held_buffer(),
    {
        self.buttons.register(button, action);
    }

    /// Mark a mouse button event as detected. Should be called for each mouse button event of
    /// the window.
    ///
    /// Buttons without an action are ignored. Pressing a button that is not held records its
    /// action as pressed; releasing a button records its action as released.
    pub fn button_event(&mut self, pressed: bool, button: u32)
        requires
            old(self).wf(),
        ensures
            final(self).wf(),
            final(self).bindings() == old(self).bindings(),
            final(self).held_buffer() == old(self).held_buffer(),
            final(self).state() == old(self).state().input_event(button, pressed),
    {
        self.buttons.input_event(button, pressed);
    }

    /// Take the actions pressed since the last poll
    pub fn poll_on_press(&mut self) -> (actions: Vec<M>)
        requires
            old(self).wf(),
        ensures
            final(self).wf(),
            actions@ == old(self).pressed(),
            final(self).pressed() == Seq::<M>::empty(),
            final(self).bindings() == old(self).bindings(),
            final(self).held_buttons() == old(self).held_buttons(),
            final(self).released() == old(self).released(),
            final(self).held_buffer() == old(self).held_buffer(),
    {
        self.buttons.poll_on_press()
    }

    /// Take the actions released since the last poll
    pub fn poll_on_release(&mut self) -> (actions: Vec<M>)
        requires
            old(self).wf(),
        ensures
            final(self).wf(),
            actions@ == old(self).released(),
            final(self).released() == Seq::<M>::empty(),
            final(self).bindings() == old(self).bindings(),
            final(self).held_buttons() == old(self).held_buttons(),
            final(self).pressed() == old(self).pressed(),
            final(self).held_buffer() == old(self).held_buffer(),
    {
        self.buttons.poll_on_release()
    }

    /// Take the actions of the buttons that are held, one per held button in some order
    pub fn poll_on_held(&mut self) -> (actions: Vec<M>)
        requires
            old(self).wf(),
        ensures
            final(self).wf(),
            lists_held_actions(old(self).bindings(), old(self).held_buttons(), actions@),
            final(self).held_buffer() == Seq::<M>::empty(),
            final(self).bindings() == old(self).bindings(),
            final(self).held_buttons() == old(self).held_buttons(),
            final(self).pressed() == old(self).pressed(),
            final(self).released() == old(self).released(),
    {
        self.buttons.poll_on_held()
    }

    /// Look at the actions pressed since the last poll without taking them
    pub fn peek_on_press(&self) -> (actions: &[M])
        ensures
            actions@ == self.pressed(),
    {
        self.buttons.peek_on_press()
    }

    /// Look at the actions released since the last poll without taking them
    pub fn peek_on_release(&self) -> (actions: &[M])
        ensures
            actions@ == self.released(),
    {
        self.buttons.peek_on_release()
    }

    /// Look at the actions of the buttons that are held without taking them
    pub fn peek_on_held(&mut self) -> (actions: &[M])
        requires
            old(self).wf(),
        ensures
            final(self).wf(),
            lists_held_actions(old(self).bindings(), old(self).held_buttons(), actions@),
            final(self).held_buffer() == actions@,
            final(self).bindings() == old(self).bindings(),
            final(self).held_buttons() == old(self).held_buttons(),
            final(self).pressed() == old(self).pressed(),
            final(self).released() == old(self).released(),
    {
        self.buttons.peek_on_held()
    }

    /// Clear the detected events since the last poll; held buttons stay held
    pub fn clear_events(&mut self)
        requires
            old(self).wf(),
        ensures
            final(self).wf(),
            final(self).pressed() == Seq::<M>::empty(),
            final(self).released() == Seq::<M>::empty(),
            final(self).held_buffer() == Seq::<M>::empty(),
            final(self).bindings() == old(self).bindings(),
            final(self).held_buttons() == old(self).held_buttons(),
    {
        self.buttons.clear_events()
    }
}

} // verus!
