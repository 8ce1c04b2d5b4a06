use std::collections::{HashMap, HashSet};

use vstd::prelude::*;
use vstd::std_specs::iter::IteratorSpec;

verus! {

broadcast use vstd::std_specs::hash::group_hash_axioms;

/// Tracks which bound inputs are held and which actions were pressed or released since the
/// last poll. Inputs are identified by integer codes; each bound input maps to an action `A`.
pub struct ActionTracker<A> {
    bindings: HashMap<u32, A>,
    raw_held: HashSet<u32>,
    just_pressed: Vec<A>,
    just_released: Vec<A>,
    held: Vec<A>,
}

/// The abstract state of input tracking: the bindings, the held inputs, and the actions
/// pressed and released since they were last taken
pub struct InputState<A> {
    pub bindings: Map<u32, A>,
    pub held: Set<u32>,
    pub pressed: Seq<A>,
    pub released: Seq<A>,
}

impl<A> InputState<A> {
    /// The state after input `code` goes down (`down`) or up.
    ///
    /// An input without a binding changes nothing; neither does pressing an input that is held.
    /// Pressing an input that is not held makes it held and records its action as pressed;
    /// releasing an input makes it not held and records its action as released.
    pub open spec fn input_event(self, code: u32, down: bool) -> Self {
        if !self.bindings.contains_key(code) {
            self
        } else if down {
            if self.held.contains(code) {
                self
            } else {
                InputState {
                    held: self.held.insert(code),
                    pressed: self.pressed.push(self.bindings[code]),
                    ..self
                }
            }
        } else {
            InputState {
                held: self.held.remove(code),
                released: self.released.push(self.bindings[code]),
                ..self
            }
        }
    }

    /// Every held input is bound
    pub open spec fn held_bound(self) -> bool {
        self.held.subset_of(self.bindings.dom())
    }
}

/// `actions` lists the actions bound to the held inputs, one per held input, in some order
pub open spec fn lists_held_actions<A>(bindings: Map<u32, A>, held: Set<u32>, actions: Seq<A>) -> bool {
    exists|order: Seq<u32>|
        #![trigger order.to_set()]
        order.no_duplicates() && order.to_set() == held && actions == order.map_values(
            |code: u32| bindings[code],
        )
}

/// Pressing an input that was just pressed changes nothing: holding a key or button records
/// one press, however many press events the window repeats.
pub proof fn law_press_twice_is_press_once<A>(s: InputState<A>, code: u32)
    ensures
        s.input_event(code, true).input_event(code, true) == s.input_event(code, true),
{
}

/// Pressing then releasing a bound input leaves it not held, records its action as released,
/// and records it as pressed exactly when it was not already held.
pub proof fn law_press_then_release<A>(s: InputState<A>, code: u32)
    requires
        s.bindings.contains_key(code),
    ensures
        s.input_event(code, true).input_event(code, false).held == s.held.remove(code),
        s.input_event(code, true).input_event(code, false).released == s.released.push(
            s.bindings[code],
        ),
        s.input_event(code, true).input_event(code, false).pressed == if s.held.contains(code) {
            s.pressed
        } else {
            s.pressed.push(s.bindings[code])
        },
        s.input_event(code, true).input_event(code, false).bindings == s.bindings,
{
    if !s.held.contains(code) {
        assert(s.held.insert(code).remove(code) =~= s.held.remove(code));
    }
}

/// Input events never make an unbound input held.
pub proof fn law_events_keep_held_bound<A>(s: InputState<A>, code: u32, down: bool)
    requires
        s.held_bound(),
    ensures
        s.input_event(code, down).held_bound(),
{
}

impl<A: Copy> ActionTracker<A> {
    /// The abstract input state
    pub open spec fn state(&self) -> InputState<A> {
        InputState {
            bindings: self.bindings(),
            held: self.held_inputs(),
            pressed: self.pressed(),
            released: self.released(),
        }
    }

    /// The action bound to each input
    pub closed spec fn bindings(&self) -> Map<u32, A> {
        self.bindings@
    }

    /// The bound inputs that are held down
    pub closed spec fn held_inputs(&self) -> Set<u32> {
        self.raw_held@
    }

    /// Actions pressed since the last poll, in order
    pub closed spec fn pressed(&self) -> Seq<A> {
        self.just_pressed@
    }

    /// Actions released since the last poll, in order
    pub closed spec fn released(&self) -> Seq<A> {
        self.just_released@
    }

    /// The internal buffer of held actions
    pub closed spec fn held_buffer(&self) -> Seq<A> {
        self.held@
    }

    /// Every held input is bound
    pub closed spec fn wf(&self) -> bool {
        self.state().held_bound()
    }

    pub fn new() -> (t: Self)
        ensures
            t.wf(),
            t.bindings() == Map::<u32, A>::empty(),
            t.held_inputs() == Set::<u32>::empty(),
            t.pressed() == Seq::<A>::empty(),
            t.released() == Seq::<A>::empty(),
            t.held_buffer() == Seq::<A>::empty(),
    {
        Self {
            bindings: HashMap::new(),
            raw_held: HashSet::new(),
            just_pressed: Vec::new(),
            just_released: Vec::new(),
            held: Vec::new(),
        }
    }

    /// Map an input code to an action
    pub fn register(&mut self, code: u32, action: A)
        requires
            old(self).wf(),
        ensures
            final(self).wf(),
            final(self).bindings() == old(self).bindings().insert(code, action),
            final(self).held_inputs() == old(self).held_inputs(),
            final(self).pressed() == old(self).pressed(),
            final(self).released() == old(self).released(),
            final(self).held_buffer() == old(self).held_buffer(),
    {
        self.bindings.insert(code, action);
    }

    /// Record that an input went down (`pressed`) or up. Inputs that are not bound are ignored;
    /// a press of an input that is already held is ignored too.
    pub fn input_event(&mut self, code: u32, pressed: bool)
        requires
            old(self).wf(),
        ensures
            final(self).wf(),
            final(self).state() == old(self).state().input_event(code, pressed),
            final(self).held_buffer() == old(self).held_buffer(),
    {
        if let Some(action) = self.bindings.get(&code) {
            let action = *action;
            if pressed {
                if !self.raw_held.contains(&code) {
                    self.raw_held.insert(code);
                    self.just_pressed.push(action);
                }
            } else {
                self.raw_held.remove(&code);
                self.just_released.push(action);
            }
        }
    }

    /// Take the actions pressed since the last poll
    pub fn poll_on_press(&mut self) -> (actions: Vec<A>)
        requires
            old(self).wf(),
        ensures
            final(self).wf(),
            actions@ == old(self).pressed(),
            final(self).pressed() == Seq::<A>::empty(),
            final(self).bindings() == old(self).bindings(),
            final(self).held_inputs() == old(self).held_inputs(),
            final(self).released() == old(self).released(),
            final(self).held_buffer() == old(self).held_buffer(),
    {
        let mut actions: Vec<A> = Vec::new();
        std::mem::swap(&mut actions, &mut self.just_pressed);
        actions
    }
    /// Take the actions released since the last poll
    pub fn poll_on_release(&mut self) -> (actions: Vec<A>)
        requires
            old(self).wf(),
        ensures
            final(self).wf(),
            actions@ == old(self).released(),
            final(self).released() == Seq::<A>::empty(),
            final(self).bindings() == old(self).bindings(),
            final(self).held_inputs() == old(self).held_inputs(),
            final(self).pressed() == old(self).pressed(),
            final(self).held_buffer() == old(self).held_buffer(),
    {
        let mut actions: Vec<A> = Vec::new();
        std::mem::swap(&mut actions, &mut self.just_released);
        actions
    }

    /// Refill the held buffer with the actions of the held inputs
    fn collect_held(&mut self)
        requires
            old(self).wf(),
        ensures
            final(self).wf(),
            lists_held_actions(old(self).bindings(), old(self).held_inputs(), final(self).held_buffer()),
            final(self).bindings() == old(self).bindings(),
            final(self).held_inputs() == old(self).held_inputs(),
            final(self).pressed() == old(self).pressed(),
            final(self).released() == old(self).released(),
    {
        self.held.clear();
        let ghost mut order: Seq<u32> = Seq::empty();
        let ghost bindings = self.bindings@;
        let ghost pressed = self.just_pressed@;
        let ghost released = self.just_released@;
        let ghost mut complete: bool = self.raw_held@.len() == 0;
        proof {
            if complete {
                assert(order.to_set() =~= self.raw_held@);
            }
        }
        for code in it: self.raw_held.iter()
            invariant
                self.raw_held@.subset_of(bindings.dom()),
                self.bindings@ == bindings,
                self.just_pressed@ == pressed,
                self.just_released@ == released,
                it.seq().unref().to_set() == self.raw_held@,
                it.seq().no_duplicates(),
                it.seq().len() == self.raw_held@.len(),
                order == it.seq().take(it.index() as int).unref(),
                self.held@ == order.map_values(|c: u32| bindings[c]),
                complete == (it.index() == it.seq().len()),
                complete ==> order.to_set() == self.raw_held@ && order.no_duplicates(),
        {
            proof {
                assert(it.seq().unref()[it.index() as int] == *code);
                assert(it.seq().unref().contains(*code));
            }
            match self.bindings.get(code) {
                Some(action) => {
                    self.held.push(*action);
                }
                None => {}
            }
            proof {
                let ghost old_order = order;
                order = order.push(*code);
                assert(order.map_values(|c: u32| bindings[c]) =~= old_order.map_values(|c: u32| bindings[c]).push(bindings[*code]));
                assert(order =~= it.seq().take(it.index() + 1).unref());
                complete = order.len() == self.raw_held@.len();
                if complete {
                    assert(order =~= it.seq().unref());
                }
            }
        }
        proof {
            assert(complete);
        }
    }
    /// Take the actions of the inputs that are held
    pub fn poll_on_held(&mut self) -> (actions: Vec<A>)
        requires
            old(self).wf(),
        ensures
            final(self).wf(),
            lists_held_actions(old(self).bindings(), old(self).held_inputs(), actions@),
            final(self).held_buffer() == Seq::<A>::empty(),
            final(self).bindings() == old(self).bindings(),
            final(self).held_inputs() == old(self).held_inputs(),
            final(self).pressed() == old(self).pressed(),
            final(self).released() == old(self).released(),
    {
        self.collect_held();
        let mut actions: Vec<A> = Vec::new();
        std::mem::swap(&mut actions, &mut self.held);
        actions
    }

    /// Look at the actions pressed since the last poll without taking them
    pub fn peek_on_press(&self) -> (actions: &[A])
        ensures
            actions@ == self.pressed(),
    {
        self.just_pressed.as_slice()
    }

    /// Look at the actions released since the last poll without taking them
    pub fn peek_on_release(&self) -> (actions: &[A])
        ensures
            actions@ == self.released(),
    {
        self.just_released.as_slice()
    }

    /// Look at the actions of the inputs that are held without taking them
    pub fn peek_on_held(&mut self) -> (actions: &[A])
        requires
            old(self).wf(),
        ensures
            final(self).wf(),
            lists_held_actions(old(self).bindings(), old(self).held_inputs(), actions@),
            final(self).held_buffer() == actions@,
            final(self).bindings() == old(self).bindings(),
            final(self).held_inputs() == old(self).held_inputs(),
            final(self).pressed() == old(self).pressed(),
            final(self).released() == old(self).released(),
    {
        self.collect_held();
        self.held.as_slice()
    }

    /// Clear the detected events since the last poll; held inputs stay held
    pub fn clear_events(&mut self)
        requires
            old(self).wf(),
        ensures
            final(self).wf(),
            final(self).pressed() == Seq::<A>::empty(),
            final(self).released() == Seq::<A>::empty(),
            final(self).held_buffer() == Seq::<A>::empty(),
            final(self).bindings() == old(self).bindings(),
            final(self).held_inputs() == old(self).held_inputs(),
    {
        self.held.clear();
        self.just_pressed.clear();
        self.just_released.clear();
    }
}

} // verus!
