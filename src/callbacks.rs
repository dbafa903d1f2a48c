//! Ownership of event handlers and of the engine's hook slots.
//!
//! The engine holds one hook per event category for the whole process, so
//! registering a handler replaces the one installed before, whichever
//! instance installed it. Each instance keeps every handler it registered
//! in its [`Callbacks`] until it is torn down; [`HookSlots`] records which
//! instance's handler each engine slot points to. Tearing an instance down
//! first clears every slot that still points to one of its handlers, and
//! only then hands the handlers back to be released.

use crate::instance::InstanceId;
use vstd::prelude::*;

verus! {

/// How many event categories the engine has a hook slot for.
pub const HOOK_CATEGORY_COUNT: usize = 14;

/// An event category that the engine delivers through one hook slot.
#[derive(Clone, Copy, Debug, PartialEq, Eq, Structural)]
pub enum HookCategory {
    Print,
    Bang,
    Float,
    Double,
    Symbol,
    List,
    Message,
    MidiNoteOn,
    MidiControlChange,
    MidiProgramChange,
    MidiPitchBend,
    MidiAfterTouch,
    MidiPolyAfterTouch,
    MidiByte,
}

/// The position of a category's slot in the engine's hook table.
pub open spec fn category_index(c: HookCategory) -> int {
    match c {
        HookCategory::Print => 0,
        HookCategory::Bang => 1,
        HookCategory::Float => 2,
        HookCategory::Double => 3,
        HookCategory::Symbol => 4,
        HookCategory::List => 5,
        HookCategory::Message => 6,
        HookCategory::MidiNoteOn => 7,
        HookCategory::MidiControlChange => 8,
        HookCategory::MidiProgramChange => 9,
        HookCategory::MidiPitchBend => 10,
        HookCategory::MidiAfterTouch => 11,
        HookCategory::MidiPolyAfterTouch => 12,
        HookCategory::MidiByte => 13,
    }
}

impl HookCategory {
    /// The position of this category's slot.
    pub fn index(&self) -> (r: usize)
        ensures
            r == category_index(*self),
            r < HOOK_CATEGORY_COUNT,
    {
        match self {
            HookCategory::Print => 0,
            HookCategory::Bang => 1,
            HookCategory::Float => 2,
            HookCategory::Double => 3,
            HookCategory::Symbol => 4,
            HookCategory::List => 5,
            HookCategory::Message => 6,
            HookCategory::MidiNoteOn => 7,
            HookCategory::MidiControlChange => 8,
            HookCategory::MidiProgramChange => 9,
            HookCategory::MidiPitchBend => 10,
            HookCategory::MidiAfterTouch => 11,
            HookCategory::MidiPolyAfterTouch => 12,
            HookCategory::MidiByte => 13,
        }
    }

    /// The category whose slot is at position `i`.
    pub fn from_index(i: usize) -> (r: HookCategory)
        requires
            i < HOOK_CATEGORY_COUNT,
        ensures
            category_index(r) == i,
    {
        if i == 0 {
            HookCategory::Print
        } else if i == 1 {
            HookCategory::Bang
        } else if i == 2 {
            HookCategory::Float
        } else if i == 3 {
            HookCategory::Double
        } else if i == 4 {
            HookCategory::Symbol
        } else if i == 5 {
            HookCategory::List
        } else if i == 6 {
            HookCategory::Message
        } else if i == 7 {
            HookCategory::MidiNoteOn
        } else if i == 8 {
            HookCategory::MidiControlChange
        } else if i == 9 {
            HookCategory::MidiProgramChange
        } else if i == 10 {
            HookCategory::MidiPitchBend
        } else if i == 11 {
            HookCategory::MidiAfterTouch
        } else if i == 12 {
            HookCategory::MidiPolyAfterTouch
        } else {
            HookCategory::MidiByte
        }
    }
}

/// Distinct categories have distinct slots.
pub proof fn lemma_category_index_injective(a: HookCategory, b: HookCategory)
    ensures
        category_index(a) == category_index(b) <==> a == b,
        0 <= category_index(a) < HOOK_CATEGORY_COUNT,
{
}

proof fn lemma_push_contains<A>(s: Seq<A>, x: A, y: A)
    ensures
        s.push(x).contains(y) <==> (s.contains(y) || x == y),
{
    if s.contains(y) {
        let k = choose|k: int| 0 <= k < s.len() && s[k] == y;
        assert(s.push(x)[k] == y);
    }
    if x == y {
        assert(s.push(x)[s.len() as int] == y);
    }
    if s.push(x).contains(y) {
        let k = choose|k: int| 0 <= k < s.push(x).len() && s.push(x)[k] == y;
        if k < s.len() {
            assert(s[k] == y);
        }
    }
}

proof fn lemma_push_no_duplicates<A>(s: Seq<A>, x: A)
    requires
        s.no_duplicates(),
        !s.contains(x),
    ensures
        s.push(x).no_duplicates(),
{
    assert forall|i: int, j: int|
        0 <= i < s.push(x).len() && 0 <= j < s.push(x).len() && i != j implies s.push(x)[i]
        != s.push(x)[j] by {
        if i < s.len() && j == s.len() {
            assert(s[i] == s.push(x)[i]);
        }
        if j < s.len() && i == s.len() {
            assert(s[j] == s.push(x)[j]);
        }
    }
}

/// A handler that an engine slot points to: the instance that registered
/// it, and its position in that instance's [`Callbacks`].
#[derive(Clone, Copy, Debug, PartialEq, Eq, Structural)]
pub struct HookOwner {
    pub instance: InstanceId,
    pub entry: usize,
}

/// Which handler each of the engine's hook slots points to.
#[derive(Debug)]
pub struct HookSlots {
    slots: Vec<Option<HookOwner>>,
}

impl HookSlots {
    pub closed spec fn wf(&self) -> bool {
        self.slots@.len() == HOOK_CATEGORY_COUNT
    }

    /// The handler the slot of category `c` points to, if any.
    pub closed spec fn holder_spec(&self, c: HookCategory) -> Option<HookOwner> {
        self.slots@[category_index(c)]
    }

    /// Every slot empty, as the engine starts.
    pub fn new() -> (r: HookSlots)
        ensures
            r.wf(),
            forall|c: HookCategory| #[trigger] r.holder_spec(c) == None::<HookOwner>,
    {
        let mut slots: Vec<Option<HookOwner>> = Vec::new();
        let mut i: usize = 0;
        while i < HOOK_CATEGORY_COUNT
            invariant
                i <= HOOK_CATEGORY_COUNT,
                slots@.len() == i,
                forall|j: int| 0 <= j < i ==> slots@[j] == None::<HookOwner>,
            decreases HOOK_CATEGORY_COUNT - i,
        {
            slots.push(None);
            i = i + 1;
        }
        let r = HookSlots { slots };
        assert forall|c: HookCategory| #[trigger] r.holder_spec(c) == None::<HookOwner> by {
            lemma_category_index_injective(c, c);
        }
        r
    }

    /// The handler the slot of `category` points to, if any.
    pub fn holder(&self, category: HookCategory) -> (r: Option<HookOwner>)
        requires
            self.wf(),
        ensures
            r == self.holder_spec(category),
    {
        self.slots[category.index()]
    }

    /// Points the slot of `category` at `owner`, replacing whatever it
    /// pointed to. The other slots are unchanged.
    pub fn install(&mut self, category: HookCategory, owner: HookOwner)
        requires
            old(self).wf(),
        ensures
            final(self).wf(),
            final(self).holder_spec(category) == Some(owner),
            forall|c: HookCategory|
                c != category ==> #[trigger] final(self).holder_spec(c) == old(self).holder_spec(c),
    {
        let i = category.index();
        self.slots.set(i, Some(owner));
        assert forall|c: HookCategory|
            c != category implies #[trigger] self.holder_spec(c) == old(self).holder_spec(c) by {
            lemma_category_index_injective(c, category);
        }
    }

    /// Empties every slot that points to a handler of `instance`, and
    /// returns those slots' categories, each once: the engine's hook for
    /// each of them must be unset.
    pub fn release_owner(&mut self, instance: InstanceId) -> (cleared: Vec<HookCategory>)
        requires
            old(self).wf(),
        ensures
            final(self).wf(),
            forall|c: HookCategory| #[trigger]
                final(self).holder_spec(c) == (match old(self).holder_spec(c) {
                    Some(o) => if o.instance == instance {
                        None
                    } else {
                        Some(o)
                    },
                    None => None,
                }),
            forall|c: HookCategory|
                cleared@.contains(c) <==> (#[trigger] old(self).holder_spec(c) matches Some(o)
                    && o.instance == instance),
            cleared@.no_duplicates(),
            forall|c: HookCategory|
                !(#[trigger] final(self).holder_spec(c) matches Some(o) && o.instance == instance),
    {
        let ghost before = self.slots@;
        let mut cleared: Vec<HookCategory> = Vec::new();
        let mut i: usize = 0;
        while i < HOOK_CATEGORY_COUNT
            invariant
                i <= HOOK_CATEGORY_COUNT,
                self.slots@.len() == HOOK_CATEGORY_COUNT,
                before.len() == HOOK_CATEGORY_COUNT,
                forall|j: int|
                    i <= j < HOOK_CATEGORY_COUNT ==> #[trigger] self.slots@[j] == before[j],
                forall|j: int|
                    0 <= j < i ==> #[trigger] self.slots@[j] == (match before[j] {
                        Some(o) => if o.instance == instance {
                            None
                        } else {
                            Some(o)
                        },
                        None => None,
                    }),
                forall|k: int|
                    0 <= k < cleared@.len() ==> category_index(#[trigger] cleared@[k]) < i,
                forall|c: HookCategory|
                    category_index(c) < i ==> (cleared@.contains(c) <==> (
                    #[trigger] before[category_index(c)] matches Some(o) && o.instance
                        == instance)),
                cleared@.no_duplicates(),
            decreases HOOK_CATEGORY_COUNT - i,
        {
            let slot = self.slots[i];
            match slot {
                Some(o) => {
                    if o.instance.number == instance.number {
                        let c = HookCategory::from_index(i);
                        let ghost prev = cleared@;
                        proof {
                            assert(!prev.contains(c));
                        }
                        self.slots.set(i, None);
                        cleared.push(c);
                        proof {
                            assert forall|d: HookCategory|
                                category_index(d) < i + 1 implies (cleared@.contains(d) <==> (
                            #[trigger] before[category_index(d)] matches Some(o)
                                && o.instance == instance)) by {
                                lemma_category_index_injective(c, d);
                                lemma_push_contains(prev, c, d);
                            }
                            lemma_push_no_duplicates(prev, c);
                        }
                    }
                },
                None => {},
            }
            i = i + 1;
        }
        assert forall|c: HookCategory| #[trigger]
            self.holder_spec(c) == (match old(self).holder_spec(c) {
                Some(o) => if o.instance == instance {
                    None
                } else {
                    Some(o)
                },
                None => None,
            }) by {
            lemma_category_index_injective(c, c);
        }
        cleared
    }
}

/// Why a handler could not be registered.
#[derive(Clone, Copy, Debug, PartialEq, Eq, Structural)]
pub enum RecieveError {
    /// Audio processing is active and the policy refuses registration then.
    DspActive,
}

/// Whether handlers may be registered while audio processing is active.
///
/// Swapping a handler while the audio thread may be invoking it is a hazard
/// that a caller can choose to exclude; by default it is allowed.
#[derive(Clone, Copy, Debug, PartialEq, Eq, Structural)]
pub struct RegistrationPolicy {
    pub refuse_while_audio_active: bool,
}

impl RegistrationPolicy {
    pub open spec fn permits_spec(&self, audio_active: bool) -> bool {
        !(self.refuse_while_audio_active && audio_active)
    }

    /// Registration is allowed at any time.
    pub fn permissive() -> (r: RegistrationPolicy)
        ensures
            !r.refuse_while_audio_active,
    {
        RegistrationPolicy { refuse_while_audio_active: false }
    }

    /// Whether a handler may be registered now.
    pub fn permits(&self, audio_active: bool) -> (r: bool)
        ensures
            r == self.permits_spec(audio_active),
    {
        !(self.refuse_while_audio_active && audio_active)
    }
}

impl Default for RegistrationPolicy {
    fn default() -> (r: RegistrationPolicy)
        ensures
            !r.refuse_while_audio_active,
    {
        RegistrationPolicy::permissive()
    }
}

/// The handlers one instance has registered, each with its category, in
/// the order of registration. A handler is kept, even once another has
/// replaced it in the engine's slot, until the instance is torn down.
#[derive(Debug)]
pub struct Callbacks<T> {
    entries: Vec<(HookCategory, T)>,
}

impl<T> View for Callbacks<T> {
    type V = Seq<(HookCategory, T)>;

    closed spec fn view(&self) -> Seq<(HookCategory, T)> {
        self.entries@
    }
}

impl<T> Callbacks<T> {
    /// No handler registered.
    pub fn new() -> (r: Callbacks<T>)
        ensures
            r@ == Seq::<(HookCategory, T)>::empty(),
    {
        Callbacks { entries: Vec::new() }
    }

    /// How many handlers are kept.
    pub fn len(&self) -> (r: usize)
        ensures
            r == self@.len(),
    {
        self.entries.len()
    }

    /// Keeps `entry` as a handler for `category`; returns its position.
    pub fn add_callback(&mut self, category: HookCategory, entry: T) -> (index: usize)
        ensures
            final(self)@ == old(self)@.push((category, entry)),
            index == old(self)@.len(),
    {
        let index = self.entries.len();
        self.entries.push((category, entry));
        index
    }

    /// Registers `entry` as the handler of `category` for `instance`: keeps
    /// it and points the category's slot at it. Refused, with nothing
    /// changed, when `policy` does not permit registration while
    /// `audio_active`.
    pub fn register(
        &mut self,
        instance: InstanceId,
        category: HookCategory,
        entry: T,
        policy: RegistrationPolicy,
        audio_active: bool,
        slots: &mut HookSlots,
    ) -> (r: Result<HookOwner, RecieveError>)
        requires
            old(slots).wf(),
        ensures
            final(slots).wf(),
            policy.permits_spec(audio_active) <==> r is Ok,
            r is Err ==> {
                &&& r == Err::<HookOwner, RecieveError>(RecieveError::DspActive)
                &&& final(self)@ == old(self)@
                &&& *final(slots) == *old(slots)
            },
            r matches Ok(owner) ==> {
                &&& owner == (HookOwner { instance, entry: old(self)@.len() as usize })
                &&& final(self)@ == old(self)@.push((category, entry))
                &&& final(slots).holder_spec(category) == Some(owner)
                &&& forall|c: HookCategory|
                    c != category ==> #[trigger] final(slots).holder_spec(c) == old(
                        slots,
                    ).holder_spec(c)
            },
    {
        if !policy.permits(audio_active) {
            return Err(RecieveError::DspActive);
        }
        let index = self.add_callback(category, entry);
        let owner = HookOwner { instance, entry: index };
        slots.install(category, owner);
        Ok(owner)
    }

    /// Tears the handlers of `instance` down. First every slot that points
    /// to one of them is emptied, so that no later event can reach one; the categories of those slots come back
    /// first in the result, so that the engine's hooks can be unset. The
    /// handlers themselves come back second, each exactly once, to be
    /// released after that.
    pub fn release(self, instance: InstanceId, slots: &mut HookSlots) -> (r: (
        Vec<HookCategory>,
        Vec<(HookCategory, T)>,
    ))
        requires
            old(slots).wf(),
        ensures
            final(slots).wf(),
            forall|c: HookCategory| #[trigger]
                final(slots).holder_spec(c) == (match old(slots).holder_spec(c) {
                    Some(o) => if o.instance == instance {
                        None
                    } else {
                        Some(o)
                    },
                    None => None,
                }),
            forall|c: HookCategory|
                r.0@.contains(c) <==> (#[trigger] old(slots).holder_spec(c) matches Some(o)
                    && o.instance == instance),
            r.0@.no_duplicates(),
            forall|c: HookCategory|
                !(#[trigger] final(slots).holder_spec(c) matches Some(o) && o.instance == instance),
            r.1@ == self@,
    {
        let cleared = slots.release_owner(instance);
        (cleared, self.entries)
    }
}

} // verus!
