//! The protocol for building an outgoing message element by element into the
//! engine's fixed-size buffer.
//!
//! The engine preallocates a buffer of the requested capacity and checks no
//! bounds itself, so every check is made here, before anything is forwarded.
//! A caller forwards an element, or the finished message, to the engine only
//! when the matching call here returned `Ok`.

use vstd::prelude::*;

verus! {

/// How many trailing elements a typed message can carry: the engine's typed
/// representation addresses no more than this.
pub const TYPED_MESSAGE_LIMIT: i32 = 4;

/// The ways a send can fail.
#[derive(Clone, Debug, PartialEq, Eq)]
pub enum SendError {
    /// A negative capacity was asked for.
    InvalidCapacity,
    /// A message is already being built on this instance.
    MessageAlreadyStarted,
    /// No message is being built.
    MessageNotStarted,
    /// The message holds, or would hold, more elements than it may.
    OutOfRange,
    /// The engine has no receiver of the given name.
    MissingDestination(String),
}

/// The declared capacity of a message under construction and how much of
/// it is used.
#[derive(Clone, Copy, Debug)]
pub struct SentMessageInfo {
    capacity: i32,
    length: i32,
    overflowed: bool,
}

impl SentMessageInfo {
    pub closed spec fn capacity_spec(&self) -> int {
        self.capacity as int
    }

    pub closed spec fn length_spec(&self) -> int {
        self.length as int
    }

    /// Whether an element was refused for want of room: such a message is
    /// malformed and is never sent.
    pub closed spec fn overflowed_spec(&self) -> bool {
        self.overflowed
    }

    pub open spec fn wf(&self) -> bool {
        0 <= self.length_spec() <= self.capacity_spec()
    }

    /// Starts the bookkeeping for a message of `capacity` elements.
    pub fn new(capacity: i32) -> (r: Result<SentMessageInfo, SendError>)
        ensures
            capacity < 0 <==> r is Err,
            r matches Err(e) ==> e == SendError::InvalidCapacity,
            r matches Ok(info) ==> {
                &&& info.wf()
                &&& info.capacity_spec() == capacity
                &&& info.length_spec() == 0
                &&& !info.overflowed_spec()
            },
    {
        if capacity < 0 {
            return Err(SendError::InvalidCapacity);
        }
        Ok(SentMessageInfo { capacity, length: 0, overflowed: false })
    }

    /// Accounts for one more element. When the message is full the element
    /// is refused, the length stays, and the message is marked malformed.
    pub fn increment(&mut self) -> (r: Result<(), SendError>)
        requires
            old(self).wf(),
        ensures
            final(self).wf(),
            final(self).capacity_spec() == old(self).capacity_spec(),
            old(self).length_spec() < old(self).capacity_spec() ==> {
                &&& r is Ok
                &&& final(self).length_spec() == old(self).length_spec() + 1
                &&& final(self).overflowed_spec() == old(self).overflowed_spec()
            },
            old(self).length_spec() == old(self).capacity_spec() ==> {
                &&& r == Err::<(), SendError>(SendError::OutOfRange)
                &&& final(self).length_spec() == old(self).length_spec()
                &&& final(self).overflowed_spec()
            },
    {
        if self.length < self.capacity {
            self.length = self.length + 1;
            Ok(())
        } else {
            self.overflowed = true;
            Err(SendError::OutOfRange)
        }
    }

    /// The declared capacity.
    pub fn capacity(&self) -> (r: i32)
        ensures
            r == self.capacity_spec(),
    {
        self.capacity
    }

    /// How many elements were accepted.
    pub fn length(&self) -> (r: i32)
        ensures
            r == self.length_spec(),
    {
        self.length
    }

    /// Whether an element was refused.
    pub fn overflowed(&self) -> (r: bool)
        ensures
            r == self.overflowed_spec(),
    {
        self.overflowed
    }
}

/// The state of the message protocol of one instance.
pub enum MessageState {
    Idle,
    Building { capacity: int, count: int, malformed: bool },
}

/// The message under construction on one instance, if any.
#[derive(Debug)]
pub struct MessageBuilder {
    info: Option<SentMessageInfo>,
}

impl MessageBuilder {
    pub closed spec fn state(&self) -> MessageState {
        match self.info {
            None => MessageState::Idle,
            Some(i) => MessageState::Building {
                capacity: i.capacity_spec(),
                count: i.length_spec(),
                malformed: i.overflowed_spec(),
            },
        }
    }

    pub closed spec fn wf(&self) -> bool {
        self.info matches Some(i) ==> i.wf()
    }

    /// No message is being built.
    pub fn new() -> (r: MessageBuilder)
        ensures
            r.wf(),
            r.state() == MessageState::Idle,
    {
        MessageBuilder { info: None }
    }

    /// Whether a message is being built.
    pub fn is_building(&self) -> (r: bool)
        ensures
            r == (self.state() is Building),
    {
        self.info.is_some()
    }

    /// Starts a message of `capacity` elements. A message already in
    /// progress is reported, and kept, before a negative capacity is. On
    /// `Ok` the caller asks the engine for the buffer, and calls
    /// [`MessageBuilder::abandon`] if the engine refuses it.
    pub fn start_message(&mut self, capacity: i32) -> (r: Result<(), SendError>)
        requires
            old(self).wf(),
        ensures
            final(self).wf(),
            old(self).state() is Building ==> r == Err::<(), SendError>(
                SendError::MessageAlreadyStarted,
            ),
            old(self).state() is Idle && capacity < 0 ==> r == Err::<(), SendError>(
                SendError::InvalidCapacity,
            ),
            old(self).state() is Idle && capacity >= 0 ==> r is Ok,
            r is Ok ==> final(self).state() == (MessageState::Building {
                capacity: capacity as int,
                count: 0,
                malformed: false,
            }),
            r is Err ==> final(self).state() == old(self).state(),
    {
        if self.info.is_some() {
            return Err(SendError::MessageAlreadyStarted);
        }
        match SentMessageInfo::new(capacity) {
            Err(e) => Err(e),
            Ok(info) => {
                self.info = Some(info);
                Ok(())
            },
        }
    }

    /// Accounts for one more element of the message. On `Ok` the caller
    /// forwards the element to the engine; on `Err` it forwards nothing.
    pub fn add_element(&mut self) -> (r: Result<(), SendError>)
        requires
            old(self).wf(),
        ensures
            final(self).wf(),
            match old(self).state() {
                MessageState::Idle => {
                    &&& r == Err::<(), SendError>(SendError::MessageNotStarted)
                    &&& final(self).state() == MessageState::Idle
                },
                MessageState::Building { capacity, count, malformed } => if count < capacity {
                    &&& r is Ok
                    &&& final(self).state() == (MessageState::Building {
                        capacity,
                        count: count + 1,
                        malformed,
                    })
                } else {
                    &&& r == Err::<(), SendError>(SendError::OutOfRange)
                    &&& final(self).state() == (MessageState::Building {
                        capacity,
                        count,
                        malformed: true,
                    })
                },
            },
    {
        match &mut self.info {
            None => Err(SendError::MessageNotStarted),
            Some(info) => info.increment(),
        }
    }

    /// Finishes the message as a plain list. On `Ok` the caller has the
    /// engine send it. A malformed message is dropped unsent.
    pub fn finish_as_list(&mut self) -> (r: Result<(), SendError>)
        requires
            old(self).wf(),
        ensures
            final(self).wf(),
            final(self).state() == MessageState::Idle,
            match old(self).state() {
                MessageState::Idle => r == Err::<(), SendError>(SendError::MessageNotStarted),
                MessageState::Building { malformed, .. } => if malformed {
                    r == Err::<(), SendError>(SendError::OutOfRange)
                } else {
                    r is Ok
                },
            },
    {
        match self.info.take() {
            None => Err(SendError::MessageNotStarted),
            Some(info) => {
                if info.overflowed() {
                    Err(SendError::OutOfRange)
                } else {
                    Ok(())
                }
            },
        }
    }

    /// Finishes the message as a typed message. On `Ok` the caller has the
    /// engine send it. A message with more elements than a typed message
    /// can carry is kept, so that it can still be finished as a list; a
    /// malformed message is dropped unsent.
    pub fn finish_as_typed(&mut self) -> (r: Result<(), SendError>)
        requires
            old(self).wf(),
        ensures
            final(self).wf(),
            match old(self).state() {
                MessageState::Idle => {
                    &&& r == Err::<(), SendError>(SendError::MessageNotStarted)
                    &&& final(self).state() == MessageState::Idle
                },
                MessageState::Building { count, malformed, .. } => if malformed {
                    &&& r == Err::<(), SendError>(SendError::OutOfRange)
                    &&& final(self).state() == MessageState::Idle
                } else if count > TYPED_MESSAGE_LIMIT {
                    &&& r == Err::<(), SendError>(SendError::OutOfRange)
                    &&& final(self).state() == old(self).state()
                } else {
                    &&& r is Ok
                    &&& final(self).state() == MessageState::Idle
                },
            },
    {
        match self.info {
            None => Err(SendError::MessageNotStarted),
            Some(info) => {
                if info.overflowed() {
                    self.info = None;
                    Err(SendError::OutOfRange)
                } else if info.length() > TYPED_MESSAGE_LIMIT {
                    Err(SendError::OutOfRange)
                } else {
                    self.info = None;
                    Ok(())
                }
            },
        }
    }

    /// Drops the message under construction, if any, without sending it.
    pub fn abandon(&mut self)
        ensures
            final(self).wf(),
            final(self).state() == MessageState::Idle,
    {
        self.info = None;
    }
}

} // verus!
