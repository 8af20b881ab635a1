use vstd::prelude::*;
use crate::chat::window::{
    appended, evict_oldest, lemma_evict_without_evictable, lemma_pruned_is_bounded, pruned,
    within_capacity,
};
use crate::llm::message::{ChatMessage, Role, Turn};

verus! {

/// How many messages a context keeps unless told otherwise.
pub const MAX_CONTEXT_MESSAGES: usize = 20;

/// The conversation window: the bounded history that is sent to the model.
///
/// Messages are kept oldest first. After every append the oldest messages
/// that are not standing instructions are dropped until the window is back
/// within its capacity, or until only standing instructions are left.
pub struct ChatContext {
    messages: Vec<ChatMessage>,
    capacity: usize,
}

impl View for ChatContext {
    type V = Seq<Turn>;

    closed spec fn view(&self) -> Seq<Turn> {
        self.messages.deep_view()
    }
}

impl ChatContext {
    /// The number of messages that the window is held to.
    pub closed spec fn spec_capacity(&self) -> usize {
        self.capacity
    }

    /// Whether the window is as short as eviction can make it. This holds of
    /// every window between two calls.
    pub open spec fn is_within_capacity(&self) -> bool {
        within_capacity(self@, self.capacity() as nat)
    }

    /// An empty window of the default capacity.
    pub fn new() -> (context: Self)
        ensures
            context@ == Seq::<Turn>::empty(),
            context.capacity() == MAX_CONTEXT_MESSAGES,
            context.is_within_capacity(),
    {
        let context = ChatContext { messages: Vec::new(), capacity: MAX_CONTEXT_MESSAGES };
        context
    }

    /// An empty window that keeps `capacity` messages.
    pub fn with_capacity(capacity: usize) -> (context: Self)
        ensures
            context@ == Seq::<Turn>::empty(),
            context.capacity() == capacity,
            context.is_within_capacity(),
    {
        let context = ChatContext { messages: Vec::new(), capacity };
        context
    }

    /// The window that a session starts with: empty, or holding what the user
    /// said first where that is not empty.
    pub fn with_initial_prompt(initial_prompt: String) -> (context: Self)
        ensures
            context.capacity() == MAX_CONTEXT_MESSAGES,
            context@ == if initial_prompt@.len() == 0 {
                Seq::<Turn>::empty()
            } else {
                seq![Turn { role: Role::User, content: initial_prompt@ }]
            },
            context.is_within_capacity(),
    {
        let mut context = ChatContext::new();
        if !initial_prompt.as_str().is_empty() {
            context.add_user_message(initial_prompt);
        }
        context
    }

    /// The number of messages that the window is held to.
    #[verifier::when_used_as_spec(spec_capacity)]
    pub fn capacity(&self) -> (capacity: usize)
        ensures
            capacity == self.capacity(),
    {
        self.capacity
    }

    /// The number of messages in the window.
    pub fn len(&self) -> (len: usize)
        ensures
            len == self@.len(),
    {
        self.messages.len()
    }

    /// Appends `message` and evicts what the capacity asks for.
    pub fn add_message(&mut self, message: ChatMessage)
        ensures
            final(self)@ == appended(old(self)@, old(self).capacity() as nat, message@),
            final(self).capacity() == old(self).capacity(),
            final(self).is_within_capacity(),
    {
        self.messages.push(message);
        assert(self.messages.deep_view() =~= old(self).messages.deep_view().push(message@));
        self.prune_if_needed();
    }

    /// Appends what the user said and evicts what the capacity asks for.
    pub fn add_user_message(&mut self, content: String)
        ensures
            final(self)@ == appended(
                old(self)@,
                old(self).capacity() as nat,
                Turn { role: Role::User, content: content@ },
            ),
            final(self).capacity() == old(self).capacity(),
            final(self).is_within_capacity(),
    {
        self.add_message(ChatMessage::user(content));
    }

    /// Appends what the model answered and evicts what the capacity asks for.
    pub fn add_assistant_message(&mut self, content: String)
        ensures
            final(self)@ == appended(
                old(self)@,
                old(self).capacity() as nat,
                Turn { role: Role::Assistant, content: content@ },
            ),
            final(self).capacity() == old(self).capacity(),
            final(self).is_within_capacity(),
    {
        self.add_message(ChatMessage::assistant(content));
    }

    /// The messages of the window, oldest first.
    pub fn get_messages(&self) -> (messages: &[ChatMessage])
        ensures
            messages.deep_view() == self@,
    {
        let messages = self.messages.as_slice();
        messages
    }

    /// A copy of the messages of the window, oldest first. The copy is a value
    /// of its own: it holds what the window held when it was taken.
    pub fn get_messages_clone(&self) -> (snapshot: Vec<ChatMessage>)
        ensures
            snapshot.deep_view() == self@,
    {
        let mut snapshot: Vec<ChatMessage> = Vec::new();
        let mut i: usize = 0;
        while i < self.messages.len()
            invariant
                i <= self.messages.len(),
                snapshot.deep_view() == self.messages.deep_view().take(i as int),
            decreases self.messages.len() - i,
        {
            let ghost taken = snapshot.deep_view();
            let message = self.messages[i].clone();
            snapshot.push(message);
            i += 1;
            assert(self.messages.deep_view().take(i as int) =~= taken.push(message@));
        }
        snapshot
    }

    /// Evicts the oldest unprotected messages while the window is over
    /// capacity. A window that an append left behind is already pruned, so
    /// there this changes nothing.
    pub fn prune_if_needed(&mut self)
        ensures
            final(self)@ == pruned(old(self)@, old(self).capacity() as nat),
            final(self).capacity() == old(self).capacity(),
            final(self).is_within_capacity(),
            old(self).is_within_capacity() ==> final(self)@ == old(self)@,
    {
        proof {
            lemma_pruned_is_bounded(self@, self.capacity as nat);
            if self.is_within_capacity() && self@.len() > self.capacity {
                lemma_evict_without_evictable(
                    self@,
                    (self@.len() - self.capacity) as nat,
                );
            }
        }
        if self.messages.len() > self.capacity {
            let to_remove: usize = self.messages.len() - self.capacity;
            let mut removed: usize = 0;
            let mut i: usize = 0;
            assert(self.messages.deep_view().skip(0) =~= self.messages.deep_view());
            while removed < to_remove && i < self.messages.len()
                invariant
                    removed <= to_remove,
                    i <= self.messages.len(),
                    self.capacity == old(self).capacity,
                    evict_oldest(old(self)@, to_remove as nat) == self.messages.deep_view().take(
                        i as int,
                    ) + evict_oldest(
                        self.messages.deep_view().skip(i as int),
                        (to_remove - removed) as nat,
                    ),
                decreases self.messages.len() - i,
            {
                let ghost current = self.messages.deep_view();
                let ghost rest = current.skip(i as int);
                if !self.messages[i].is_protected() {
                    self.messages.remove(i);
                    removed += 1;
                    assert(self.messages.deep_view().skip(i as int) =~= rest.drop_first());
                } else {
                    i += 1;
                    assert(current.skip(i as int) =~= rest.drop_first());
                }
            }
        }
    }
}

} // verus!
