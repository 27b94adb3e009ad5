//! State that a traversal carries besides the nodes: the stack of scopes, the
//! clipping stack and the messages waiting for the host.

use vstd::prelude::*;
use crate::message::{chains_view, copy_chains, messages_view, NativeMessage, NativeMessageView};
use crate::scope::{Scope, StackFrame, StackFrameView};
use crate::value::TypedValue;

verus! {

/// Container for the data a frame needs aside from the nodes themselves.
pub struct Runtime {
    pub stack: Vec<StackFrame>,
    pub clipping_stack: Vec<Vec<u64>>,
    pub native_message_queue: Vec<NativeMessage>,
    /// How many frames were ever pushed.
    pub frames_pushed: Ghost<nat>,
    /// How many frames were ever popped.
    pub frames_popped: Ghost<nat>,
}

/// The value that `key` resolves to on a stack of frames: the binding of the
/// innermost frame that binds it.
pub open spec fn resolve_in(stack: Seq<StackFrameView>, key: Seq<char>) -> Option<TypedValue>
    decreases stack.len(),
{
    if stack.len() == 0 {
        None
    } else if stack.last().scope.contains_key(key) {
        Some(stack.last().scope[key])
    } else {
        resolve_in(stack.drop_last(), key)
    }
}

/// What a list of frames holds, in order.
pub open spec fn frames_view(stack: Seq<StackFrame>) -> Seq<StackFrameView> {
    stack.map_values(|f: StackFrame| f@)
}

impl Runtime {
    /// The frames, outermost first.
    pub open spec fn frames(&self) -> Seq<StackFrameView> {
        frames_view(self.stack@)
    }

    /// The identifier paths of the clipping nodes being drawn, outermost first.
    pub open spec fn clipping_ids(&self) -> Seq<Seq<u64>> {
        chains_view(self.clipping_stack@)
    }

    /// The messages waiting for the host, oldest first.
    pub open spec fn queued(&self) -> Seq<NativeMessageView> {
        messages_view(self.native_message_queue@)
    }

    /// How many frames were ever pushed.
    pub open spec fn pushes(&self) -> nat {
        self.frames_pushed@
    }

    /// How many frames were ever popped.
    pub open spec fn pops(&self) -> nat {
        self.frames_popped@
    }

    /// Every frame that is gone was popped: the pushes exceed the pops by the
    /// depth of the stack.
    pub open spec fn wf(&self) -> bool {
        self.pushes() == self.pops() + self.frames().len()
    }

    pub fn new() -> (r: Runtime)
        ensures
            r.wf(),
            r.frames().len() == 0,
            r.clipping_ids().len() == 0,
            r.queued().len() == 0,
            r.pushes() == 0,
            r.pops() == 0,
    {
        Runtime {
            stack: Vec::new(),
            clipping_stack: Vec::new(),
            native_message_queue: Vec::new(),
            frames_pushed: Ghost(0),
            frames_popped: Ghost(0),
        }
    }

    /// The innermost active frame, or `None` where no frame is active.
    pub fn peek_stack_frame(&self) -> (top: Option<&StackFrame>)
        ensures
            match top {
                Some(frame) => self.frames().len() > 0 && frame@ == self.frames().last(),
                None => self.frames().len() == 0,
            },
    {
        let n: usize = self.stack.len();
        if n > 0 {
            Some(&self.stack[n - 1])
        } else {
            None
        }
    }

    /// Removes the innermost frame.
    pub fn pop_stack_frame(&mut self)
        requires
            old(self).frames().len() > 0,
        ensures
            final(self).frames() == old(self).frames().drop_last(),
            final(self).pops() == old(self).pops() + 1,
            final(self).pushes() == old(self).pushes(),
            final(self).clipping_ids() == old(self).clipping_ids(),
            final(self).queued() == old(self).queued(),
            old(self).wf() ==> final(self).wf(),
    {
        self.stack.pop();
        self.frames_popped = Ghost(self.frames_popped@ + 1);
    }

    /// Makes a frame of `adoptees` and `scope` the innermost frame.
    pub fn push_stack_frame(&mut self, adoptees: Vec<u64>, scope: Scope)
        ensures
            final(self).frames() == old(self).frames().push(
                StackFrameView { adoptees: adoptees@, scope: scope@ },
            ),
            final(self).pushes() == old(self).pushes() + 1,
            final(self).pops() == old(self).pops(),
            final(self).clipping_ids() == old(self).clipping_ids(),
            final(self).queued() == old(self).queued(),
            old(self).wf() ==> final(self).wf(),
    {
        self.stack.push(StackFrame::new(adoptees, scope));
        self.frames_pushed = Ghost(self.frames_pushed@ + 1);
    }

    /// Resolves `key` against the whole stack: the innermost frame that binds
    /// it answers, and `None` says that no active frame binds it.
    pub fn resolve(&self, key: &str) -> (v: Option<TypedValue>)
        ensures
            v == resolve_in(self.frames(), key@),
    {
        let mut i: usize = self.stack.len();
        assert(self.frames().take(i as int) =~= self.frames());
        while i > 0
            invariant
                i <= self.stack.len(),
                resolve_in(self.frames(), key@) == resolve_in(self.frames().take(i as int), key@),
            decreases i,
        {
            i = i - 1;
            proof {
                assert(self.frames().take(i + 1).drop_last() =~= self.frames().take(i as int));
            }
            let found: Option<TypedValue> = self.stack[i].scope.get(key);
            if found.is_some() {
                return found;
            }
        }
        None
    }

    /// Records that the clipping node at `id_chain` is being drawn.
    pub fn push_clipping_stack_id(&mut self, id_chain: Vec<u64>)
        ensures
            final(self).clipping_ids() == old(self).clipping_ids().push(id_chain@),
            final(self).frames() == old(self).frames(),
            final(self).queued() == old(self).queued(),
            final(self).pushes() == old(self).pushes(),
            final(self).pops() == old(self).pops(),
    {
        self.clipping_stack.push(id_chain);
    }

    /// Forgets the innermost clipping node; does nothing where none is being drawn.
    pub fn pop_clipping_stack_id(&mut self)
        ensures
            final(self).clipping_ids() == (if old(self).clipping_ids().len() > 0 {
                old(self).clipping_ids().drop_last()
            } else {
                old(self).clipping_ids()
            }),
            final(self).frames() == old(self).frames(),
            final(self).queued() == old(self).queued(),
            final(self).pushes() == old(self).pushes(),
            final(self).pops() == old(self).pops(),
    {
        self.clipping_stack.pop();
    }

    /// The identifier paths of the clipping nodes being drawn, outermost first.
    pub fn get_current_clipping_ids(&self) -> (ids: Vec<Vec<u64>>)
        ensures
            chains_view(ids@) == self.clipping_ids(),
    {
        copy_chains(&self.clipping_stack)
    }

    /// Appends `message` to the messages waiting for the host.
    pub fn enqueue_native_message(&mut self, message: NativeMessage)
        ensures
            final(self).queued() == old(self).queued().push(message@),
            final(self).frames() == old(self).frames(),
            final(self).clipping_ids() == old(self).clipping_ids(),
            final(self).pushes() == old(self).pushes(),
            final(self).pops() == old(self).pops(),
    {
        self.native_message_queue.push(message);
    }

    /// Hands over the waiting messages, oldest first, and leaves none waiting.
    pub fn take_native_message_queue(&mut self) -> (messages: Vec<NativeMessage>)
        ensures
            messages_view(messages@) == old(self).queued(),
            final(self).queued().len() == 0,
            final(self).frames() == old(self).frames(),
            final(self).clipping_ids() == old(self).clipping_ids(),
            final(self).pushes() == old(self).pushes(),
            final(self).pops() == old(self).pops(),
    {
        let mut messages: Vec<NativeMessage> = Vec::new();
        std::mem::swap(&mut messages, &mut self.native_message_queue);
        messages
    }
}

} // verus!
