//! The call stack, kept in a `SmallVec` of the `smallvec` crate: twelve return
//! addresses inline, more on the heap. Everything in this file is trusted:
//! Verus does not look inside the vector, and believes what is stated here of
//! the calls into it.
use vstd::prelude::*;
use crate::semantics::STACK_SIZE;

verus! {

/// The call stack's vector. The last entry is the top of the stack.
///
/// The vector is opaque to Verus, which does not take the bound of
/// `smallvec::SmallVec`: what it holds is [`stack_entries`].
#[verifier::external_body]
pub struct CallStack {
    entries: smallvec::SmallVec<[u16; STACK_SIZE]>,
}

/// The return addresses that a call stack holds, oldest first.
pub uninterp spec fn stack_entries(stack: CallStack) -> Seq<u16>;

/// `smallvec::SmallVec::new`: an empty vector.
#[verifier::external_body]
pub(crate) fn stack_new() -> (stack: CallStack)
    ensures
        stack_entries(stack) == Seq::<u16>::empty(),
{
    CallStack { entries: smallvec::SmallVec::new() }
}

/// `smallvec::SmallVec::push`: the value is appended. The call fails only
/// where the vector cannot grow, at a length that no memory holds.
#[verifier::external_body]
pub(crate) fn stack_push(stack: &mut CallStack, value: u16)
    ensures
        stack_entries(*final(stack)) == stack_entries(*old(stack)).push(value),
{
    stack.entries.push(value);
}

/// `smallvec::SmallVec::pop`: the last entry is removed and returned; an empty
/// vector stays empty and gives `None`.
#[verifier::external_body]
pub(crate) fn stack_pop(stack: &mut CallStack) -> (top: Option<u16>)
    ensures
        stack_entries(*old(stack)).len() == 0 ==> top.is_none() && stack_entries(*final(stack))
            == stack_entries(*old(stack)),
        stack_entries(*old(stack)).len() > 0 ==> top == Some(stack_entries(*old(stack)).last())
            && stack_entries(*final(stack)) == stack_entries(*old(stack)).drop_last(),
{
    stack.entries.pop()
}

/// `smallvec::SmallVec::len`: the number of entries.
#[verifier::external_body]
pub(crate) fn stack_len(stack: &CallStack) -> (len: usize)
    ensures
        len == stack_entries(*stack).len(),
{
    stack.entries.len()
}

} // verus!
