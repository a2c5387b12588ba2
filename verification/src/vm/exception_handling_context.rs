use crate::vm::exception_handling_state::ExceptionHandlingState;
use vstd::prelude::*;

verus! {

/// One active `TRY`: where its handler and its final block start, where
/// execution goes on after it, and which of its blocks is running.
#[derive(Debug, Clone, Copy, PartialEq, Eq, Structural)]
pub struct ExceptionHandlingContext {
    pub catch_pointer: Option<usize>,
    pub finally_pointer: Option<usize>,
    pub end_pointer: Option<usize>,
    pub state: ExceptionHandlingState,
}

impl ExceptionHandlingContext {
    /// A handler whose body is about to run.
    pub fn new(catch_pointer: Option<usize>, finally_pointer: Option<usize>) -> (r: Self)
        ensures
            r == (ExceptionHandlingContext {
                catch_pointer,
                finally_pointer,
                end_pointer: None,
                state: ExceptionHandlingState::Try,
            }),
    {
        ExceptionHandlingContext {
            catch_pointer,
            finally_pointer,
            end_pointer: None,
            state: ExceptionHandlingState::Try,
        }
    }

    pub fn catch_pointer(&self) -> (r: Option<usize>)
        ensures
            r == self.catch_pointer,
    {
        self.catch_pointer
    }

    pub fn finally_pointer(&self) -> (r: Option<usize>)
        ensures
            r == self.finally_pointer,
    {
        self.finally_pointer
    }

    pub fn end_pointer(&self) -> (r: Option<usize>)
        ensures
            r == self.end_pointer,
    {
        self.end_pointer
    }

    pub fn state(&self) -> (r: ExceptionHandlingState)
        ensures
            r == self.state,
    {
        self.state
    }

    pub fn has_catch(&self) -> (r: bool)
        ensures
            r == (self.catch_pointer is Some),
    {
        self.catch_pointer.is_some()
    }

    pub fn has_finally(&self) -> (r: bool)
        ensures
            r == (self.finally_pointer is Some),
    {
        self.finally_pointer.is_some()
    }

    pub fn set_state(&mut self, state: ExceptionHandlingState)
        ensures
            *final(self) == (ExceptionHandlingContext { state, ..*old(self) }),
    {
        self.state = state;
    }

    pub fn set_end_pointer(&mut self, end_pointer: usize)
        ensures
            *final(self) == (ExceptionHandlingContext {
                end_pointer: Some(end_pointer),
                ..*old(self)
            }),
    {
        self.end_pointer = Some(end_pointer);
    }
}

} // verus!
