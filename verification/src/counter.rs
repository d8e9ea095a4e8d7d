//! The counter application: a single unsigned value driven by increment and
//! reset inputs from operations, messages and application calls.

use vstd::prelude::*;

use crate::host::{ApplicationCallResult, ContractError, ExecutionResult};

verus! {

/// The state of the counter application.
#[derive(Clone, Copy, Debug, PartialEq, Eq, Structural)]
pub struct Counter {
    /// The current value of the counter.
    pub value: u64,
}

/// The operation types that can be sent to the counter application.
#[derive(Clone, Copy, Debug)]
pub enum CounterOperation {
    /// Increments the counter value by 1.
    Increment,
    /// Increments the counter value by the specified amount.
    IncrementBy { value: u64 },
    /// Resets the counter to 0.
    Reset,
}

/// The message types that can be sent to the counter application.
#[derive(Clone, Copy, Debug)]
pub enum CounterMessage {
    /// Increments the counter value by 1.
    Increment,
    /// Increments the counter value by the specified amount.
    IncrementBy { value: u64 },
}

/// The application call types that can be made to the counter application.
#[derive(Clone, Copy, Debug)]
pub enum CounterApplicationCall {
    /// Increments the counter value by 1.
    Increment,
    /// Increments the counter value by the specified amount.
    IncrementBy { value: u64 },
    /// Gets the current counter value.
    GetValue,
}

/// The session call types; the feature is not offered.
#[derive(Clone, Copy, Debug)]
pub enum CounterSessionCall {
    /// Increments the counter value by 1.
    Increment,
    /// Increments the counter value by the specified amount.
    IncrementBy { value: u64 },
    /// Gets the current counter value.
    GetValue,
}

/// The effect types that can be sent by the counter application.
#[derive(Clone, Copy, Debug)]
pub enum CounterEffect {
    /// Increments the counter value by 1.
    Increment,
    /// Increments the counter value by the specified amount.
    IncrementBy { value: u64 },
}

/// A read-only snapshot of the counter state.
#[derive(Clone, Copy, Debug, PartialEq, Eq, Structural)]
pub struct CounterView {
    /// The current value of the counter.
    pub value: u64,
}

impl Counter {
    /// Initialization leaves the value as the host persisted it.
    pub fn initialize(&mut self) -> (r: ExecutionResult<CounterEffect>)
        ensures
            *final(self) == *old(self),
            r.effects@ == Seq::<CounterEffect>::empty(),
    {
        ExecutionResult::new()
    }

    /// Applies one locally initiated operation.
    pub fn execute_operation(&mut self, operation: CounterOperation) -> (r: ExecutionResult<
        CounterEffect,
    >)
        requires
            (match operation {
                CounterOperation::Increment => old(self).value < u64::MAX,
                CounterOperation::IncrementBy { value } => old(self).value + value <= u64::MAX,
                CounterOperation::Reset => true,
            }),
        ensures
            r.effects@ == Seq::<CounterEffect>::empty(),
            (match operation {
                CounterOperation::Increment => final(self).value == old(self).value + 1,
                CounterOperation::IncrementBy { value } => final(self).value == old(self).value
                    + value,
                CounterOperation::Reset => final(self).value == 0,
            }),
    {
        match operation {
            CounterOperation::Increment => {
                self.value = self.value + 1;
            },
            CounterOperation::IncrementBy { value } => {
                self.value = self.value + value;
            },
            CounterOperation::Reset => {
                self.value = 0;
            },
        }
        ExecutionResult::new()
    }

    /// Applies one cross-chain message.
    pub fn execute_message(&mut self, message: CounterMessage) -> (r: ExecutionResult<
        CounterEffect,
    >)
        requires
            (match message {
                CounterMessage::Increment => old(self).value < u64::MAX,
                CounterMessage::IncrementBy { value } => old(self).value + value <= u64::MAX,
            }),
        ensures
            r.effects@ == Seq::<CounterEffect>::empty(),
            (match message {
                CounterMessage::Increment => final(self).value == old(self).value + 1,
                CounterMessage::IncrementBy { value } => final(self).value == old(self).value
                    + value,
            }),
    {
        match message {
            CounterMessage::Increment => {
                self.value = self.value + 1;
            },
            CounterMessage::IncrementBy { value } => {
                self.value = self.value + value;
            },
        }
        ExecutionResult::new()
    }

    /// Serves a call from another application; `GetValue` is read-only.
    pub fn handle_application_call(&mut self, call: CounterApplicationCall) -> (r:
        ApplicationCallResult<u64, CounterEffect>)
        requires
            (match call {
                CounterApplicationCall::Increment => old(self).value < u64::MAX,
                CounterApplicationCall::IncrementBy { value } => old(self).value + value
                    <= u64::MAX,
                CounterApplicationCall::GetValue => true,
            }),
        ensures
            r.effects@ == Seq::<CounterEffect>::empty(),
            (match call {
                CounterApplicationCall::Increment => final(self).value == old(self).value + 1
                    && r.value is None,
                CounterApplicationCall::IncrementBy { value } => final(self).value == old(
                    self,
                ).value + value && r.value is None,
                CounterApplicationCall::GetValue => *final(self) == *old(self) && r.value
                    == Some(old(self).value),
            }),
    {
        match call {
            CounterApplicationCall::Increment => {
                self.value = self.value + 1;
                ApplicationCallResult::new()
            },
            CounterApplicationCall::IncrementBy { value } => {
                self.value = self.value + value;
                ApplicationCallResult::new()
            },
            CounterApplicationCall::GetValue => {
                ApplicationCallResult { value: Some(self.value), effects: Vec::new() }
            },
        }
    }

    /// Session-style calls are uniformly rejected: the feature is not
    /// offered.
    pub fn handle_session_call(&self, _call: CounterSessionCall) -> (r: Result<
        ExecutionResult<CounterEffect>,
        ContractError,
    >)
        ensures
            r == Err::<ExecutionResult<CounterEffect>, ContractError>(
                ContractError::UnsupportedCall,
            ),
    {
        Err(ContractError::UnsupportedCall)
    }

    /// Effects carry no work for the counter itself.
    pub fn handle_effect(&self, _effect: &CounterEffect) -> (r: ExecutionResult<CounterEffect>)
        ensures
            r.effects@ == Seq::<CounterEffect>::empty(),
    {
        ExecutionResult::new()
    }

    /// A read-only snapshot of the state.
    pub fn snapshot(&self) -> (v: CounterView)
        ensures
            v.value == self.value,
    {
        CounterView { value: self.value }
    }
}

impl Default for Counter {
    /// A counter starting at zero.
    fn default() -> (r: Self)
        ensures
            r.value == 0,
    {
        Counter { value: 0 }
    }
}

} // verus!
