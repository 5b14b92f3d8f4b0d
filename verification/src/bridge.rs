//! The native bridge: which method of the host activity stands behind each
//! request, and what becomes of a call's outcome. The calls themselves are
//! made by the host; a failed call is never an error of the engine.

use vstd::prelude::*;

verus! {

/// A request that the UI posts to the dispatch loop for the native side.
#[derive(Clone, Copy, Debug, PartialEq, Eq, Structural)]
pub enum UserEvent {
    ShowKeyboard,
    HideKeyboard,
}

/// A call into the host activity.
#[derive(Clone, Copy, Debug, PartialEq, Eq, Structural)]
pub enum BridgeCall {
    /// Invoke the zero-argument method that serves a request.
    Invoke(UserEvent),
    /// Read the text the platform's clipboard holds.
    ReadText,
    /// Hand a text to the platform's clipboard.
    WriteText,
}

impl BridgeCall {
    /// The name of the activity's method that this call invokes.
    pub open spec fn method_name(self) -> Seq<char> {
        match self {
            BridgeCall::Invoke(UserEvent::ShowKeyboard) => "showKeyboard"@,
            BridgeCall::Invoke(UserEvent::HideKeyboard) => "hideKeyboard"@,
            BridgeCall::ReadText => "readClipboard"@,
            BridgeCall::WriteText => "writeClipboard"@,
        }
    }

    /// The type signature of that method, in the host runtime's notation.
    pub open spec fn method_signature(self) -> Seq<char> {
        match self {
            BridgeCall::Invoke(_) => "()V"@,
            BridgeCall::ReadText => "()Ljava/lang/String;"@,
            BridgeCall::WriteText => "(Ljava/lang/String;)V"@,
        }
    }

    /// The name of the activity's method that this call invokes.
    pub fn method(&self) -> (name: &'static str)
        ensures
            name@ == self.method_name(),
    {
        match self {
            BridgeCall::Invoke(UserEvent::ShowKeyboard) => "showKeyboard",
            BridgeCall::Invoke(UserEvent::HideKeyboard) => "hideKeyboard",
            BridgeCall::ReadText => "readClipboard",
            BridgeCall::WriteText => "writeClipboard",
        }
    }

    /// The type signature of that method, in the host runtime's notation.
    pub fn signature(&self) -> (signature: &'static str)
        ensures
            signature@ == self.method_signature(),
    {
        match self {
            BridgeCall::Invoke(_) => "()V",
            BridgeCall::ReadText => "()Ljava/lang/String;",
            BridgeCall::WriteText => "(Ljava/lang/String;)V",
        }
    }
}

/// What is left of a failed call: which call it was and what the host
/// runtime said. It is meant for the log and for nothing else.
#[derive(Debug, PartialEq, Eq)]
pub struct Diagnostic {
    pub call: BridgeCall,
    pub reason: String,
}

/// What the caller gets of a call into the host activity.
#[derive(Debug, PartialEq, Eq)]
pub struct Settled<T> {
    /// What the call returned, absent if it failed.
    pub value: Option<T>,
    /// What to log, present if the call failed.
    pub diagnostic: Option<Diagnostic>,
}

/// Settles the outcome of `call`. A success hands its value on and leaves
/// nothing to log; a failure hands on no value and one diagnostic. Either
/// way the caller has nothing to propagate.
pub fn settle<T>(call: BridgeCall, outcome: Result<T, String>) -> (settled: Settled<T>)
    ensures
        match outcome {
            Ok(value) => settled.value == Some(value) && settled.diagnostic is None,
            Err(reason) => settled.value is None && settled.diagnostic == Some(
                Diagnostic { call, reason },
            ),
        },
{
    match outcome {
        Ok(value) => Settled { value: Some(value), diagnostic: None },
        Err(reason) => Settled { value: None, diagnostic: Some(Diagnostic { call, reason }) },
    }
}

} // verus!
