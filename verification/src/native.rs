//! The native methods that the commands invoke, and what a failed
//! round trip to one of them is called.

use vstd::prelude::*;

verus! {

/// A method of the activity that a command invokes.
#[derive(Clone, Copy, Debug, PartialEq, Eq)]
pub enum NativeMethod {
    GetConnectedUsbDevices,
    TakePhotoBase64,
    GetPhotoResult,
    Print,
}

/// A step of the round trip to a native method, in the order in which they
/// are taken.
#[derive(Clone, Copy, Debug, PartialEq, Eq)]
pub enum Step {
    /// Getting hold of the Java virtual machine.
    JavaVm,
    /// Attaching the current thread to it.
    AttachThread,
    /// Making a Java string of the argument.
    NewString,
    /// Invoking the method.
    CallMethod,
    /// Taking the returned value as an object.
    ResultObject,
    /// Reading the returned object as a string.
    GetString,
}

/// A round trip that failed: at which step, and what the platform said.
#[derive(Debug, PartialEq, Eq)]
pub struct Failure {
    pub step: Step,
    pub detail: String,
}

/// A native call to make: the method, and its argument where it takes one.
#[derive(Debug, PartialEq, Eq)]
pub struct NativeCall {
    pub method: NativeMethod,
    pub argument: Option<String>,
}

/// What a `NativeCall` holds.
pub struct NativeCallRecord {
    pub method: NativeMethod,
    pub argument: Option<Seq<char>>,
}

impl View for NativeCall {
    type V = NativeCallRecord;

    open spec fn view(&self) -> NativeCallRecord {
        NativeCallRecord {
            method: self.method,
            argument: match self.argument {
                Some(s) => Some(s@),
                None => None,
            },
        }
    }
}

impl NativeMethod {
    /// The method's name on the native side.
    pub open spec fn spec_name(self) -> Seq<char> {
        match self {
            NativeMethod::GetConnectedUsbDevices => "getConnectedUsbDevices"@,
            NativeMethod::TakePhotoBase64 => "takePhotoBase64"@,
            NativeMethod::GetPhotoResult => "getPhotoResult"@,
            NativeMethod::Print => "print"@,
        }
    }

    /// The method's signature on the native side: `print` takes a string,
    /// the others nothing, and all return a string.
    pub open spec fn spec_signature(self) -> Seq<char> {
        match self {
            NativeMethod::Print => "(Ljava/lang/String;)Ljava/lang/String;"@,
            _ => "()Ljava/lang/String;"@,
        }
    }

    /// The words that name a failure of this method at a step.
    pub open spec fn spec_failure_label(self, step: Step) -> Seq<char> {
        match step {
            Step::JavaVm => "Failed to get JavaVM: "@,
            Step::AttachThread => "Failed to attach thread: "@,
            Step::NewString => "Failed to create Java string: "@,
            Step::CallMethod => match self {
                NativeMethod::GetConnectedUsbDevices => "Failed to call getConnectedUsbDevices: "@,
                NativeMethod::TakePhotoBase64 => "Failed to call takePhotoBase64: "@,
                NativeMethod::GetPhotoResult => "Failed to call getPhotoResult: "@,
                NativeMethod::Print => "Failed to call print method: "@,
            },
            Step::ResultObject => match self {
                NativeMethod::Print => "Failed to get result object: "@,
                _ => "Failed to convert to object: "@,
            },
            Step::GetString => match self {
                NativeMethod::Print => "Failed to get response string: "@,
                _ => "Failed to get string: "@,
            },
        }
    }

    /// The method's name on the native side.
    pub fn name(&self) -> (r: &'static str)
        ensures
            r@ == self.spec_name(),
    {
        match self {
            NativeMethod::GetConnectedUsbDevices => "getConnectedUsbDevices",
            NativeMethod::TakePhotoBase64 => "takePhotoBase64",
            NativeMethod::GetPhotoResult => "getPhotoResult",
            NativeMethod::Print => "print",
        }
    }

    /// The method's signature on the native side.
    pub fn signature(&self) -> (r: &'static str)
        ensures
            r@ == self.spec_signature(),
    {
        match self {
            NativeMethod::Print => "(Ljava/lang/String;)Ljava/lang/String;",
            _ => "()Ljava/lang/String;",
        }
    }

    /// The words that name a failure of this method at a step.
    pub fn failure_label(&self, step: Step) -> (r: &'static str)
        ensures
            r@ == self.spec_failure_label(step),
    {
        match step {
            Step::JavaVm => "Failed to get JavaVM: ",
            Step::AttachThread => "Failed to attach thread: ",
            Step::NewString => "Failed to create Java string: ",
            Step::CallMethod => match self {
                NativeMethod::GetConnectedUsbDevices => "Failed to call getConnectedUsbDevices: ",
                NativeMethod::TakePhotoBase64 => "Failed to call takePhotoBase64: ",
                NativeMethod::GetPhotoResult => "Failed to call getPhotoResult: ",
                NativeMethod::Print => "Failed to call print method: ",
            },
            Step::ResultObject => match self {
                NativeMethod::Print => "Failed to get result object: ",
                _ => "Failed to convert to object: ",
            },
            Step::GetString => match self {
                NativeMethod::Print => "Failed to get response string: ",
                _ => "Failed to get string: ",
            },
        }
    }

    /// The error of a round trip to this method that failed: the words for
    /// the step, then what the platform said.
    pub fn failure_text(&self, failure: &Failure) -> (r: String)
        ensures
            r@ == self.spec_failure_label(failure.step) + failure.detail@,
    {
        let mut out = String::from_str(self.failure_label(failure.step));
        out.append(failure.detail.as_str());
        out
    }
}

} // verus!
