use print_bridge::native::{Failure, NativeMethod, Step};

fn failure(step: Step, detail: &str) -> Failure {
    Failure { step, detail: detail.to_string() }
}

#[test]
fn names_are_those_of_the_native_side() {
    assert_eq!(NativeMethod::GetConnectedUsbDevices.name(), "getConnectedUsbDevices");
    assert_eq!(NativeMethod::TakePhotoBase64.name(), "takePhotoBase64");
    assert_eq!(NativeMethod::GetPhotoResult.name(), "getPhotoResult");
    assert_eq!(NativeMethod::Print.name(), "print");
}

#[test]
fn signatures_are_those_of_the_native_side() {
    assert_eq!(NativeMethod::GetConnectedUsbDevices.signature(), "()Ljava/lang/String;");
    assert_eq!(NativeMethod::TakePhotoBase64.signature(), "()Ljava/lang/String;");
    assert_eq!(NativeMethod::GetPhotoResult.signature(), "()Ljava/lang/String;");
    assert_eq!(NativeMethod::Print.signature(), "(Ljava/lang/String;)Ljava/lang/String;");
}

#[test]
fn failures_before_the_call_read_the_same_for_every_method() {
    let methods = [
        NativeMethod::GetConnectedUsbDevices,
        NativeMethod::TakePhotoBase64,
        NativeMethod::GetPhotoResult,
        NativeMethod::Print,
    ];
    for method in methods {
        assert_eq!(method.failure_label(Step::JavaVm), "Failed to get JavaVM: ");
        assert_eq!(method.failure_label(Step::AttachThread), "Failed to attach thread: ");
        assert_eq!(method.failure_label(Step::NewString), "Failed to create Java string: ");
    }
}

#[test]
fn a_failed_call_names_the_method() {
    assert_eq!(
        NativeMethod::GetConnectedUsbDevices.failure_label(Step::CallMethod),
        "Failed to call getConnectedUsbDevices: "
    );
    assert_eq!(
        NativeMethod::TakePhotoBase64.failure_label(Step::CallMethod),
        "Failed to call takePhotoBase64: "
    );
    assert_eq!(
        NativeMethod::GetPhotoResult.failure_label(Step::CallMethod),
        "Failed to call getPhotoResult: "
    );
    assert_eq!(NativeMethod::Print.failure_label(Step::CallMethod), "Failed to call print method: ");
}

#[test]
fn failures_after_the_call_read_differently_for_print() {
    let json_methods = [
        NativeMethod::GetConnectedUsbDevices,
        NativeMethod::TakePhotoBase64,
        NativeMethod::GetPhotoResult,
    ];
    for method in json_methods {
        assert_eq!(method.failure_label(Step::ResultObject), "Failed to convert to object: ");
        assert_eq!(method.failure_label(Step::GetString), "Failed to get string: ");
    }
    assert_eq!(
        NativeMethod::Print.failure_label(Step::ResultObject),
        "Failed to get result object: "
    );
    assert_eq!(
        NativeMethod::Print.failure_label(Step::GetString),
        "Failed to get response string: "
    );
}

#[test]
fn failure_text_puts_the_detail_behind_the_label() {
    assert_eq!(
        NativeMethod::Print.failure_text(&failure(Step::NewString, "out of memory")),
        "Failed to create Java string: out of memory"
    );
    assert_eq!(
        NativeMethod::GetPhotoResult.failure_text(&failure(Step::CallMethod, "Java exception was thrown")),
        "Failed to call getPhotoResult: Java exception was thrown"
    );
    assert_eq!(
        NativeMethod::TakePhotoBase64.failure_text(&failure(Step::JavaVm, "")),
        "Failed to get JavaVM: "
    );
}
