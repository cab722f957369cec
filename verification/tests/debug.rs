use vulkan_render::debug::{
    dispatch_debug_message, DebugCallback, MessageSeverity, MessageType,
};

#[test]
fn print_all_formats_error_and_continues() {
    let outcome = dispatch_debug_message(
        DebugCallback::PrintAll,
        MessageSeverity::Error,
        MessageType::Validation,
        Some("VUID-VkInstanceCreateInfo-pNext".to_string()),
        -1564546519,
        Some("validation failed".to_string()),
    );
    assert!(!outcome.fatal);
    assert!(!outcome.suppress_call);
    assert_eq!(
        outcome.output,
        "ERROR:\nVALIDATION [VUID-VkInstanceCreateInfo-pNext (-1564546519)] : validation failed\n"
    );
}

#[test]
fn panic_on_errors_escalates_error_with_same_text() {
    let outcome = dispatch_debug_message(
        DebugCallback::PanicOnErrorsPrintOthers,
        MessageSeverity::Error,
        MessageType::Validation,
        Some("VUID-VkInstanceCreateInfo-pNext".to_string()),
        -1564546519,
        Some("validation failed".to_string()),
    );
    assert!(outcome.fatal);
    assert!(!outcome.suppress_call);
    assert_eq!(
        outcome.output,
        "ERROR:\nVALIDATION [VUID-VkInstanceCreateInfo-pNext (-1564546519)] : validation failed\n"
    );
}

#[test]
fn panic_on_errors_prints_other_severities() {
    let severities = vec![
        MessageSeverity::Verbose,
        MessageSeverity::Info,
        MessageSeverity::Warning,
    ];
    for severity in severities {
        let outcome = dispatch_debug_message(
            DebugCallback::PanicOnErrorsPrintOthers,
            severity,
            MessageType::Performance,
            Some("slow".to_string()),
            7,
            Some("too many descriptors".to_string()),
        );
        assert!(!outcome.fatal);
        assert!(!outcome.suppress_call);
    }
}

#[test]
fn severity_and_type_labels_appear_in_output() {
    let outcome = dispatch_debug_message(
        DebugCallback::PrintAll,
        MessageSeverity::Warning,
        MessageType::General,
        Some("loader".to_string()),
        0,
        Some("general warning".to_string()),
    );
    assert_eq!(outcome.output, "WARNING:\nGENERAL [loader (0)] : general warning\n");
    let outcome = dispatch_debug_message(
        DebugCallback::PrintAll,
        MessageSeverity::Info,
        MessageType::Performance,
        Some("perf".to_string()),
        12,
        Some("hint".to_string()),
    );
    assert_eq!(outcome.output, "INFO:\nPERFORMANCE [perf (12)] : hint\n");
    let outcome = dispatch_debug_message(
        DebugCallback::PrintAll,
        MessageSeverity::Verbose,
        MessageType::General,
        Some("chatter".to_string()),
        3,
        Some("detail".to_string()),
    );
    assert_eq!(outcome.output, "VERBOSE:\nGENERAL [chatter (3)] : detail\n");
}

#[test]
fn null_message_fields_become_empty_strings() {
    let callbacks = vec![DebugCallback::PrintAll, DebugCallback::PanicOnErrorsPrintOthers];
    for callback in callbacks {
        let outcome = dispatch_debug_message(
            callback,
            MessageSeverity::Error,
            MessageType::General,
            None,
            0,
            None,
        );
        assert_eq!(outcome.output, "ERROR:\nGENERAL [ (0)] : \n");
        assert!(!outcome.suppress_call);
    }
}

#[test]
fn message_id_number_extremes_render_in_decimal() {
    let outcome = dispatch_debug_message(
        DebugCallback::PrintAll,
        MessageSeverity::Warning,
        MessageType::Validation,
        None,
        i32::MIN,
        None,
    );
    assert_eq!(outcome.output, "WARNING:\nVALIDATION [ (-2147483648)] : \n");
    let outcome = dispatch_debug_message(
        DebugCallback::PrintAll,
        MessageSeverity::Warning,
        MessageType::Validation,
        None,
        i32::MAX,
        None,
    );
    assert_eq!(outcome.output, "WARNING:\nVALIDATION [ (2147483647)] : \n");
}

#[test]
fn formatted_text_matches_reference_formatting() {
    let outcome = dispatch_debug_message(
        DebugCallback::PrintAll,
        MessageSeverity::Error,
        MessageType::Validation,
        Some("id-name".to_string()),
        -7,
        Some("text".to_string()),
    );
    let expected = format!(
        "{}:\n{} [{} ({})] : {}\n",
        "ERROR", "VALIDATION", "id-name", -7, "text"
    );
    assert_eq!(outcome.output, expected);
}
