use isolate_core::native::handler_error_message;
use isolate_core::native::name_error_message;
use isolate_core::native::native_invoke_entry;
use isolate_core::native::native_invoke_entry_impl;
use isolate_core::native::unknown_api_message;
use isolate_core::native::InvokeAction;
use isolate_core::native::InvokeEvent;
use isolate_core::native::InvokePhase;
use isolate_core::native::InvokeStep;
use isolate_core::native::NativeInvoke;
use isolate_core::native::UNKNOWN_REQUEST;

fn call_for(request: Option<&str>) -> NativeInvoke {
    NativeInvoke::new("demo/app:7".to_string(), request.map(|r| r.to_string()))
}

#[test]
fn request_without_executor_is_unknown() {
    assert_eq!(UNKNOWN_REQUEST, "unknown");
    let call = call_for(None);
    assert_eq!(call.request_tag(), "\"unknown\"");
    assert_eq!(call.phase(), InvokePhase::ReadingName);
}

#[test]
fn request_id_is_quoted_and_escaped() {
    assert_eq!(call_for(Some("r-1")).request_tag(), "\"r-1\"");
    assert_eq!(call_for(Some("a\"b")).request_tag(), "\"a\\\"b\"");
    assert_eq!(call_for(Some("line\nbreak")).request_tag(), "\"line\\nbreak\"");
    assert_eq!(call_for(Some("")).request_tag(), "\"\"");
}

#[test]
fn native_invoke_unknown_api_throws_a_message_naming_app_request_and_api() {
    let mut call = call_for(None);
    assert_eq!(
        native_invoke_entry(
            &mut call,
            InvokeEvent::NameRead {
                name: "foo".to_string()
            }
        ),
        InvokeAction::Proceed {
            step: InvokeStep::Resolve {
                api_name: "foo".to_string()
            }
        }
    );
    let action = native_invoke_entry(&mut call, InvokeEvent::HandlerMissing);
    assert_eq!(
        action,
        InvokeAction::Throw {
            message: "app demo/app:7 request \"unknown\" is invoking an unknown native api: foo"
                .to_string()
        }
    );
    match action {
        InvokeAction::Throw { message } => {
            assert!(message.contains("demo/app:7"));
            assert!(message.contains("unknown"));
            assert!(message.contains("foo"));
        }
        _ => unreachable!(),
    }
    assert_eq!(call.phase(), InvokePhase::Done);
}

#[test]
fn unknown_api_message_carries_the_request_id() {
    let mut call = call_for(Some("req-42"));
    native_invoke_entry_impl(
        &mut call,
        InvokeEvent::NameRead {
            name: "kv_get".to_string(),
        },
    )
    .unwrap();
    assert_eq!(
        native_invoke_entry_impl(&mut call, InvokeEvent::HandlerMissing),
        Err("app demo/app:7 request \"req-42\" is invoking an unknown native api: kv_get".to_string())
    );
}

#[test]
fn unreadable_name_throws() {
    let mut call = call_for(Some("req-42"));
    let action = native_invoke_entry(
        &mut call,
        InvokeEvent::NameUnreadable {
            reason: "expected String".to_string(),
        },
    );
    assert_eq!(
        action,
        InvokeAction::Throw {
            message:
                "cannot get native api name, app demo/app:7 request \"req-42\": expected String"
                    .to_string()
        }
    );
    assert_eq!(call.phase(), InvokePhase::Done);
}

#[test]
fn failed_handler_throws_with_the_standard_prefix() {
    let mut call = call_for(Some("req-42"));
    native_invoke_entry(
        &mut call,
        InvokeEvent::NameRead {
            name: "fetch".to_string(),
        },
    );
    assert_eq!(
        native_invoke_entry(&mut call, InvokeEvent::HandlerFound),
        InvokeAction::Proceed {
            step: InvokeStep::Call
        }
    );
    assert_eq!(call.phase(), InvokePhase::Calling);
    assert_eq!(
        native_invoke_entry(
            &mut call,
            InvokeEvent::HandlerFailed {
                reason: "connection refused".to_string()
            }
        ),
        InvokeAction::Throw {
            message:
                "native invoke error from app demo/app:7 request \"req-42\": connection refused"
                    .to_string()
        }
    );
    assert_eq!(call.phase(), InvokePhase::Done);
}

#[test]
fn successful_call_returns_to_the_script() {
    let mut call = call_for(Some("req-42"));
    assert_eq!(
        native_invoke_entry_impl(
            &mut call,
            InvokeEvent::NameRead {
                name: "fetch".to_string()
            }
        ),
        Ok(InvokeStep::Resolve {
            api_name: "fetch".to_string()
        })
    );
    assert_eq!(call.phase(), InvokePhase::Resolving);
    assert_eq!(
        native_invoke_entry_impl(&mut call, InvokeEvent::HandlerFound),
        Ok(InvokeStep::Call)
    );
    assert_eq!(
        native_invoke_entry_impl(&mut call, InvokeEvent::HandlerReturned),
        Ok(InvokeStep::Return)
    );
    assert_eq!(call.phase(), InvokePhase::Done);
}

#[test]
fn bridge_events_out_of_turn_are_ignored() {
    let mut call = call_for(None);
    assert_eq!(
        native_invoke_entry_impl(&mut call, InvokeEvent::HandlerMissing),
        Ok(InvokeStep::Ignore)
    );
    assert_eq!(
        native_invoke_entry_impl(
            &mut call,
            InvokeEvent::HandlerFailed {
                reason: "x".to_string()
            }
        ),
        Ok(InvokeStep::Ignore)
    );
    assert_eq!(call.phase(), InvokePhase::ReadingName);
    native_invoke_entry_impl(
        &mut call,
        InvokeEvent::NameRead {
            name: "a".to_string(),
        },
    )
    .unwrap();
    native_invoke_entry_impl(&mut call, InvokeEvent::HandlerMissing).unwrap_err();
    assert_eq!(
        native_invoke_entry(&mut call, InvokeEvent::HandlerFound),
        InvokeAction::Proceed {
            step: InvokeStep::Ignore
        }
    );
    assert_eq!(call.phase(), InvokePhase::Done);
}

#[test]
fn messages_are_worded_exactly() {
    assert_eq!(
        name_error_message("k", "\"r\"", "why"),
        "cannot get native api name, app k request \"r\": why"
    );
    assert_eq!(
        handler_error_message("k", "\"r\"", "why"),
        "native invoke error from app k request \"r\": why"
    );
    assert_eq!(
        unknown_api_message("k", "\"r\"", "api"),
        "app k request \"r\" is invoking an unknown native api: api"
    );
    assert_eq!(
        unknown_api_message("", "", ""),
        "app  request  is invoking an unknown native api: "
    );
}
