use bong::Fault;
use bong::classify::{
    CLASS_NAME_BUF_LEN, HookCategory, MessageFields, Payload, WM_CONTEXTMENU, WM_INITMENUPOPUP,
};
use bong::menu::MenuHandleSource;
use bong::trampoline::{ClassReply, PatchCommand, run_menu_trampoline, run_search_trampoline};

fn utf16_buffer(s: &str) -> Vec<u16> {
    let mut buf: Vec<u16> = s.encode_utf16().collect();
    while buf.len() < CLASS_NAME_BUF_LEN {
        buf.push(0);
    }
    buf
}

fn context_menu_payload(hwnd: u64) -> Option<Payload> {
    Some(Payload::PreDispatch(MessageFields {
        hwnd,
        message: WM_CONTEXTMENU,
        wparam: hwnd,
        lparam: 0,
    }))
}

#[test]
fn edit_window_gets_the_search_toggle() {
    let reply = ClassReply::Name(utf16_buffer("Edit"));
    let out = run_search_trampoline(HookCategory::PreDispatch, 0, context_menu_payload(0x77), &reply);
    assert_eq!(out.action, Some(PatchCommand::ToggleSearch { hwnd: 0x77 }));
    assert_eq!(out.report, None);
    assert!(out.forward);
}

#[test]
fn every_casing_of_edit_gets_the_toggle() {
    for name in ["EDIT", "edit", "EdIt"] {
        let reply = ClassReply::Name(utf16_buffer(name));
        let out =
            run_search_trampoline(HookCategory::PreDispatch, 0, context_menu_payload(0x77), &reply);
        assert_eq!(out.action, Some(PatchCommand::ToggleSearch { hwnd: 0x77 }));
        assert!(out.forward);
    }
}

#[test]
fn other_classes_are_left_untouched() {
    for name in ["Button", "Edit2"] {
        let reply = ClassReply::Name(utf16_buffer(name));
        let out =
            run_search_trampoline(HookCategory::PreDispatch, 0, context_menu_payload(0x77), &reply);
        assert_eq!(out.action, None);
        assert_eq!(out.report, None);
        assert!(out.forward);
    }
}

#[test]
fn null_payload_is_reported_and_still_forwarded() {
    let reply = ClassReply::Unavailable;
    let out = run_search_trampoline(HookCategory::PreDispatch, 0, None, &reply);
    assert_eq!(out.action, None);
    assert_eq!(out.report, Some(Fault::Patch));
    assert!(out.forward);
}

#[test]
fn mismatched_payload_is_reported_and_still_forwarded() {
    let payload = Some(Payload::PostDispatch(MessageFields {
        hwnd: 1,
        message: WM_CONTEXTMENU,
        wparam: 0,
        lparam: 0,
    }));
    let out = run_search_trampoline(
        HookCategory::PreDispatch,
        0,
        payload,
        &ClassReply::Unavailable,
    );
    assert_eq!(out.report, Some(Fault::Patch));
    assert!(out.forward);
}

#[test]
fn failed_class_query_is_reported_and_still_forwarded() {
    let out = run_search_trampoline(
        HookCategory::PreDispatch,
        0,
        context_menu_payload(0x77),
        &ClassReply::Unavailable,
    );
    assert_eq!(out.action, None);
    assert_eq!(out.report, Some(Fault::Query));
    assert!(out.forward);
}

#[test]
fn negative_code_forwards_without_action_or_report() {
    let reply = ClassReply::Name(utf16_buffer("Edit"));
    let out =
        run_search_trampoline(HookCategory::PreDispatch, -1, context_menu_payload(0x77), &reply);
    assert_eq!(out.action, None);
    assert_eq!(out.report, None);
    assert!(out.forward);
}

#[test]
fn menu_init_resolves_and_augments() {
    let payload = Some(Payload::PreDispatch(MessageFields {
        hwnd: 0x10,
        message: WM_INITMENUPOPUP,
        wparam: 0x90,
        lparam: 0,
    }));
    let source = MenuHandleSource::Direct { handle: 0x90 };
    let out = run_menu_trampoline(HookCategory::PreDispatch, 0, payload, &source);
    assert_eq!(out.action, Some(PatchCommand::AugmentMenu { menu: 0x90 }));
    assert_eq!(out.report, None);
    assert!(out.forward);
}

#[test]
fn null_menu_field_is_reported_and_still_forwarded() {
    let payload = Some(Payload::PreDispatch(MessageFields {
        hwnd: 0x10,
        message: WM_INITMENUPOPUP,
        wparam: 0,
        lparam: 0,
    }));
    let source = MenuHandleSource::Indirect { field: None };
    let out = run_menu_trampoline(HookCategory::PreDispatch, 0, payload, &source);
    assert_eq!(out.action, None);
    assert_eq!(out.report, Some(Fault::Patch));
    assert!(out.forward);
}

#[test]
fn malformed_menu_payload_is_reported_and_still_forwarded() {
    let source = MenuHandleSource::Direct { handle: 0x90 };
    let out = run_menu_trampoline(HookCategory::PostDispatch, 0, None, &source);
    assert_eq!(out.action, None);
    assert_eq!(out.report, Some(Fault::Patch));
    assert!(out.forward);
}

#[test]
fn context_menu_is_not_a_menu_augment_trigger() {
    let out = run_menu_trampoline(
        HookCategory::PreDispatch,
        0,
        context_menu_payload(0x10),
        &MenuHandleSource::Direct { handle: 0x90 },
    );
    assert_eq!(out.action, None);
    assert_eq!(out.report, None);
    assert!(out.forward);
}
