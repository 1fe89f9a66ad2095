use bong::Fault;
use bong::classify::{
    CLASS_NAME_BUF_LEN, EM_ENABLESEARCHWEB, HookCategory, MatchOutcome, MessageFields,
    PatchBehavior, Payload, WM_CONTEXTMENU, WM_INITMENU, WM_INITMENUPOPUP, checked_class_buffer,
    class_name_is_edit, class_name_matches, match_message,
};

fn utf16_buffer(s: &str) -> Vec<u16> {
    // A class-name query fills a fixed buffer and nul-terminates the name.
    let mut buf: Vec<u16> = s.encode_utf16().collect();
    while buf.len() < CLASS_NAME_BUF_LEN {
        buf.push(0);
    }
    buf
}

fn context_menu_fields() -> MessageFields {
    MessageFields { hwnd: 0x1234, message: WM_CONTEXTMENU, wparam: 0x1234, lparam: 0 }
}

#[test]
fn context_menu_matches_for_search() {
    let payload = Some(Payload::PreDispatch(context_menu_fields()));
    let out = match_message(PatchBehavior::SearchAffordance, HookCategory::PreDispatch, 0, payload);
    assert_eq!(out, MatchOutcome::Matched(context_menu_fields()));
}

#[test]
fn post_dispatch_layout_matches_its_category() {
    let payload = Some(Payload::PostDispatch(context_menu_fields()));
    let out = match_message(
        PatchBehavior::SearchAffordance,
        HookCategory::PostDispatch,
        0,
        payload,
    );
    assert_eq!(out, MatchOutcome::Matched(context_menu_fields()));
}

#[test]
fn negative_code_is_not_of_interest() {
    let payload = Some(Payload::PreDispatch(context_menu_fields()));
    let out = match_message(
        PatchBehavior::SearchAffordance,
        HookCategory::PreDispatch,
        -1,
        payload,
    );
    assert_eq!(out, MatchOutcome::NotOfInterest);
}

#[test]
fn null_payload_is_malformed() {
    let out = match_message(PatchBehavior::SearchAffordance, HookCategory::PreDispatch, 0, None);
    assert_eq!(out, MatchOutcome::Malformed);
}

#[test]
fn mismatched_layout_is_malformed() {
    let payload = Some(Payload::PostDispatch(context_menu_fields()));
    let out = match_message(PatchBehavior::SearchAffordance, HookCategory::PreDispatch, 0, payload);
    assert_eq!(out, MatchOutcome::Malformed);
}

#[test]
fn other_messages_are_not_of_interest_for_search() {
    let fields = MessageFields { message: 0x0001, ..context_menu_fields() };
    let payload = Some(Payload::PreDispatch(fields));
    let out = match_message(PatchBehavior::SearchAffordance, HookCategory::PreDispatch, 0, payload);
    assert_eq!(out, MatchOutcome::NotOfInterest);
}

#[test]
fn menu_behavior_matches_both_init_variants_only() {
    for (message, expected_match) in [
        (WM_INITMENU, true),
        (WM_INITMENUPOPUP, true),
        (WM_CONTEXTMENU, false),
        (0x0001, false),
    ] {
        let fields = MessageFields { message, ..context_menu_fields() };
        let payload = Some(Payload::PreDispatch(fields));
        let out = match_message(PatchBehavior::MenuAugment, HookCategory::PreDispatch, 0, payload);
        if expected_match {
            assert_eq!(out, MatchOutcome::Matched(fields));
        } else {
            assert_eq!(out, MatchOutcome::NotOfInterest);
        }
    }
}

#[test]
fn edit_class_matches_in_every_casing() {
    assert!(class_name_is_edit(&utf16_buffer("Edit")));
    assert!(class_name_is_edit(&utf16_buffer("EDIT")));
    assert!(class_name_is_edit(&utf16_buffer("edit")));
    assert!(class_name_is_edit(&utf16_buffer("EdIt")));
}

#[test]
fn other_classes_do_not_match() {
    assert!(!class_name_is_edit(&utf16_buffer("Button")));
    assert!(!class_name_is_edit(&utf16_buffer("Edit2")));
    assert!(!class_name_is_edit(&utf16_buffer("Edi")));
    assert!(!class_name_is_edit(&utf16_buffer("")));
    assert!(!class_name_is_edit(&utf16_buffer("RichEdit")));
}

#[test]
fn comparison_stops_at_the_terminator() {
    // Units after the first nul are garbage the query never wrote.
    let mut buf = utf16_buffer("Edit");
    buf[6] = 0x41;
    assert!(class_name_is_edit(&buf));
}

#[test]
fn general_match_is_case_insensitive_both_ways() {
    let expected: Vec<u16> = "static".encode_utf16().collect();
    assert!(class_name_matches(&utf16_buffer("STATIC"), &expected));
    assert!(class_name_matches(&utf16_buffer("Static"), &expected));
    assert!(!class_name_matches(&utf16_buffer("Statics"), &expected));
}

#[test]
fn zero_characters_copied_is_a_query_fault() {
    let buf = utf16_buffer("Edit");
    assert_eq!(checked_class_buffer(buf.clone(), 0), Err(Fault::Query));
    assert_eq!(checked_class_buffer(buf.clone(), 4), Ok(buf));
}

#[test]
fn message_constants_are_the_platform_values() {
    assert_eq!(WM_CONTEXTMENU, 0x007B);
    assert_eq!(WM_INITMENU, 0x0116);
    assert_eq!(WM_INITMENUPOPUP, 0x0117);
    assert_eq!(EM_ENABLESEARCHWEB, 0x150E);
}
