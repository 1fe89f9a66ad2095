//! The decision core of the fixed-signature hook callback.
//!
//! The OS invokes a trampoline for every candidate message. The trampoline
//! may never let an internal failure cross the OS call boundary, and must
//! hand the message on to the next hook in the chain whatever happened. The
//! functions here compute, from the classifier's inputs and the replies of
//! the OS queries, everything the callback decides: the side effect to
//! perform, the failure to route to the diagnostic sink, and the chain
//! forwarding — which their contracts pin to `true` on every input.

use vstd::prelude::*;

use crate::Fault;
use crate::classify::{HookCategory, MatchOutcome, PatchBehavior, Payload};
use crate::classify::{match_message, match_spec, names_edit_class, class_name_is_edit};
use crate::classify::{WM_CONTEXTMENU, WM_INITMENU, WM_INITMENUPOPUP};
use crate::menu::{MenuHandleSource, resolve_spec, resolve_menu_handle};

verus! {

/// A side effect a trampoline invocation asks for once classification and
/// resolution have passed.
#[derive(Clone, Copy, Debug, PartialEq, Eq, Structural)]
pub enum PatchCommand {
    /// Send the window the command that enables the web-search affordance.
    ToggleSearch { hwnd: u64 },
    /// Snapshot the menu's item identifiers, then append the planned entry.
    AugmentMenu { menu: u64 },
}

/// Everything one trampoline invocation decides.
#[derive(Clone, Copy, Debug, PartialEq, Eq, Structural)]
pub struct TrampolineOutcome {
    /// The side effect to perform, if classification and resolution passed.
    pub action: Option<PatchCommand>,
    /// The failure to route to the diagnostic sink, if one occurred.
    pub report: Option<Fault>,
    /// Whether to forward the message to the next hook in the chain.
    pub forward: bool,
}

/// The class-name query's reply, consulted only when the message matched.
pub enum ClassReply {
    /// The query failed: the OS reported zero characters copied.
    Unavailable,
    /// The buffer the query filled.
    Name(Vec<u16>),
}

impl ClassReply {
    /// View of the reply for contracts.
    pub open spec fn name_spec(self) -> Option<Seq<u16>> {
        match self {
            ClassReply::Unavailable => Option::None,
            ClassReply::Name(buf) => Option::Some(buf@),
        }
    }
}

/// The search-affordance trampoline's decision: act only on a context-menu
/// request aimed at a window of the text-entry control class; report a
/// malformed payload or a failed class query; forward always.
pub open spec fn search_outcome_spec(
    category: HookCategory,
    code: i32,
    payload: Option<Payload>,
    reply: Option<Seq<u16>>,
) -> TrampolineOutcome {
    match match_spec(PatchBehavior::SearchAffordance, category, code, payload) {
        MatchOutcome::NotOfInterest => (TrampolineOutcome {
            action: Option::None,
            report: Option::None,
            forward: true,
        }),
        MatchOutcome::Malformed => (TrampolineOutcome {
            action: Option::None,
            report: Option::Some(Fault::Patch),
            forward: true,
        }),
        MatchOutcome::Matched(f) => match reply {
            Option::None => (TrampolineOutcome {
                action: Option::None,
                report: Option::Some(Fault::Query),
                forward: true,
            }),
            Option::Some(name) => if names_edit_class(name) {
                TrampolineOutcome {
                    action: Option::Some(PatchCommand::ToggleSearch { hwnd: f.hwnd }),
                    report: Option::None,
                    forward: true,
                }
            } else {
                TrampolineOutcome { action: Option::None, report: Option::None, forward: true }
            },
        },
    }
}

/// Runs the search-affordance trampoline's decision for one invocation.
///
/// `reply` is what the class-name query returned; it is consulted only when
/// the message matched, so a caller that skipped the query on a non-match
/// may pass `ClassReply::Unavailable`.
pub fn run_search_trampoline(
    category: HookCategory,
    code: i32,
    payload: Option<Payload>,
    reply: &ClassReply,
) -> (out: TrampolineOutcome)
    ensures
        out == search_outcome_spec(category, code, payload, reply.name_spec()),
        out.forward,
{
    match match_message(PatchBehavior::SearchAffordance, category, code, payload) {
        MatchOutcome::NotOfInterest => TrampolineOutcome {
            action: None,
            report: None,
            forward: true,
        },
        MatchOutcome::Malformed => TrampolineOutcome {
            action: None,
            report: Some(Fault::Patch),
            forward: true,
        },
        MatchOutcome::Matched(f) => match reply {
            ClassReply::Unavailable => TrampolineOutcome {
                action: None,
                report: Some(Fault::Query),
                forward: true,
            },
            ClassReply::Name(buf) => {
                if class_name_is_edit(buf) {
                    TrampolineOutcome {
                        action: Some(PatchCommand::ToggleSearch { hwnd: f.hwnd }),
                        report: None,
                        forward: true,
                    }
                } else {
                    TrampolineOutcome { action: None, report: None, forward: true }
                }
            },
        },
    }
}

/// The menu-augmentation trampoline's decision: act only on a
/// menu-initialization message whose handle source resolves; report a
/// malformed payload or an unresolvable handle; forward always.
pub open spec fn menu_outcome_spec(
    category: HookCategory,
    code: i32,
    payload: Option<Payload>,
    source: MenuHandleSource,
) -> TrampolineOutcome {
    match match_spec(PatchBehavior::MenuAugment, category, code, payload) {
        MatchOutcome::NotOfInterest => (TrampolineOutcome {
            action: Option::None,
            report: Option::None,
            forward: true,
        }),
        MatchOutcome::Malformed => (TrampolineOutcome {
            action: Option::None,
            report: Option::Some(Fault::Patch),
            forward: true,
        }),
        MatchOutcome::Matched(_) => match resolve_spec(source) {
            Result::Err(fault) => (TrampolineOutcome {
                action: Option::None,
                report: Option::Some(fault),
                forward: true,
            }),
            Result::Ok(menu) => (TrampolineOutcome {
                action: Option::Some(PatchCommand::AugmentMenu { menu }),
                report: Option::None,
                forward: true,
            }),
        },
    }
}

/// Runs the menu-augmentation trampoline's decision for one invocation.
///
/// `source` is where the matched payload carries its menu handle; it is
/// consulted only when the message matched.
pub fn run_menu_trampoline(
    category: HookCategory,
    code: i32,
    payload: Option<Payload>,
    source: &MenuHandleSource,
) -> (out: TrampolineOutcome)
    ensures
        out == menu_outcome_spec(category, code, payload, *source),
        out.forward,
{
    match match_message(PatchBehavior::MenuAugment, category, code, payload) {
        MatchOutcome::NotOfInterest => TrampolineOutcome {
            action: None,
            report: None,
            forward: true,
        },
        MatchOutcome::Malformed => TrampolineOutcome {
            action: None,
            report: Some(Fault::Patch),
            forward: true,
        },
        MatchOutcome::Matched(_) => match resolve_menu_handle(source) {
            Result::Err(fault) => TrampolineOutcome {
                action: None,
                report: Some(fault),
                forward: true,
            },
            Result::Ok(menu) => TrampolineOutcome {
                action: Some(PatchCommand::AugmentMenu { menu }),
                report: None,
                forward: true,
            },
        },
    }
}

/// Law: once a context-menu request passes classification, the class name
/// alone decides the patch — a window of the text-entry control class has
/// the search affordance toggled on it, and a window of any other class is
/// left untouched, with nothing reported.
pub proof fn lemma_search_patches_edit_only(
    category: HookCategory,
    code: i32,
    payload: Option<Payload>,
    name: Seq<u16>,
)
    requires
        match_spec(PatchBehavior::SearchAffordance, category, code, payload) is Matched,
    ensures
        names_edit_class(name) ==> search_outcome_spec(category, code, payload, Option::Some(name))
            == (TrampolineOutcome {
            action: Option::Some(
                PatchCommand::ToggleSearch {
                    hwnd: match_spec(
                        PatchBehavior::SearchAffordance,
                        category,
                        code,
                        payload,
                    )->Matched_0.hwnd,
                },
            ),
            report: Option::None,
            forward: true,
        }),
        !names_edit_class(name) ==> search_outcome_spec(category, code, payload, Option::Some(name))
            == (TrampolineOutcome { action: Option::None, report: Option::None, forward: true }),
{
}

/// Law: the search affordance is toggled only when every gate passed — a
/// non-negative process code, a payload of the category's own layout, the
/// context-menu request message, and a class name that names the text-entry
/// control class — and then only on the very window the payload named. No
/// other window is ever touched.
pub proof fn lemma_search_action_gated(
    category: HookCategory,
    code: i32,
    payload: Option<Payload>,
    reply: Option<Seq<u16>>,
)
    ensures
        search_outcome_spec(category, code, payload, reply).action is Some ==> {
            &&& code >= 0
            &&& payload is Some
            &&& payload->Some_0.fits(category)
            &&& payload->Some_0.fields_spec().message == WM_CONTEXTMENU
            &&& reply is Some
            &&& names_edit_class(reply->Some_0)
            &&& search_outcome_spec(category, code, payload, reply).action
                == Option::Some(
                PatchCommand::ToggleSearch { hwnd: payload->Some_0.fields_spec().hwnd },
            )
        },
{
}

/// Law: a menu is augmented only when every gate passed — a non-negative
/// process code, a payload of the category's own layout, one of the two
/// menu-initialization messages, and a handle source that resolved — and
/// then only on the menu that source resolved to.
pub proof fn lemma_menu_action_gated(
    category: HookCategory,
    code: i32,
    payload: Option<Payload>,
    source: MenuHandleSource,
)
    ensures
        menu_outcome_spec(category, code, payload, source).action is Some ==> {
            &&& code >= 0
            &&& payload is Some
            &&& payload->Some_0.fits(category)
            &&& (payload->Some_0.fields_spec().message == WM_INITMENU
                || payload->Some_0.fields_spec().message == WM_INITMENUPOPUP)
            &&& resolve_spec(source) is Ok
            &&& menu_outcome_spec(category, code, payload, source).action == Option::Some(
                PatchCommand::AugmentMenu { menu: resolve_spec(source)->Ok_0 },
            )
        },
{
}

/// Law: no trampoline invocation is ever swallowed or raised out of the
/// callback. Whatever the process code, payload, class reply or handle
/// source held — malformed and null payloads included — both trampolines
/// forward the message to the next hook in the chain, and a payload the OS
/// promised but did not deliver intact is reported to the diagnostic sink
/// rather than propagated.
pub proof fn lemma_trampoline_total(
    category: HookCategory,
    code: i32,
    payload: Option<Payload>,
    reply: Option<Seq<u16>>,
    source: MenuHandleSource,
)
    ensures
        search_outcome_spec(category, code, payload, reply).forward,
        menu_outcome_spec(category, code, payload, source).forward,
        match_spec(PatchBehavior::SearchAffordance, category, code, payload)
            == MatchOutcome::Malformed ==> search_outcome_spec(category, code, payload, reply)
            .report is Some,
        match_spec(PatchBehavior::MenuAugment, category, code, payload)
            == MatchOutcome::Malformed ==> menu_outcome_spec(category, code, payload, source)
            .report is Some,
{
}

} // verus!
