//! Message classification.
//!
//! A hook callback receives an OS process code and a pointer-sized payload
//! whose layout depends on the hook category. Outside the library the payload
//! is read into plain fields per category; here the classifier decides, from
//! those plain values, whether the message is one the active patch behavior
//! acts on, and whether the target window's class name is the text-entry
//! control class, by a case-insensitive match on its UTF-16 units.

use vstd::prelude::*;

use crate::Fault;

verus! {

/// Context-menu request message identifier.
pub const WM_CONTEXTMENU: u32 = 0x007B;

/// First menu-initialization message identifier.
pub const WM_INITMENU: u32 = 0x0116;

/// Second menu-initialization message identifier (popup variant).
pub const WM_INITMENUPOPUP: u32 = 0x0117;

/// Edit-control command that enables the built-in web-search affordance.
pub const EM_ENABLESEARCHWEB: u32 = 0x150E;

/// A window class name holds at most 256 UTF-16 units, plus the terminator.
pub const CLASS_NAME_BUF_LEN: usize = 257;

/// The OS-defined interception point a hook observes.
#[derive(Clone, Copy, Debug, PartialEq, Eq, Structural)]
pub enum HookCategory {
    /// Messages about to be handled by a window procedure.
    PreDispatch,
    /// Messages just taken from the thread's message queue.
    PostDispatch,
}

/// Which of the two patch behaviors a hook serves.
#[derive(Clone, Copy, Debug, PartialEq, Eq, Structural)]
pub enum PatchBehavior {
    /// Toggle the web-search affordance on a context-menu request.
    SearchAffordance,
    /// Append a custom entry while a menu is being initialized.
    MenuAugment,
}

/// The fields both payload layouts carry, as plain values.
#[derive(Clone, Copy, Debug, PartialEq, Eq, Structural)]
pub struct MessageFields {
    /// Target window handle.
    pub hwnd: u64,
    /// Message identifier.
    pub message: u32,
    /// First message-specific argument.
    pub wparam: u64,
    /// Second message-specific argument.
    pub lparam: u64,
}

/// A decoded hook payload, tagged with the layout it was read from: the
/// pre-dispatch and post-dispatch layouts place the window handle and the
/// message identifier at different offsets, so each is decoded per category.
#[derive(Clone, Copy, Debug, PartialEq, Eq, Structural)]
pub enum Payload {
    /// Decoded from the pre-dispatch (call-window-procedure) layout.
    PreDispatch(MessageFields),
    /// Decoded from the post-dispatch (get-message) layout.
    PostDispatch(MessageFields),
}

impl Payload {
    /// The decoded fields, whichever layout carried them.
    pub open spec fn fields_spec(self) -> MessageFields {
        match self {
            Payload::PreDispatch(f) => f,
            Payload::PostDispatch(f) => f,
        }
    }

    /// Whether the payload's layout is the one `category` delivers.
    pub open spec fn fits(self, category: HookCategory) -> bool {
        match self {
            Payload::PreDispatch(_) => category == HookCategory::PreDispatch,
            Payload::PostDispatch(_) => category == HookCategory::PostDispatch,
        }
    }

    /// Executable accessor for the decoded fields.
    pub fn fields(&self) -> (r: MessageFields)
        ensures
            r == self.fields_spec(),
    {
        match self {
            Payload::PreDispatch(f) => *f,
            Payload::PostDispatch(f) => *f,
        }
    }
}

/// What the classifier decides for one callback invocation.
#[derive(Clone, Copy, Debug, PartialEq, Eq, Structural)]
pub enum MatchOutcome {
    /// Not an action code, or not a message the behavior patches.
    NotOfInterest,
    /// The OS promised a payload and handed a null or mismatched one.
    Malformed,
    /// A message of interest, with its decoded fields.
    Matched(MessageFields),
}

/// The message identifiers a patch behavior acts on: the context-menu
/// request for the search affordance, the two menu-initialization variants
/// for the menu augmentation.
pub open spec fn of_interest(behavior: PatchBehavior, message: u32) -> bool {
    match behavior {
        PatchBehavior::SearchAffordance => message == WM_CONTEXTMENU,
        PatchBehavior::MenuAugment => message == WM_INITMENU || message == WM_INITMENUPOPUP,
    }
}

/// The classifier's full decision on one callback invocation.
pub open spec fn match_spec(
    behavior: PatchBehavior,
    category: HookCategory,
    code: i32,
    payload: Option<Payload>,
) -> MatchOutcome {
    if code < 0 {
        MatchOutcome::NotOfInterest
    } else {
        match payload {
            Option::None => MatchOutcome::Malformed,
            Option::Some(p) => if !p.fits(category) {
                MatchOutcome::Malformed
            } else if of_interest(behavior, p.fields_spec().message) {
                MatchOutcome::Matched(p.fields_spec())
            } else {
                MatchOutcome::NotOfInterest
            },
        }
    }
}

/// Classifies one callback invocation: a negative process code is left
/// alone, a missing or mis-shaped payload is malformed, and otherwise the
/// message identifier decides whether the behavior acts.
pub fn match_message(
    behavior: PatchBehavior,
    category: HookCategory,
    code: i32,
    payload: Option<Payload>,
) -> (r: MatchOutcome)
    ensures
        r == match_spec(behavior, category, code, payload),
{
    if code < 0 {
        return MatchOutcome::NotOfInterest;
    }
    match payload {
        Option::None => MatchOutcome::Malformed,
        Option::Some(p) => {
            let fits = match (p, category) {
                (Payload::PreDispatch(_), HookCategory::PreDispatch) => true,
                (Payload::PostDispatch(_), HookCategory::PostDispatch) => true,
                _ => false,
            };
            if !fits {
                return MatchOutcome::Malformed;
            }
            let f = p.fields();
            let interested = match behavior {
                PatchBehavior::SearchAffordance => f.message == WM_CONTEXTMENU,
                PatchBehavior::MenuAugment => f.message == WM_INITMENU || f.message
                    == WM_INITMENUPOPUP,
            };
            if interested {
                MatchOutcome::Matched(f)
            } else {
                MatchOutcome::NotOfInterest
            }
        },
    }
}

/// ASCII lowering of one UTF-16 unit.
pub open spec fn lower_u16(u: u16) -> u16 {
    if 0x41 <= u && u <= 0x5A {
        (u + 0x20) as u16
    } else {
        u
    }
}

/// The class name held in a query buffer: the units before the first nul.
pub open spec fn class_of(s: Seq<u16>) -> Seq<u16>
    decreases s.len(),
{
    if s.len() == 0 || s[0] == 0 {
        Seq::empty()
    } else {
        seq![s[0]] + class_of(s.subrange(1, s.len() as int))
    }
}

/// Case-insensitive equality of two UTF-16 unit sequences, ASCII-wise.
pub open spec fn eq_nocase(a: Seq<u16>, b: Seq<u16>) -> bool {
    a.len() == b.len() && forall|i: int| 0 <= i < a.len() ==> lower_u16(a[i]) == lower_u16(b[i])
}

/// The UTF-16 units of the control class to patch, "edit".
pub open spec fn edit_class() -> Seq<u16> {
    seq![0x65u16, 0x64u16, 0x69u16, 0x74u16]
}

/// Whether a query buffer names the text-entry control class, in any casing.
pub open spec fn names_edit_class(s: Seq<u16>) -> bool {
    eq_nocase(class_of(s), edit_class())
}

/// The nul-free prefix of length `k` is what `class_of` reads.
proof fn lemma_class_of_prefix(s: Seq<u16>, k: int)
    requires
        0 <= k <= s.len(),
        forall|j: int| 0 <= j < k ==> s[j] != 0,
        k == s.len() || s[k] == 0,
    ensures
        class_of(s) =~= s.subrange(0, k),
    decreases k,
{
    if k == 0 {
    } else {
        let rest = s.subrange(1, s.len() as int);
        lemma_class_of_prefix(rest, k - 1);
        assert(seq![s[0]] + rest.subrange(0, k - 1) =~= s.subrange(0, k));
    }
}

/// Law: the class-name comparison is case-insensitive — ASCII-lowering
/// every unit of the queried name never changes the verdict, so "EDIT",
/// "edit" and "EdIt" all name the same class.
pub proof fn lemma_match_case_insensitive(a: Seq<u16>, b: Seq<u16>)
    ensures
        eq_nocase(a, b) == eq_nocase(a.map_values(|u: u16| lower_u16(u)), b),
{
    let la = a.map_values(|u: u16| lower_u16(u));
    assert(la.len() == a.len());
    assert forall|i: int| 0 <= i < a.len() implies lower_u16(la[i]) == lower_u16(a[i]) by {
        assert(la[i] == lower_u16(a[i]));
    }
}

/// Executable form of `lower_u16`.
fn unit_lower(u: u16) -> (r: u16)
    ensures
        r == lower_u16(u),
{
    if 0x41 <= u && u <= 0x5A {
        u + 0x20
    } else {
        u
    }
}

/// Accepts the buffer an OS class-name query filled, rejecting the query
/// outcome in which the OS reported zero characters copied.
pub fn checked_class_buffer(buf: Vec<u16>, returned_chars: u32) -> (r: Result<Vec<u16>, Fault>)
    ensures
        returned_chars == 0 ==> r == Err::<Vec<u16>, Fault>(Fault::Query),
        returned_chars != 0 ==> r == Ok::<Vec<u16>, Fault>(buf),
{
    if returned_chars == 0 {
        Err(Fault::Query)
    } else {
        Ok(buf)
    }
}

/// Case-insensitive match of the class name in a query buffer (the units
/// before its first nul) against an expected class name.
#[verifier::loop_isolation(false)]
pub fn class_name_matches(buf: &Vec<u16>, expected: &Vec<u16>) -> (r: bool)
    ensures
        r == eq_nocase(class_of(buf@), expected@),
{
    let len: usize = buf.len();
    let mut n: usize = 0;
    while n < len && buf[n] != 0
        invariant
            0 <= n <= len,
            forall|j: int| 0 <= j < n ==> buf@[j] != 0,
        decreases len - n,
    {
        n = n + 1;
    }
    proof {
        lemma_class_of_prefix(buf@, n as int);
    }
    if n != expected.len() {
        return false;
    }
    let mut i: usize = 0;
    while i < n
        invariant
            0 <= i <= n,
            forall|j: int| 0 <= j < i ==> lower_u16(buf@[j]) == lower_u16(expected@[j]),
        decreases n - i,
    {
        if unit_lower(buf[i]) != unit_lower(expected[i]) {
            return false;
        }
        i = i + 1;
    }
    true
}

/// Case-insensitive test for the one class the patch targets.
pub fn class_name_is_edit(buf: &Vec<u16>) -> (r: bool)
    ensures
        r == names_edit_class(buf@),
{
    let expected: Vec<u16> = vec![0x65u16, 0x64u16, 0x69u16, 0x74u16];
    assert(expected@ =~= edit_class());
    class_name_matches(buf, &expected)
}

} // verus!
