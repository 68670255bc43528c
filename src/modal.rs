use vstd::prelude::*;
use vstd::string::StringExecFns;

verus! {

/// The two phases of a mounted modal: it starts open and, once dismissed,
/// stays so until its owner unmounts it.
#[derive(Clone, Copy, Debug, PartialEq, Eq, Structural)]
pub enum ModalPhase {
    Open,
    Dismissed,
}

/// The element of the overlay on which a click lands. The close button sits
/// inside the panel, and the panel inside the backdrop.
#[derive(Clone, Copy, Debug, PartialEq, Eq, Structural)]
pub enum ModalTarget {
    Backdrop,
    Panel,
    CloseButton,
}

/// The element that a click bubbles up to next.
pub open spec fn parent(t: ModalTarget) -> Option<ModalTarget> {
    match t {
        ModalTarget::CloseButton => Some(ModalTarget::Panel),
        ModalTarget::Panel => Some(ModalTarget::Backdrop),
        ModalTarget::Backdrop => None,
    }
}

pub open spec fn depth(t: ModalTarget) -> nat {
    match t {
        ModalTarget::Backdrop => 0,
        ModalTarget::Panel => 1,
        ModalTarget::CloseButton => 2,
    }
}

/// The backdrop and the close button both run the dismiss handler.
pub open spec fn runs_dismiss_handler(t: ModalTarget) -> bool {
    t != ModalTarget::Panel
}

/// The panel keeps clicks on the content from reaching the backdrop.
pub open spec fn stops_propagation(t: ModalTarget) -> bool {
    t == ModalTarget::Panel
}

/// How many times a click on `t` runs the dismiss handler while it bubbles up.
pub open spec fn dismiss_handler_runs(t: ModalTarget) -> nat
    decreases depth(t),
{
    (if runs_dismiss_handler(t) {
        1nat
    } else {
        0nat
    }) + if stops_propagation(t) {
        0nat
    } else {
        match parent(t) {
            Some(p) => dismiss_handler_runs(p),
            None => 0nat,
        }
    }
}

/// A click runs the dismiss handler at most once, wherever it lands.
pub proof fn lemma_dismiss_handler_runs_at_most_once(t: ModalTarget)
    ensures
        dismiss_handler_runs(t) <= 1,
        dismiss_handler_runs(t) == (if t == ModalTarget::Panel {
            0nat
        } else {
            1nat
        }),
{
    reveal_with_fuel(dismiss_handler_runs, 3);
}

/// The configuration of a modal. The content it shows is opaque to this logic
/// and is carried by whoever renders it; `has_on_dismiss` says whether the
/// owner handed in a dismissal callback.
pub struct ModalProps {
    pub extra_backdrop_classes: Option<String>,
    pub extra_modal_classes: Option<String>,
    pub dismissable: bool,
    pub has_on_dismiss: bool,
}

impl ModalProps {
    /// A dismissable modal with no extra classes.
    pub fn new(has_on_dismiss: bool) -> (p: ModalProps)
        ensures
            p.extra_backdrop_classes is None,
            p.extra_modal_classes is None,
            p.dismissable,
            p.has_on_dismiss == has_on_dismiss,
    {
        ModalProps {
            extra_backdrop_classes: None,
            extra_modal_classes: None,
            dismissable: true,
            has_on_dismiss,
        }
    }
}

/// What one dismissal request leaves behind: the new phase, and whether the
/// owner's callback was called. The callback is called only on the move from
/// open to dismissed; a dismissed modal stays dismissed and calls nothing more.
pub open spec fn dismiss_spec(dismissable: bool, has_on_dismiss: bool, phase: ModalPhase) -> (
    ModalPhase,
    bool,
) {
    if dismissable {
        (ModalPhase::Dismissed, has_on_dismiss && phase == ModalPhase::Open)
    } else {
        (phase, false)
    }
}

/// The dismiss handler: a no-op unless the modal is dismissable; otherwise it
/// marks the modal dismissed and, if it was open, calls the owner's callback,
/// if there is one.
pub fn dismiss(props: &ModalProps, phase: ModalPhase) -> (r: (ModalPhase, bool))
    ensures
        r == dismiss_spec(props.dismissable, props.has_on_dismiss, phase),
{
    if props.dismissable {
        (ModalPhase::Dismissed, props.has_on_dismiss && phase == ModalPhase::Open)
    } else {
        (phase, false)
    }
}

/// The phase after a click on `t`.
pub open spec fn phase_after_click(dismissable: bool, phase: ModalPhase, t: ModalTarget) -> ModalPhase {
    if dismissable && dismiss_handler_runs(t) > 0 {
        ModalPhase::Dismissed
    } else {
        phase
    }
}

/// How many times a click on `t` calls the owner's callback, on a modal in
/// the given phase.
pub open spec fn callback_calls(
    dismissable: bool,
    has_on_dismiss: bool,
    phase: ModalPhase,
    t: ModalTarget,
) -> nat {
    if dismissable && has_on_dismiss && phase == ModalPhase::Open {
        dismiss_handler_runs(t)
    } else {
        0
    }
}

/// The phase after a run of clicks, and how many times they called the
/// owner's callback in all.
pub open spec fn click_run(
    dismissable: bool,
    has_on_dismiss: bool,
    phase: ModalPhase,
    ts: Seq<ModalTarget>,
) -> (ModalPhase, nat)
    decreases ts.len(),
{
    if ts.len() == 0 {
        (phase, 0)
    } else {
        let rest = click_run(
            dismissable,
            has_on_dismiss,
            phase_after_click(dismissable, phase, ts[0]),
            ts.drop_first(),
        );
        (rest.0, callback_calls(dismissable, has_on_dismiss, phase, ts[0]) + rest.1)
    }
}

/// Delivers a click on `target` to each element on its way up, the target
/// first, until an element stops it or the backdrop is passed. Returns the
/// new phase and how many times the owner's callback was called.
pub fn handle_click(props: &ModalProps, phase: ModalPhase, target: ModalTarget) -> (r: (
    ModalPhase,
    u32,
))
    ensures
        r.0 == phase_after_click(props.dismissable, phase, target),
        r.1 == callback_calls(props.dismissable, props.has_on_dismiss, phase, target),
{
    let mut node: Option<ModalTarget> = Some(target);
    let mut cur: ModalPhase = phase;
    let mut runs: u32 = 0;
    let mut calls: u32 = 0;
    proof {
        lemma_dismiss_handler_runs_at_most_once(target);
    }
    while node.is_some()
        invariant
            runs <= dismiss_handler_runs(target) <= 1,
            dismiss_handler_runs(target) == runs + match node {
                Some(n) => dismiss_handler_runs(n),
                None => 0nat,
            },
            cur == (if props.dismissable && runs > 0 {
                ModalPhase::Dismissed
            } else {
                phase
            }),
            calls == (if props.dismissable && props.has_on_dismiss && phase == ModalPhase::Open {
                runs
            } else {
                0
            }),
        decreases
                match node {
                    Some(n) => depth(n) + 1,
                    None => 0nat,
                },
    {
        let n = node.unwrap();
        proof {
            lemma_dismiss_handler_runs_at_most_once(n);
            reveal_with_fuel(dismiss_handler_runs, 2);
        }
        let handles = match n {
            ModalTarget::Panel => false,
            _ => true,
        };
        if handles {
            let (next_phase, fired) = dismiss(props, cur);
            cur = next_phase;
            runs = runs + 1;
            if fired {
                calls = calls + 1;
            }
        }
        node = match n {
            ModalTarget::Panel => None,
            ModalTarget::CloseButton => Some(ModalTarget::Panel),
            ModalTarget::Backdrop => None,
        };
    }
    (cur, calls)
}

} // verus!

verus! {

/// The classes every backdrop carries.
pub const BACKDROP_CLASSES: &'static str = "fixed inset-0 z-20 block backdrop-blur-sm bg-amber-50/20 overflow-hidden transition-[opacity,backdrop-blur] duration-1000";

/// The classes a dismissed backdrop adds, which play its exit transition.
pub const DISMISSED_BACKDROP_CLASSES: &'static str = "invisible z-[-1] opacity-0 backdrop-blur-none";

/// The classes every panel carries.
pub const PANEL_CLASSES: &'static str = "w-full h-auto bottom-0 absolute bg-amber-50 absolute animate-slide-up";

/// The classes every close button carries.
pub const CLOSE_BUTTON_CLASSES: &'static str = "absolute top-0 right-0 p-2";

/// The close button's visibility class when the modal can be dismissed.
pub const SHOWN: &'static str = "visible";

/// The close button's visibility class otherwise: it keeps its place in the
/// layout but cannot be seen.
pub const HIDDEN: &'static str = "invisible";

/// What an optional string holds, as characters.
pub open spec fn opt_chars(o: Option<String>) -> Option<Seq<char>> {
    match o {
        Some(s) => Some(s@),
        None => None,
    }
}

/// A class list with `extra`, when there is one, added after a space.
pub open spec fn with_class(base: Seq<char>, extra: Option<Seq<char>>) -> Seq<char> {
    match extra {
        Some(e) => base + " "@ + e,
        None => base,
    }
}

pub open spec fn backdrop_class(props: ModalProps, phase: ModalPhase) -> Seq<char> {
    with_class(
        with_class(BACKDROP_CLASSES@, opt_chars(props.extra_backdrop_classes)),
        if phase == ModalPhase::Dismissed {
            Some(DISMISSED_BACKDROP_CLASSES@)
        } else {
            None
        },
    )
}

pub open spec fn panel_class(props: ModalProps) -> Seq<char> {
    with_class(PANEL_CLASSES@, opt_chars(props.extra_modal_classes))
}

pub open spec fn close_button_class(props: ModalProps) -> Seq<char> {
    with_class(
        CLOSE_BUTTON_CLASSES@,
        Some(
            if props.dismissable {
                SHOWN@
            } else {
                HIDDEN@
            },
        ),
    )
}

/// The class lists of the three elements of a rendered modal.
pub struct ModalView {
    pub backdrop_class: String,
    pub panel_class: String,
    pub close_button_class: String,
}

fn push_class(s: &mut String, extra: &str)
    ensures
        final(s)@ == old(s)@ + " "@ + extra@,
{
    s.append(" ");
    s.append(extra);
}

fn class_list(base: &str, extra: &Option<String>) -> (r: String)
    ensures
        r@ == with_class(base@, opt_chars(*extra)),
{
    let mut s = String::from_str(base);
    match extra {
        Some(e) => push_class(&mut s, e.as_str()),
        None => {},
    }
    s
}

/// Renders a modal in the given phase as the class lists of its backdrop,
/// panel and close button.
#[allow(non_snake_case)]
pub fn Modal(props: &ModalProps, phase: ModalPhase) -> (v: ModalView)
    ensures
        v.backdrop_class@ == backdrop_class(*props, phase),
        v.panel_class@ == panel_class(*props),
        v.close_button_class@ == close_button_class(*props),
{
    let mut backdrop = class_list(BACKDROP_CLASSES, &props.extra_backdrop_classes);
    if phase == ModalPhase::Dismissed {
        push_class(&mut backdrop, DISMISSED_BACKDROP_CLASSES);
    }
    let panel = class_list(PANEL_CLASSES, &props.extra_modal_classes);
    let mut close = String::from_str(CLOSE_BUTTON_CLASSES);
    if props.dismissable {
        push_class(&mut close, SHOWN);
    } else {
        push_class(&mut close, HIDDEN);
    }
    ModalView { backdrop_class: backdrop, panel_class: panel, close_button_class: close }
}

/// A mounted modal: its configuration and its phase.
pub struct ModalInstance {
    pub props: ModalProps,
    pub phase: ModalPhase,
}

impl ModalInstance {
    /// A modal as it is first mounted: open.
    pub fn mount(props: ModalProps) -> (m: ModalInstance)
        ensures
            m.props == props,
            m.phase == ModalPhase::Open,
    {
        ModalInstance { props, phase: ModalPhase::Open }
    }

    /// Whether a dismissal has been requested and granted.
    pub fn is_dismissed(&self) -> (r: bool)
        ensures
            r == (self.phase == ModalPhase::Dismissed),
    {
        self.phase == ModalPhase::Dismissed
    }

    /// Handles a click on `target`; returns how many times the owner's
    /// callback was called.
    pub fn click(&mut self, target: ModalTarget) -> (calls: u32)
        ensures
            final(self).props == old(self).props,
            final(self).phase == phase_after_click(old(self).props.dismissable, old(self).phase, target),
            calls == callback_calls(
                old(self).props.dismissable,
                old(self).props.has_on_dismiss,
                old(self).phase,
                target,
            ),
    {
        let (phase, calls) = handle_click(&self.props, self.phase, target);
        self.phase = phase;
        calls
    }

    pub fn view(&self) -> (v: ModalView)
        ensures
            v.backdrop_class@ == backdrop_class(self.props, self.phase),
            v.panel_class@ == panel_class(self.props),
            v.close_button_class@ == close_button_class(self.props),
    {
        Modal(&self.props, self.phase)
    }
}

} // verus!
