use vstd::prelude::*;
use crate::modal::{
    callback_calls, handle_click, phase_after_click, backdrop_class, close_button_class,
    panel_class, Modal, ModalPhase, ModalProps, ModalTarget, ModalView,
};

verus! {

/// The page as its logic sees it: the configuration it mounts its modal
/// with, its visibility flag, and the phase of the mounted modal, if any.
pub struct PageModel {
    pub props: ModalProps,
    pub visible: bool,
    pub mounted: Option<ModalPhase>,
}

impl PageModel {
    /// The modal is mounted exactly when the visibility flag is set.
    pub open spec fn mounted_iff_visible(self) -> bool {
        self.mounted is Some <==> self.visible
    }

    /// What holds of every state the page reaches: besides the above, a
    /// mounted modal can only be dismissed if it could be and had no
    /// callback to tell the page, which would have unmounted it.
    pub open spec fn wf(self) -> bool {
        &&& self.mounted_iff_visible()
        &&& self.mounted == Some(ModalPhase::Dismissed) ==> self.props.dismissable
            && !self.props.has_on_dismiss
    }

    pub open spec fn initial(props: ModalProps) -> PageModel {
        PageModel { props, visible: false, mounted: None }
    }
}

/// What the user does on the page.
#[derive(Clone, Copy, Debug, PartialEq, Eq, Structural)]
pub enum PageEvent {
    /// The "show" button.
    ShowModal,
    /// The close button that the page puts inside the modal's content.
    CloseFromContent,
    /// A click somewhere on the modal's overlay.
    ModalClick(ModalTarget),
}

/// After each event the page renders again: a modal is mounted, open, when
/// the flag is set and none is, and unmounted when the flag is clear.
pub open spec fn rerender(visible: bool, mounted: Option<ModalPhase>) -> Option<ModalPhase> {
    if visible {
        match mounted {
            Some(p) => Some(p),
            None => Some(ModalPhase::Open),
        }
    } else {
        None
    }
}

/// The phase in which the event's handlers leave the modal, before the page
/// renders again.
pub open spec fn handled_phase(m: PageModel, ev: PageEvent) -> Option<ModalPhase> {
    match ev {
        PageEvent::ModalClick(t) => match m.mounted {
            Some(p) => Some(phase_after_click(m.props.dismissable, p, t)),
            None => None,
        },
        _ => m.mounted,
    }
}

/// How many times the event calls the modal's dismissal callback.
pub open spec fn dismiss_calls(m: PageModel, ev: PageEvent) -> nat {
    match ev {
        PageEvent::ModalClick(t) => match m.mounted {
            Some(p) => callback_calls(m.props.dismissable, m.props.has_on_dismiss, p, t),
            None => 0,
        },
        _ => 0,
    }
}

/// The visibility flag once the event's handlers have run. The dismissal
/// callback clears it.
pub open spec fn visible_after(m: PageModel, ev: PageEvent) -> bool {
    match ev {
        PageEvent::ShowModal => true,
        PageEvent::CloseFromContent => false,
        PageEvent::ModalClick(_) => m.visible && dismiss_calls(m, ev) == 0,
    }
}

pub open spec fn page_step(m: PageModel, ev: PageEvent) -> PageModel {
    PageModel {
        props: m.props,
        visible: visible_after(m, ev),
        mounted: rerender(visible_after(m, ev), handled_phase(m, ev)),
    }
}

pub open spec fn page_run(m: PageModel, evs: Seq<PageEvent>) -> PageModel
    decreases evs.len(),
{
    if evs.len() == 0 {
        m
    } else {
        page_run(page_step(m, evs[0]), evs.drop_first())
    }
}

/// What handling one event reports: how many times the modal's dismissal
/// callback ran, and the phase the handlers left the modal in.
#[derive(Clone, Copy, Debug, PartialEq, Eq, Structural)]
pub struct Dispatch {
    pub on_dismiss_calls: u32,
    pub handled_phase: Option<ModalPhase>,
}

/// The page that owns a modal: it shows it on request and hides it when the
/// modal reports a dismissal or its own close button is pressed.
pub struct Page {
    modal_props: ModalProps,
    modal_visible: bool,
    modal_phase: Option<ModalPhase>,
}

impl View for Page {
    type V = PageModel;

    closed spec fn view(&self) -> PageModel {
        PageModel {
            props: self.modal_props,
            visible: self.modal_visible,
            mounted: self.modal_phase,
        }
    }
}

impl Page {
    /// The page as it starts: no modal shown. The modal it mounts is
    /// dismissable and reports its dismissal back to the page.
    pub fn new() -> (p: Page)
        ensures
            p@ == PageModel::initial(p@.props),
            p@.wf(),
            p@.props.dismissable,
            p@.props.has_on_dismiss,
            p@.props.extra_backdrop_classes is None,
            p@.props.extra_modal_classes is None,
    {
        Page::with_modal_props(ModalProps::new(true))
    }

    /// A page, with no modal shown, that mounts its modal with `props`.
    pub fn with_modal_props(props: ModalProps) -> (p: Page)
        ensures
            p@ == PageModel::initial(props),
            p@.wf(),
    {
        Page { modal_props: props, modal_visible: false, modal_phase: None }
    }

    pub fn is_modal_visible(&self) -> (r: bool)
        ensures
            r == self@.visible,
    {
        self.modal_visible
    }

    pub fn modal_phase(&self) -> (r: Option<ModalPhase>)
        ensures
            r == self@.mounted,
    {
        self.modal_phase
    }

    fn rerender(&mut self)
        ensures
            final(self)@ == (PageModel {
                mounted: rerender(old(self)@.visible, old(self)@.mounted),
                ..old(self)@
            }),
    {
        if self.modal_visible {
            if self.modal_phase.is_none() {
                self.modal_phase = Some(ModalPhase::Open);
            }
        } else {
            self.modal_phase = None;
        }
    }

    /// Runs the handlers of one event, then renders again.
    pub fn dispatch(&mut self, ev: PageEvent) -> (r: Dispatch)
        ensures
            final(self)@ == page_step(old(self)@, ev),
            r.on_dismiss_calls == dismiss_calls(old(self)@, ev),
            r.handled_phase == handled_phase(old(self)@, ev),
    {
        let mut calls: u32 = 0;
        match ev {
            PageEvent::ShowModal => {
                self.modal_visible = true;
            },
            PageEvent::CloseFromContent => {
                self.modal_visible = false;
            },
            PageEvent::ModalClick(t) => {
                match self.modal_phase {
                    Some(p) => {
                        let (next, n) = handle_click(&self.modal_props, p, t);
                        calls = n;
                        if n > 0 {
                            self.modal_visible = false;
                        }
                        self.modal_phase = Some(next);
                    },
                    None => {},
                }
            },
        }
        let handled = self.modal_phase;
        self.rerender();
        Dispatch { on_dismiss_calls: calls, handled_phase: handled }
    }

    /// The modal as the page renders it: present exactly when it is mounted.
    pub fn render(&self) -> (r: Option<ModalView>)
        ensures
            r is Some <==> self@.mounted is Some,
            r matches Some(v) ==> v.backdrop_class@ == backdrop_class(self@.props, self@.mounted->0)
                && v.panel_class@ == panel_class(self@.props)
                && v.close_button_class@ == close_button_class(self@.props),
    {
        match self.modal_phase {
            Some(p) => Some(Modal(&self.modal_props, p)),
            None => None,
        }
    }
}

} // verus!
