use vstd::prelude::*;
use crate::modal::{
    callback_calls, click_run, lemma_dismiss_handler_runs_at_most_once, phase_after_click,
    ModalPhase, ModalTarget,
};
use crate::page::{page_run, page_step, PageEvent, PageModel};

verus! {

/// Whatever the user does, starting from a state the page can reach (its
/// first state among them), the modal is mounted exactly when the visibility
/// flag is set, after every event.
pub proof fn lemma_mounted_iff_visible(m: PageModel, evs: Seq<PageEvent>)
    requires
        m.wf(),
    ensures
        page_run(m, evs).wf(),
        page_run(m, evs).mounted_iff_visible(),
    decreases evs.len(),
{
    if evs.len() > 0 {
        lemma_dismiss_handler_runs_at_most_once(ModalTarget::Panel);
        lemma_dismiss_handler_runs_at_most_once(ModalTarget::Backdrop);
        lemma_dismiss_handler_runs_at_most_once(ModalTarget::CloseButton);
        lemma_mounted_iff_visible(page_step(m, evs[0]), evs.drop_first());
    }
}

proof fn lemma_run_two(m: PageModel, a: PageEvent, b: PageEvent)
    ensures
        page_run(m, seq![a, b]) == page_step(page_step(m, a), b),
{
    let evs = seq![a, b];
    assert(evs.drop_first() =~= seq![b]);
    assert(evs.drop_first().drop_first() =~= Seq::<PageEvent>::empty());
    reveal_with_fuel(page_run, 3);
}

/// Showing the modal and then pressing either close button hides it again,
/// when the modal is dismissable and reports its dismissal to the page.
pub proof fn lemma_show_then_close(m: PageModel)
    requires
        m.wf(),
        m.props.dismissable,
        m.props.has_on_dismiss,
    ensures
        !page_run(m, seq![PageEvent::ShowModal, PageEvent::ModalClick(ModalTarget::CloseButton)]).visible,
        page_run(m, seq![PageEvent::ShowModal, PageEvent::ModalClick(ModalTarget::CloseButton)]).mounted is None,
        !page_run(m, seq![PageEvent::ShowModal, PageEvent::CloseFromContent]).visible,
        page_run(m, seq![PageEvent::ShowModal, PageEvent::CloseFromContent]).mounted is None,
{
    lemma_run_two(m, PageEvent::ShowModal, PageEvent::ModalClick(ModalTarget::CloseButton));
    lemma_run_two(m, PageEvent::ShowModal, PageEvent::CloseFromContent);
    lemma_dismiss_handler_runs_at_most_once(ModalTarget::CloseButton);
}

/// Showing the modal and then clicking inside its panel leaves it shown.
pub proof fn lemma_panel_click_keeps_modal(m: PageModel)
    requires
        m.wf(),
    ensures
        page_run(m, seq![PageEvent::ShowModal, PageEvent::ModalClick(ModalTarget::Panel)]).visible,
        page_run(m, seq![PageEvent::ShowModal, PageEvent::ModalClick(ModalTarget::Panel)]).mounted
            is Some,
{
    lemma_run_two(m, PageEvent::ShowModal, PageEvent::ModalClick(ModalTarget::Panel));
    lemma_dismiss_handler_runs_at_most_once(ModalTarget::Panel);
}

/// Showing the modal and then clicking its backdrop hides it, when the modal
/// is dismissable and reports its dismissal to the page.
pub proof fn lemma_backdrop_click_dismisses(m: PageModel)
    requires
        m.wf(),
        m.props.dismissable,
        m.props.has_on_dismiss,
    ensures
        !page_run(m, seq![PageEvent::ShowModal, PageEvent::ModalClick(ModalTarget::Backdrop)]).visible,
        page_run(m, seq![PageEvent::ShowModal, PageEvent::ModalClick(ModalTarget::Backdrop)]).mounted
            is None,
{
    lemma_run_two(m, PageEvent::ShowModal, PageEvent::ModalClick(ModalTarget::Backdrop));
    lemma_dismiss_handler_runs_at_most_once(ModalTarget::Backdrop);
}

/// A modal that cannot be dismissed ignores every click on it: the page's
/// flag and the modal's phase stay as they were.
pub proof fn lemma_not_dismissable_ignores_clicks(m: PageModel, t: ModalTarget)
    requires
        m.wf(),
        !m.props.dismissable,
    ensures
        page_step(m, PageEvent::ModalClick(t)) == m,
{
}

/// A click inside a modal's panel neither dismisses it nor calls the
/// owner's callback, whatever its configuration and phase.
pub proof fn lemma_modal_panel_click_changes_nothing(
    dismissable: bool,
    has_on_dismiss: bool,
    phase: ModalPhase,
)
    ensures
        phase_after_click(dismissable, phase, ModalTarget::Panel) == phase,
        callback_calls(dismissable, has_on_dismiss, phase, ModalTarget::Panel) == 0,
{
    lemma_dismiss_handler_runs_at_most_once(ModalTarget::Panel);
}

/// A click on the backdrop or on the close button of an open, dismissable
/// modal dismisses it and calls the owner's callback, if there is one,
/// exactly once.
pub proof fn lemma_modal_dismissal_calls_once(has_on_dismiss: bool, t: ModalTarget)
    requires
        t != ModalTarget::Panel,
    ensures
        phase_after_click(true, ModalPhase::Open, t) == ModalPhase::Dismissed,
        callback_calls(true, has_on_dismiss, ModalPhase::Open, t) == (if has_on_dismiss {
            1nat
        } else {
            0nat
        }),
{
    lemma_dismiss_handler_runs_at_most_once(t);
}

/// A modal that cannot be dismissed keeps its phase through any run of
/// clicks and never calls the owner's callback.
pub proof fn lemma_locked_modal_ignores_clicks(
    has_on_dismiss: bool,
    phase: ModalPhase,
    ts: Seq<ModalTarget>,
)
    ensures
        click_run(false, has_on_dismiss, phase, ts) == (phase, 0nat),
    decreases ts.len(),
{
    if ts.len() > 0 {
        lemma_locked_modal_ignores_clicks(has_on_dismiss, phase, ts.drop_first());
    }
}

/// Once dismissed, a modal stays dismissed; over any run of clicks the
/// owner's callback is called at most once, and not at all once the modal
/// is already dismissed.
pub proof fn lemma_dismissed_is_final(
    dismissable: bool,
    has_on_dismiss: bool,
    phase: ModalPhase,
    ts: Seq<ModalTarget>,
)
    ensures
        phase == ModalPhase::Dismissed ==> click_run(dismissable, has_on_dismiss, phase, ts)
            == (ModalPhase::Dismissed, 0nat),
        click_run(dismissable, has_on_dismiss, phase, ts).1 <= 1,
    decreases ts.len(),
{
    if ts.len() > 0 {
        let t = ts[0];
        lemma_dismiss_handler_runs_at_most_once(t);
        let next = phase_after_click(dismissable, phase, t);
        lemma_dismissed_is_final(dismissable, has_on_dismiss, next, ts.drop_first());
        if callback_calls(dismissable, has_on_dismiss, phase, t) > 0 {
            assert(next == ModalPhase::Dismissed);
        }
    }
}

} // verus!
