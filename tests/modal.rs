use modal_dialog::modal::{
    dismiss, handle_click, Modal, ModalInstance, ModalPhase, ModalProps, ModalTarget,
};
use modal_dialog::page::{Page, PageEvent};

fn fixed_props(dismissable: bool) -> ModalProps {
    let mut p = ModalProps::new(true);
    p.dismissable = dismissable;
    p
}

#[test]
fn show_then_close_button_scenario() {
    let mut page = Page::new();
    assert!(!page.is_modal_visible());
    assert!(page.render().is_none());

    let r = page.dispatch(PageEvent::ShowModal);
    assert_eq!(r.on_dismiss_calls, 0);
    assert!(page.is_modal_visible());
    assert_eq!(page.modal_phase(), Some(ModalPhase::Open));
    assert!(page.render().is_some());

    let r = page.dispatch(PageEvent::ModalClick(ModalTarget::CloseButton));
    assert_eq!(r.handled_phase, Some(ModalPhase::Dismissed));
    assert_eq!(r.on_dismiss_calls, 1);
    assert!(!page.is_modal_visible());
    assert_eq!(page.modal_phase(), None);
    assert!(page.render().is_none());
}

#[test]
fn mounted_iff_visible_over_repeated_shows() {
    let mut page = Page::new();
    for _ in 0..5 {
        page.dispatch(PageEvent::ShowModal);
        assert!(page.is_modal_visible());
        assert_eq!(page.modal_phase(), Some(ModalPhase::Open));
    }
    page.dispatch(PageEvent::CloseFromContent);
    assert!(!page.is_modal_visible());
    assert!(page.render().is_none());
    page.dispatch(PageEvent::ShowModal);
    assert_eq!(page.render().is_some(), page.is_modal_visible());
}

#[test]
fn content_close_button_hides_modal() {
    let mut page = Page::new();
    page.dispatch(PageEvent::ShowModal);
    let r = page.dispatch(PageEvent::CloseFromContent);
    assert_eq!(r.on_dismiss_calls, 0);
    assert!(!page.is_modal_visible());
    assert_eq!(page.modal_phase(), None);
}

#[test]
fn panel_click_keeps_modal_open() {
    let mut page = Page::new();
    page.dispatch(PageEvent::ShowModal);
    let r = page.dispatch(PageEvent::ModalClick(ModalTarget::Panel));
    assert_eq!(r.on_dismiss_calls, 0);
    assert_eq!(r.handled_phase, Some(ModalPhase::Open));
    assert!(page.is_modal_visible());
    assert_eq!(page.modal_phase(), Some(ModalPhase::Open));
}

#[test]
fn backdrop_click_hides_modal() {
    let mut page = Page::new();
    page.dispatch(PageEvent::ShowModal);
    let r = page.dispatch(PageEvent::ModalClick(ModalTarget::Backdrop));
    assert_eq!(r.on_dismiss_calls, 1);
    assert_eq!(r.handled_phase, Some(ModalPhase::Dismissed));
    assert!(!page.is_modal_visible());
}

#[test]
fn undismissable_modal_ignores_clicks() {
    let mut page = Page::with_modal_props(fixed_props(false));
    page.dispatch(PageEvent::ShowModal);
    for t in [ModalTarget::Backdrop, ModalTarget::CloseButton, ModalTarget::Panel] {
        let r = page.dispatch(PageEvent::ModalClick(t));
        assert_eq!(r.on_dismiss_calls, 0);
        assert_eq!(r.handled_phase, Some(ModalPhase::Open));
        assert!(page.is_modal_visible());
        assert_eq!(page.modal_phase(), Some(ModalPhase::Open));
    }
}

#[test]
fn click_without_modal_does_nothing() {
    let mut page = Page::new();
    let r = page.dispatch(PageEvent::ModalClick(ModalTarget::Backdrop));
    assert_eq!(r.on_dismiss_calls, 0);
    assert_eq!(r.handled_phase, None);
    assert!(!page.is_modal_visible());
}

#[test]
fn modal_without_callback_stays_mounted_but_dismissed() {
    let mut page = Page::with_modal_props(ModalProps::new(false));
    page.dispatch(PageEvent::ShowModal);
    let r = page.dispatch(PageEvent::ModalClick(ModalTarget::CloseButton));
    assert_eq!(r.on_dismiss_calls, 0);
    assert!(page.is_modal_visible());
    assert_eq!(page.modal_phase(), Some(ModalPhase::Dismissed));
}

#[test]
fn dismiss_handler_outcomes() {
    assert_eq!(dismiss(&fixed_props(true), ModalPhase::Open), (ModalPhase::Dismissed, true));
    assert_eq!(dismiss(&ModalProps::new(false), ModalPhase::Open), (ModalPhase::Dismissed, false));
    assert_eq!(dismiss(&fixed_props(false), ModalPhase::Open), (ModalPhase::Open, false));
    assert_eq!(
        dismiss(&fixed_props(false), ModalPhase::Dismissed),
        (ModalPhase::Dismissed, false)
    );
}

#[test]
fn click_bubbling_per_target() {
    let p = fixed_props(true);
    assert_eq!(
        handle_click(&p, ModalPhase::Open, ModalTarget::CloseButton),
        (ModalPhase::Dismissed, 1)
    );
    assert_eq!(
        handle_click(&p, ModalPhase::Open, ModalTarget::Backdrop),
        (ModalPhase::Dismissed, 1)
    );
    assert_eq!(handle_click(&p, ModalPhase::Open, ModalTarget::Panel), (ModalPhase::Open, 0));
}

#[test]
fn modal_instance_close_sets_dismissed() {
    let mut m = ModalInstance::mount(fixed_props(true));
    assert!(!m.is_dismissed());
    assert_eq!(m.click(ModalTarget::Panel), 0);
    assert!(!m.is_dismissed());
    assert_eq!(m.click(ModalTarget::CloseButton), 1);
    assert!(m.is_dismissed());
}

#[test]
fn class_lists_of_open_modal() {
    let v = Modal(&fixed_props(true), ModalPhase::Open);
    assert_eq!(
        v.backdrop_class,
        "fixed inset-0 z-20 block backdrop-blur-sm bg-amber-50/20 overflow-hidden transition-[opacity,backdrop-blur] duration-1000"
    );
    assert_eq!(
        v.panel_class,
        "w-full h-auto bottom-0 absolute bg-amber-50 absolute animate-slide-up"
    );
    assert_eq!(v.close_button_class, "absolute top-0 right-0 p-2 visible");
}

#[test]
fn class_lists_with_extras_dismissed_and_locked() {
    let mut p = fixed_props(false);
    p.extra_backdrop_classes = Some("dim".to_string());
    p.extra_modal_classes = Some("wide tall".to_string());
    let v = Modal(&p, ModalPhase::Dismissed);
    assert_eq!(
        v.backdrop_class,
        "fixed inset-0 z-20 block backdrop-blur-sm bg-amber-50/20 overflow-hidden transition-[opacity,backdrop-blur] duration-1000 dim invisible z-[-1] opacity-0 backdrop-blur-none"
    );
    assert_eq!(
        v.panel_class,
        "w-full h-auto bottom-0 absolute bg-amber-50 absolute animate-slide-up wide tall"
    );
    assert_eq!(v.close_button_class, "absolute top-0 right-0 p-2 invisible");
}

#[test]
fn callback_fires_once_over_instance_lifetime() {
    let mut m = ModalInstance::mount(fixed_props(true));
    assert_eq!(m.click(ModalTarget::Backdrop), 1);
    assert!(m.is_dismissed());
    assert_eq!(m.click(ModalTarget::CloseButton), 0);
    assert_eq!(m.click(ModalTarget::Backdrop), 0);
    assert!(m.is_dismissed());
}

#[test]
fn dismissed_modal_makes_no_call() {
    assert_eq!(dismiss(&fixed_props(true), ModalPhase::Dismissed), (ModalPhase::Dismissed, false));
    assert_eq!(
        handle_click(&fixed_props(true), ModalPhase::Dismissed, ModalTarget::CloseButton),
        (ModalPhase::Dismissed, 0)
    );
}

#[test]
fn locked_modal_instance_never_dismisses() {
    let mut m = ModalInstance::mount(fixed_props(false));
    for t in [ModalTarget::Backdrop, ModalTarget::CloseButton, ModalTarget::Panel, ModalTarget::Backdrop] {
        assert_eq!(m.click(t), 0);
        assert!(!m.is_dismissed());
        assert!(!m.view().backdrop_class.contains("opacity-0"));
    }
}
