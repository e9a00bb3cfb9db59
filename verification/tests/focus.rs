use ime_context::{ImeContext, ImeRequest, XPoint};

fn context_with_handle(ic: usize, ic_spot: Option<XPoint>) -> ImeContext {
    let (pending, _) = ImeContext::new(1, 2, ic_spot);
    let (created, _) = pending.created::<String>(ic).unwrap();
    created.checked::<String>(Ok(())).unwrap()
}

#[test]
fn focus_is_one_call_and_one_poll() {
    let context = context_with_handle(0x77, None);
    assert_eq!(
        context.focus(),
        vec![ImeRequest::SetIcFocus { ic: 0x77 }, ImeRequest::CheckErrors]
    );
}

#[test]
fn unfocus_is_one_call_and_one_poll() {
    let context = context_with_handle(0x77, None);
    assert_eq!(
        context.unfocus(),
        vec![ImeRequest::UnsetIcFocus { ic: 0x77 }, ImeRequest::CheckErrors]
    );
}

#[test]
fn focus_then_unfocus_are_independent() {
    let context = context_with_handle(0x77, Some(XPoint { x: 8, y: 9 }));
    let focus = context.focus();
    let unfocus = context.unfocus();
    assert_eq!(focus.len(), 2);
    assert_eq!(unfocus.len(), 2);
    assert_eq!(focus.iter().filter(|r| **r == ImeRequest::CheckErrors).count(), 1);
    assert_eq!(unfocus.iter().filter(|r| **r == ImeRequest::CheckErrors).count(), 1);
    assert_eq!(context.ic(), 0x77);
    assert_eq!(context.ic_spot(), XPoint { x: 8, y: 9 });
}

#[test]
fn unfocus_needs_no_earlier_focus() {
    let context = context_with_handle(0x99, None);
    assert_eq!(
        context.unfocus(),
        vec![ImeRequest::UnsetIcFocus { ic: 0x99 }, ImeRequest::CheckErrors]
    );
}

#[test]
fn focus_does_not_move_the_spot() {
    let mut context = context_with_handle(0x77, Some(XPoint { x: 8, y: 9 }));
    let _ = context.focus();
    assert_eq!(context.set_spot(8, 9), None);
}
