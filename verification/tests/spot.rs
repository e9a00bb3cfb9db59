use ime_context::request::create_pre_edit_attr;
use ime_context::{ImeContext, ImeRequest, PreEditAttr, XPoint};

fn context_at(ic: usize, x: i16, y: i16) -> ImeContext {
    let (pending, _) = ImeContext::new(1, 2, Some(XPoint { x, y }));
    let (created, _) = pending.created::<String>(ic).unwrap();
    created.checked::<String>(Ok(())).unwrap()
}

#[test]
fn pre_edit_attr_names_the_spot() {
    let spot = XPoint { x: 12, y: -7 };
    assert_eq!(create_pre_edit_attr(&spot), PreEditAttr { spot_location: XPoint { x: 12, y: -7 } });
}

#[test]
fn set_spot_same_spot_is_noop() {
    let mut context = context_at(9, 3, 4);
    assert_eq!(context.set_spot(3, 4), None);
    assert_eq!(context.ic(), 9);
    assert_eq!(context.ic_spot(), XPoint { x: 3, y: 4 });
}

#[test]
fn set_spot_new_spot_is_stored_and_sent() {
    let mut context = context_at(9, 3, 4);
    assert_eq!(
        context.set_spot(30, 40),
        Some(ImeRequest::SetIcValues {
            ic: 9,
            pre_edit_attr: PreEditAttr { spot_location: XPoint { x: 30, y: 40 } },
        })
    );
    assert_eq!(context.ic(), 9);
    assert_eq!(context.ic_spot(), XPoint { x: 30, y: 40 });
}

#[test]
fn set_spot_compares_both_coordinates() {
    let mut context = context_at(9, 3, 4);
    assert!(context.set_spot(3, 5).is_some());
    assert_eq!(context.ic_spot(), XPoint { x: 3, y: 5 });
    assert!(context.set_spot(2, 5).is_some());
    assert_eq!(context.ic_spot(), XPoint { x: 2, y: 5 });
    assert!(context.set_spot(5, 2).is_some());
    assert_eq!(context.ic_spot(), XPoint { x: 5, y: 2 });
}

#[test]
fn set_spot_twice_sends_once() {
    let mut context = context_at(9, 0, 0);
    assert!(context.set_spot(-1, -1).is_some());
    assert_eq!(context.set_spot(-1, -1), None);
    assert_eq!(context.ic_spot(), XPoint { x: -1, y: -1 });
}

#[test]
fn set_spot_takes_extreme_coordinates() {
    let mut context = context_at(9, 0, 0);
    assert_eq!(
        context.set_spot(i16::MIN, i16::MAX),
        Some(ImeRequest::SetIcValues {
            ic: 9,
            pre_edit_attr: PreEditAttr { spot_location: XPoint { x: i16::MIN, y: i16::MAX } },
        })
    );
    assert_eq!(context.ic_spot(), XPoint { x: i16::MIN, y: i16::MAX });
    assert_eq!(context.ic(), 9);
}

#[test]
fn set_spot_sequence() {
    let mut context = context_at(0x51, 0, 0);
    let mut sent: Vec<ImeRequest> = Vec::new();

    sent.extend(context.set_spot(0, 0));
    assert_eq!(sent.len(), 0);
    assert_eq!(context.ic_spot(), XPoint { x: 0, y: 0 });

    sent.extend(context.set_spot(5, 5));
    assert_eq!(sent.len(), 1);
    assert_eq!(context.ic_spot(), XPoint { x: 5, y: 5 });

    sent.extend(context.set_spot(5, 5));
    assert_eq!(sent.len(), 1);
    assert_eq!(context.ic_spot(), XPoint { x: 5, y: 5 });

    assert_eq!(
        sent,
        vec![ImeRequest::SetIcValues {
            ic: 0x51,
            pre_edit_attr: PreEditAttr { spot_location: XPoint { x: 5, y: 5 } },
        }]
    );
}
