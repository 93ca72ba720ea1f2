use transfer_matrix::{LayerStack, Step};

fn stack_of(layers: &[u32]) -> LayerStack<u32> {
    let mut s: LayerStack<u32> = LayerStack::new();
    for l in layers {
        s.add_layer(*l);
    }
    s
}

#[test]
fn empty_stack_has_no_result() {
    let s: LayerStack<u32> = LayerStack::new();
    assert!(s.is_empty());
    assert_eq!(s.len(), 0);
    assert_eq!(s.transfer_schedule(), None);
}

#[test]
fn single_layer_is_identity() {
    let s = stack_of(&[152]);
    assert_eq!(s.transfer_schedule(), Some(vec![]));
}

#[test]
fn two_layers_cross_one_boundary() {
    let s = stack_of(&[100, 152]);
    assert_eq!(
        s.transfer_schedule(),
        Some(vec![Step::Propagate(0), Step::Transmit { from: 0, to: 1 }])
    );
}

#[test]
fn air_glass_air_schedule() {
    let s = stack_of(&[100, 152, 100]);
    assert_eq!(
        s.transfer_schedule(),
        Some(vec![
            Step::Propagate(0),
            Step::Transmit { from: 0, to: 1 },
            Step::Propagate(1),
            Step::Transmit { from: 1, to: 2 },
        ])
    );
}

#[test]
fn last_layer_never_propagates() {
    let s = stack_of(&[100, 146, 208, 146, 100]);
    let steps = s.transfer_schedule().unwrap();
    assert_eq!(steps.len(), 8);
    assert!(!steps.contains(&Step::Propagate(4)));
    assert_eq!(steps[7], Step::Transmit { from: 3, to: 4 });
}

#[test]
fn schedule_is_repeatable() {
    let s = stack_of(&[100, 152, 133]);
    let first = s.transfer_schedule();
    let second = s.transfer_schedule();
    assert_eq!(first, second);
    assert_eq!(s.len(), 3);
}

#[test]
fn layers_keep_insertion_order() {
    let s = stack_of(&[100, 152, 133]);
    assert_eq!(*s.layer(0), 100);
    assert_eq!(*s.layer(1), 152);
    assert_eq!(*s.layer(2), 133);
    let r = stack_of(&[133, 152, 100]);
    assert_eq!(*r.layer(0), 133);
    assert_ne!(*s.layer(0), *r.layer(0));
}
