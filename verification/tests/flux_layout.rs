use mulder::simulation::flux::{
    flux_shape, grammage_shape, sampled_events, transport_layout, TransportMode,
};
use mulder::utils::error::ErrorKind;

#[test]
fn sampled_flux_events() {
    assert_eq!(sampled_events(TransportMode::Continuous, Some(10)), None);
    assert_eq!(sampled_events(TransportMode::Mixed, Some(10)), Some(10));
    assert_eq!(sampled_events(TransportMode::Discrete, Some(2)), Some(2));
    assert_eq!(sampled_events(TransportMode::Discrete, Some(1)), None);
    assert_eq!(sampled_events(TransportMode::Mixed, Some(0)), None);
    assert_eq!(sampled_events(TransportMode::Mixed, None), None);
}

#[test]
fn flux_shapes() {
    assert_eq!(flux_shape(vec![3, 4], Some(100)), vec![3, 4, 2]);
    assert_eq!(flux_shape(vec![3, 4], None), vec![3, 4]);
    assert_eq!(flux_shape(vec![], None), Vec::<usize>::new());
}

#[test]
fn grammage_shapes() {
    assert_eq!(grammage_shape(vec![5], 2, false), vec![5, 3]);
    assert_eq!(grammage_shape(vec![5], 2, true), vec![5]);
}

#[test]
fn transport_layouts() {
    let layout = transport_layout(vec![7], Some(3), false, false).unwrap();
    assert_eq!((layout.shape, layout.draws), (vec![7, 3], 3));
    let layout = transport_layout(vec![7], None, true, true).unwrap();
    assert_eq!((layout.shape, layout.draws), (vec![7], 1));
    match transport_layout(vec![7], None, true, false) {
        Err((kind, msg)) => {
            assert_eq!(kind, ErrorKind::TypeError);
            assert_eq!(msg, "bad states (a pid is required for a magnetized geometry)");
        },
        Ok(_) => panic!("a magnetised geometry needs flavoured states"),
    }
}
