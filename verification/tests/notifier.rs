use mulder::simulation::notifier::{physics_tag, NotifierState, SECTIONS};

#[test]
fn tag() {
    assert_eq!(physics_tag("KKP", "KKP", "DRSS"), "KKP-KKP-DRSS");
}

#[test]
fn short_hash() {
    let n = NotifierState::new(0x0123456789abcdef);
    assert_eq!(n.hash(), "0123456");
    let n = NotifierState::new(0xfff);
    assert_eq!(n.hash(), "0000000");
    let hash = 0xdeadbeefcafe1234u64;
    let n = NotifierState::new(hash);
    let expected: String = format!("{:016x}", hash).chars().take(7).collect();
    assert_eq!(n.hash(), expected);
}

#[test]
fn sections() {
    assert_eq!(SECTIONS, 4);
    let mut n = NotifierState::new(0x0123456789abcdef);
    assert_eq!(n.section(), 0);
    assert!(!n.active());

    let start = n.configure(Some("cross-section")).unwrap();
    assert_eq!(start.label, "[1/4]");
    assert_eq!(start.text, "Computing cross-sections (0123456)");
    assert!(n.active());
    assert!(n.configure(None).is_none());
    assert!(!n.active());

    let start = n.configure(Some("multiple scattering tables")).unwrap();
    assert_eq!(start.label, "[2/4]");
    assert_eq!(start.text, "Computing multiple scattering tables (0123456)");
    assert!(n.configure(Some("ignored")).is_none());
    assert_eq!(n.section(), 2);
}
