use mulder::materials::{MaterialsData, MaterialsSet, VersionSource};

#[test]
fn data_add_then_remove() {
    let mut data = MaterialsData::new(7);
    assert_eq!(data.version(), 7);
    assert_eq!(data.count("Water"), 0);

    data.add("Water", 8);
    assert_eq!(data.count("Water"), 1);
    assert_eq!(data.version(), 8);

    data.add("Water", 9);
    assert_eq!(data.count("Water"), 2);
    assert_eq!(data.version(), 8);

    data.remove("Water", 10);
    assert_eq!(data.count("Water"), 1);
    assert_eq!(data.version(), 8);

    data.remove("Water", 11);
    assert_eq!(data.count("Water"), 0);
    assert_eq!(data.version(), 11);

    // Removing an absent material changes nothing.
    data.remove("Rock", 12);
    assert_eq!(data.count("Rock"), 0);
    assert_eq!(data.version(), 11);
}

#[test]
fn data_remove_undoes_add() {
    let mut data = MaterialsData::new(0);
    data.add("Rock", 1);
    data.add("Rock", 2);
    data.add("Air", 3);
    data.add("Rock", 4);
    data.remove("Rock", 5);
    assert_eq!(data.count("Rock"), 2);
    assert_eq!(data.count("Air"), 1);
    assert_eq!(data.version(), 3);
}

#[test]
fn data_replace() {
    let mut data = MaterialsData::new(0);
    data.add("Rock", 1);
    data.add("Rock", 2);
    data.add("Water", 3);
    assert!(!data.replace_renames("Rock", "Water"));
    data.replace("Rock", "Water", 4);
    assert_eq!(data.count("Rock"), 1);
    assert_eq!(data.count("Water"), 2);
    assert_eq!(data.version(), 3);

    assert!(data.replace_renames("Rock", "Air"));
    data.replace("Rock", "Air", 5);
    assert_eq!(data.count("Rock"), 0);
    assert_eq!(data.count("Air"), 1);
    assert_eq!(data.version(), 5);

    // A single reference replaced by itself keeps the counts, and stamps anew.
    assert!(data.replace_renames("Air", "Air"));
    data.replace("Air", "Air", 6);
    assert_eq!(data.count("Air"), 1);
    assert_eq!(data.version(), 6);

    // Replacing an absent material adds the new one.
    data.replace("Lava", "Ice", 7);
    assert_eq!(data.count("Lava"), 0);
    assert_eq!(data.count("Ice"), 1);
    assert_eq!(data.version(), 7);
}

#[test]
fn data_add_commutes() {
    let mut a = MaterialsData::new(0);
    a.add("Rock", 1);
    a.add("Water", 2);
    let mut b = MaterialsData::new(0);
    b.add("Water", 1);
    b.add("Rock", 2);
    assert_eq!(a.count("Rock"), b.count("Rock"));
    assert_eq!(a.count("Water"), b.count("Water"));
}

#[test]
fn set_versions_follow_names() {
    let versions = VersionSource::new();
    let set = MaterialsSet::new(&versions);
    let v0 = set.version();

    set.add("Water");
    let v1 = set.version();
    assert!(v1 > v0);
    assert_eq!(set.count("Water"), 1);

    set.add("Water");
    assert_eq!(set.version(), v1);
    assert_eq!(set.count("Water"), 2);

    set.remove("Water");
    assert_eq!(set.version(), v1);
    set.remove("Water");
    assert!(set.version() > v1);
    assert_eq!(set.count("Water"), 0);
}

#[test]
fn set_versions_are_global() {
    let versions = VersionSource::new();
    let a = MaterialsSet::new(&versions);
    let b = MaterialsSet::new(&versions);
    assert_ne!(a.version(), b.version());
    a.add("Rock");
    b.add("Rock");
    assert_ne!(a.version(), b.version());
}

#[test]
fn clones_share_the_set() {
    let versions = VersionSource::new();
    let a = MaterialsSet::new(&versions);
    let b = a.clone();
    a.add("Rock");
    assert_eq!(b.count("Rock"), 1);
    assert_eq!(a.version(), b.version());
}

#[test]
fn subscriber_follows_set() {
    let versions = VersionSource::new();
    let set = MaterialsSet::new(&versions);
    let other = MaterialsSet::new(&versions);
    set.add("Rock");
    let subscriber = set.subscribe();
    assert!(subscriber.is_alive());
    assert!(subscriber.is_subscribed(&set));
    assert!(subscriber.is_subscribed(&set.clone()));
    assert!(!subscriber.is_subscribed(&other));

    let v = set.version();
    assert!(subscriber.replace("Rock", "Water"));
    assert_eq!(set.count("Rock"), 0);
    assert_eq!(set.count("Water"), 1);
    assert!(set.version() > v);

    drop(set);
    assert!(!subscriber.is_alive());
    assert!(!subscriber.replace("Water", "Rock"));
    assert!(!subscriber.is_subscribed(&other));
}
