use mulder::simulation::arguments::fluxmeter_arguments;
use mulder::simulation::particle::Particle;
use mulder::utils::error::ErrorKind;

fn keys(items: &[&str]) -> Vec<String> {
    items.iter().map(|s| s.to_string()).collect()
}

#[test]
fn particles() {
    assert_eq!(Particle::from_pid(13), Ok(Particle::Muon));
    assert_eq!(Particle::from_pid(-13), Ok(Particle::Anti));
    assert_eq!(Particle::Muon.pid(), 13);
    assert_eq!(Particle::Anti.pid(), -13);
    for p in [Particle::Muon, Particle::Anti] {
        assert_eq!(Particle::from_pid(p.pid()), Ok(p));
    }
    assert_eq!(
        Particle::from_pid(-11),
        Err((ErrorKind::ValueError, "bad pid (expected '13' or '-13', found -11)".to_string())),
    );
}

#[test]
fn fluxmeter_keywords() {
    let k = keys(&["mode", "materials", "random", "photonuclear", "atmosphere", "reference"]);
    let args = fluxmeter_arguments(2, &k).unwrap();
    assert_eq!(args.geometry, None);
    assert_eq!(args.geometry_kwargs, vec![4, 1]);
    assert_eq!(args.physics, None);
    assert_eq!(args.physics_kwargs, vec![3]);
    assert_eq!(args.random, Some(2));
    assert_eq!(args.attributes, vec![0, 5]);

    let k = keys(&["physics", "geometry"]);
    let args = fluxmeter_arguments(0, &k).unwrap();
    assert_eq!(args.geometry, Some(1));
    assert_eq!(args.physics, Some(0));
    assert!(args.attributes.is_empty());
}

#[test]
fn fluxmeter_conflicts() {
    let k = keys(&["geometry"]);
    assert_eq!(
        fluxmeter_arguments(1, &k).err(),
        Some((ErrorKind::TypeError, "bad geometry argument(s) (geometry already provided as *layers and/or **kwargs)".to_string())),
    );
    let k = keys(&["geometry", "magnet"]);
    assert!(fluxmeter_arguments(0, &k).is_err());
    let k = keys(&["physics", "bremsstrahlung"]);
    assert_eq!(
        fluxmeter_arguments(0, &k).err(),
        Some((ErrorKind::TypeError, "bad physics argument(s) (physics already provided as **kwargs)".to_string())),
    );
    // Materials configure the geometry, not the physics.
    let k = keys(&["physics", "materials"]);
    assert!(fluxmeter_arguments(0, &k).is_ok());
}
