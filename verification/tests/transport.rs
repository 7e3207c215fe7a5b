use mulder::simulation::flux::TransportMode;
use mulder::simulation::transport::{
    first_step_settings, flux_particles, next_step_after, reference_step, sky_direction,
    AltitudeBand, EnergyBand, EnergyLimit, EnergyLoss, FluxParticles, LimitBand, NextStep,
    RangeEnd, ReferenceStep, Scattering, SkyDirection, StepEvent, StepSettings,
};

fn settings(energy_loss: EnergyLoss, scattering: Scattering, limit: EnergyLimit) -> StepSettings {
    StepSettings { energy_loss, scattering, limit }
}

#[test]
fn first_steps() {
    for band in [EnergyBand::Low, EnergyBand::Intermediate, EnergyBand::High] {
        assert_eq!(
            first_step_settings(TransportMode::Continuous, band),
            settings(EnergyLoss::Csda, Scattering::Disabled, EnergyLimit::Reference),
        );
        assert_eq!(
            first_step_settings(TransportMode::Mixed, band),
            settings(EnergyLoss::Mixed, Scattering::Disabled, EnergyLimit::Reference),
        );
    }
    assert_eq!(
        first_step_settings(TransportMode::Discrete, EnergyBand::Low),
        settings(EnergyLoss::Straggled, Scattering::Mixed, EnergyLimit::Low),
    );
    assert_eq!(
        first_step_settings(TransportMode::Discrete, EnergyBand::Intermediate),
        settings(EnergyLoss::Mixed, Scattering::Mixed, EnergyLimit::High),
    );
    assert_eq!(
        first_step_settings(TransportMode::Discrete, EnergyBand::High),
        settings(EnergyLoss::Mixed, Scattering::Disabled, EnergyLimit::Reference),
    );
}

#[test]
fn discrete_transport_ends() {
    // A low energy muon climbs the energy limits, then is dropped at the top
    // of the reference range.
    let mode = TransportMode::Discrete;
    let first = first_step_settings(mode, EnergyBand::Low);
    assert_eq!(first.limit, EnergyLimit::Low);
    let second = match next_step_after(mode, StepEvent::LimitEnergy, LimitBand::Low) {
        NextStep::Continue(s) => s,
        other => panic!("{:?}", other),
    };
    assert_eq!(second, settings(EnergyLoss::Mixed, Scattering::Mixed, EnergyLimit::High));
    let third = match next_step_after(mode, StepEvent::LimitEnergy, LimitBand::High) {
        NextStep::Continue(s) => s,
        other => panic!("{:?}", other),
    };
    assert_eq!(third, settings(EnergyLoss::Mixed, Scattering::Disabled, EnergyLimit::Reference));
    assert_eq!(next_step_after(mode, StepEvent::LimitEnergy, LimitBand::Reference), NextStep::Drop);
}

#[test]
fn other_step_events() {
    for mode in [TransportMode::Continuous, TransportMode::Mixed, TransportMode::Discrete] {
        assert_eq!(next_step_after(mode, StepEvent::Medium, LimitBand::Low), NextStep::Exit);
        assert_eq!(next_step_after(mode, StepEvent::Other, LimitBand::Low), NextStep::Drop);
    }
    assert_eq!(
        next_step_after(TransportMode::Mixed, StepEvent::LimitEnergy, LimitBand::Low),
        NextStep::Drop,
    );
}

#[test]
fn reference_steps() {
    assert_eq!(reference_step(AltitudeBand::Below, true), ReferenceStep::OpenSky(RangeEnd::Bottom));
    assert_eq!(reference_step(AltitudeBand::Below, false), ReferenceStep::Drop);
    assert_eq!(reference_step(AltitudeBand::Above, false), ReferenceStep::OpenSky(RangeEnd::Top));
    assert_eq!(reference_step(AltitudeBand::AtBottom, true), ReferenceStep::Snap(RangeEnd::Bottom));
    assert_eq!(reference_step(AltitudeBand::AtTop, true), ReferenceStep::Snap(RangeEnd::Top));
    assert_eq!(reference_step(AltitudeBand::Inside, false), ReferenceStep::Keep);
    assert_eq!(sky_direction(true), SkyDirection::Backward);
    assert_eq!(sky_direction(false), SkyDirection::Forward);
}

#[test]
fn continuous_flux_particles() {
    assert_eq!(flux_particles(false, false), FluxParticles::Own);
    assert_eq!(flux_particles(false, true), FluxParticles::Own);
    assert_eq!(flux_particles(true, true), FluxParticles::Own);
    assert_eq!(flux_particles(true, false), FluxParticles::BothCharges);
}
