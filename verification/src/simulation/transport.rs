use crate::simulation::flux::TransportMode;
use vstd::prelude::*;

verus! {

// ===============================================================================================
//
// Decisions of the backward transport of a muon.
//
// A muon is transported backward, from the observation point, by Pumas, in
// steps: each step ends on an event, which decides the next step. In
// discrete mode, low energy muons are first transported with detailed
// energy losses and scattering up to 10 GeV, then with mixed losses and
// scattering up to 100 GeV, then with mixed losses alone up to the top of
// the reference energy range. Energies and altitudes are compared with their
// thresholds by the caller, which hands over the outcome as a band.
//
// ===============================================================================================

/// How energy losses are simulated.
#[derive(Clone, Copy, Debug, PartialEq, Eq, Structural)]
pub enum EnergyLoss {
    /// Continuous slowing down approximation.
    Csda,
    /// Continuous losses, with discrete hard collisions.
    Mixed,
    /// Continuous losses with straggling, and discrete hard collisions.
    Straggled,
}

/// How multiple scattering is simulated.
#[derive(Clone, Copy, Debug, PartialEq, Eq, Structural)]
pub enum Scattering {
    Disabled,
    Mixed,
}

/// The energy at which a transport step stops.
#[derive(Clone, Copy, Debug, PartialEq, Eq, Structural)]
pub enum EnergyLimit {
    /// 10 GeV.
    Low,
    /// 100 GeV.
    High,
    /// The top of the energy range of the reference flux.
    Reference,
}

/// The settings of a transport step.
#[derive(Clone, Copy, Debug, PartialEq, Eq, Structural)]
pub struct StepSettings {
    pub energy_loss: EnergyLoss,
    pub scattering: Scattering,
    pub limit: EnergyLimit,
}

/// Where the energy of a muon lies, at the start of its transport, with
/// respect to 10 GeV and 100 GeV (each less a tolerance).
#[derive(Clone, Copy, Debug, PartialEq, Eq, Structural)]
pub enum EnergyBand {
    /// At most 10 GeV.
    Low,
    /// Above 10 GeV, and at most 100 GeV.
    Intermediate,
    /// Above 100 GeV.
    High,
}

/// The settings of the first transport step of a muon.
pub open spec fn first_step(mode: TransportMode, band: EnergyBand) -> StepSettings {
    match mode {
        TransportMode::Continuous => StepSettings {
            energy_loss: EnergyLoss::Csda,
            scattering: Scattering::Disabled,
            limit: EnergyLimit::Reference,
        },
        TransportMode::Mixed => StepSettings {
            energy_loss: EnergyLoss::Mixed,
            scattering: Scattering::Disabled,
            limit: EnergyLimit::Reference,
        },
        TransportMode::Discrete => match band {
            EnergyBand::Low => StepSettings {
                energy_loss: EnergyLoss::Straggled,
                scattering: Scattering::Mixed,
                limit: EnergyLimit::Low,
            },
            EnergyBand::Intermediate => StepSettings {
                energy_loss: EnergyLoss::Mixed,
                scattering: Scattering::Mixed,
                limit: EnergyLimit::High,
            },
            EnergyBand::High => StepSettings {
                energy_loss: EnergyLoss::Mixed,
                scattering: Scattering::Disabled,
                limit: EnergyLimit::Reference,
            },
        },
    }
}

/// The settings of the first transport step of a muon of the given energy
/// band (see `first_step`).
pub fn first_step_settings(mode: TransportMode, band: EnergyBand) -> (res: StepSettings)
    ensures
        res == first_step(mode, band),
        res.energy_loss == EnergyLoss::Straggled <==> mode == TransportMode::Discrete && band
            == EnergyBand::Low,
        res.energy_loss == EnergyLoss::Csda <==> mode == TransportMode::Continuous,
        res.scattering == Scattering::Mixed <==> mode == TransportMode::Discrete && band
            != EnergyBand::High,
        res.limit == EnergyLimit::Low <==> mode == TransportMode::Discrete && band == EnergyBand::Low,
        res.limit == EnergyLimit::High <==> mode == TransportMode::Discrete && band
            == EnergyBand::Intermediate,
{
    match mode {
        TransportMode::Continuous => StepSettings {
            energy_loss: EnergyLoss::Csda,
            scattering: Scattering::Disabled,
            limit: EnergyLimit::Reference,
        },
        TransportMode::Mixed => StepSettings {
            energy_loss: EnergyLoss::Mixed,
            scattering: Scattering::Disabled,
            limit: EnergyLimit::Reference,
        },
        TransportMode::Discrete => match band {
            EnergyBand::Low => StepSettings {
                energy_loss: EnergyLoss::Straggled,
                scattering: Scattering::Mixed,
                limit: EnergyLimit::Low,
            },
            EnergyBand::Intermediate => StepSettings {
                energy_loss: EnergyLoss::Mixed,
                scattering: Scattering::Mixed,
                limit: EnergyLimit::High,
            },
            EnergyBand::High => StepSettings {
                energy_loss: EnergyLoss::Mixed,
                scattering: Scattering::Disabled,
                limit: EnergyLimit::Reference,
            },
        },
    }
}

/// The event that ended a transport step.
#[derive(Clone, Copy, Debug, PartialEq, Eq, Structural)]
pub enum StepEvent {
    /// The energy limit of the step was reached.
    LimitEnergy,
    /// The muon left the geometry.
    Medium,
    /// Anything else (a decay, a distance limit, ...).
    Other,
}

/// Where the energy of a muon lies, at the end of a step on its energy
/// limit, with respect to the top of the reference range and to 100 GeV
/// (each less a tolerance).
#[derive(Clone, Copy, Debug, PartialEq, Eq, Structural)]
pub enum LimitBand {
    /// At the top of the reference range, or above.
    Reference,
    /// At 100 GeV or above, below the top of the reference range.
    High,
    /// Below 100 GeV.
    Low,
}

/// What follows a transport step.
#[derive(Clone, Copy, Debug, PartialEq, Eq, Structural)]
pub enum NextStep {
    /// The muon does not contribute: its weight is set to zero.
    Drop,
    /// Another step, with the given settings.
    Continue(StepSettings),
    /// The muon left the geometry: the transport is done.
    Exit,
}

/// What follows a transport step that ended on `event`, the energy lying
/// in `band`.
pub open spec fn next_step(mode: TransportMode, event: StepEvent, band: LimitBand) -> NextStep {
    if mode == TransportMode::Discrete && event == StepEvent::LimitEnergy {
        match band {
            LimitBand::Reference => NextStep::Drop,
            LimitBand::High => NextStep::Continue(
                StepSettings {
                    energy_loss: EnergyLoss::Mixed,
                    scattering: Scattering::Disabled,
                    limit: EnergyLimit::Reference,
                },
            ),
            LimitBand::Low => NextStep::Continue(
                StepSettings {
                    energy_loss: EnergyLoss::Mixed,
                    scattering: Scattering::Mixed,
                    limit: EnergyLimit::High,
                },
            ),
        }
    } else if event != StepEvent::Medium {
        NextStep::Drop
    } else {
        NextStep::Exit
    }
}

/// What follows a transport step (see `next_step`).
pub fn next_step_after(mode: TransportMode, event: StepEvent, band: LimitBand) -> (res: NextStep)
    ensures
        res == next_step(mode, event, band),
        res == NextStep::Exit <==> event == StepEvent::Medium,
        res matches NextStep::Continue(_) ==> mode == TransportMode::Discrete && event
            == StepEvent::LimitEnergy && band != LimitBand::Reference,
        mode == TransportMode::Discrete && event == StepEvent::LimitEnergy && band
            != LimitBand::Reference ==> (res matches NextStep::Continue(s) && s.energy_loss
            == EnergyLoss::Mixed),
{
    let discrete = match mode {
        TransportMode::Discrete => true,
        _ => false,
    };
    match event {
        StepEvent::LimitEnergy => if discrete {
            match band {
                LimitBand::Reference => NextStep::Drop,
                LimitBand::High => NextStep::Continue(
                    StepSettings {
                        energy_loss: EnergyLoss::Mixed,
                        scattering: Scattering::Disabled,
                        limit: EnergyLimit::Reference,
                    },
                ),
                LimitBand::Low => NextStep::Continue(
                    StepSettings {
                        energy_loss: EnergyLoss::Mixed,
                        scattering: Scattering::Mixed,
                        limit: EnergyLimit::High,
                    },
                ),
            }
        } else {
            NextStep::Drop
        },
        StepEvent::Medium => NextStep::Exit,
        StepEvent::Other => NextStep::Drop,
    }
}

/// The band of the energy of a muon that stopped on the energy limit
/// `limit`: 10 GeV lies below 100 GeV, which lies below the top of the
/// reference range.
pub open spec fn band_at(limit: EnergyLimit) -> LimitBand {
    match limit {
        EnergyLimit::Low => LimitBand::Low,
        EnergyLimit::High => LimitBand::High,
        EnergyLimit::Reference => LimitBand::Reference,
    }
}

/// The rank of an energy limit, from the lowest.
pub open spec fn limit_rank(limit: EnergyLimit) -> nat {
    match limit {
        EnergyLimit::Low => 0,
        EnergyLimit::High => 1,
        EnergyLimit::Reference => 2,
    }
}

/// The backward transport of a muon ends: each step that stops on its
/// energy limit is followed by one with a higher limit, or the muon is
/// dropped once it reaches the top of the reference range.
pub proof fn law_limits_increase(mode: TransportMode, settings: StepSettings)
    ensures
        match next_step(mode, StepEvent::LimitEnergy, band_at(settings.limit)) {
            NextStep::Continue(next) => limit_rank(next.limit) > limit_rank(settings.limit),
            _ => true,
        },
        settings.limit == EnergyLimit::Reference ==> next_step(
            mode,
            StepEvent::LimitEnergy,
            band_at(settings.limit),
        ) == NextStep::Drop,
{
}

/// Where a muon stands, once out of the geometry, with respect to the
/// altitude range of the reference flux (each bound with a tolerance).
#[derive(Clone, Copy, Debug, PartialEq, Eq, Structural)]
pub enum AltitudeBand {
    /// Below the range.
    Below,
    /// Above the range.
    Above,
    /// At the bottom of the range, within the tolerance.
    AtBottom,
    /// At the top of the range, within the tolerance.
    AtTop,
    /// Inside the range.
    Inside,
}

/// Which end of the reference altitude range.
#[derive(Clone, Copy, Debug, PartialEq, Eq, Structural)]
pub enum RangeEnd {
    Bottom,
    Top,
}

/// How a muon out of the geometry reaches the reference flux.
#[derive(Clone, Copy, Debug, PartialEq, Eq, Structural)]
pub enum ReferenceStep {
    /// It cannot: its weight is set to zero.
    Drop,
    /// It is transported through the open sky to the given end of the
    /// range; from above, its weight then takes the ratio of the stopping
    /// powers at both ends.
    OpenSky(RangeEnd),
    /// Its altitude is set to the given end of the range.
    Snap(RangeEnd),
    /// It is already inside the range.
    Keep,
}

/// How a muon in altitude band `band`, coming from above the horizon
/// (`upward`) or not, reaches the reference flux: from below the range it
/// must come from above the horizon.
pub open spec fn reference_step_spec(band: AltitudeBand, upward: bool) -> ReferenceStep {
    match band {
        AltitudeBand::Below => if upward {
            ReferenceStep::OpenSky(RangeEnd::Bottom)
        } else {
            ReferenceStep::Drop
        },
        AltitudeBand::Above => ReferenceStep::OpenSky(RangeEnd::Top),
        AltitudeBand::AtBottom => ReferenceStep::Snap(RangeEnd::Bottom),
        AltitudeBand::AtTop => ReferenceStep::Snap(RangeEnd::Top),
        AltitudeBand::Inside => ReferenceStep::Keep,
    }
}

/// How a muon out of the geometry reaches the reference flux (see
/// `reference_step_spec`).
pub fn reference_step(band: AltitudeBand, upward: bool) -> (res: ReferenceStep)
    ensures
        res == reference_step_spec(band, upward),
        res == ReferenceStep::Drop <==> band == AltitudeBand::Below && !upward,
        res == ReferenceStep::Keep <==> band == AltitudeBand::Inside,
        band == AltitudeBand::Above ==> res == ReferenceStep::OpenSky(RangeEnd::Top),
{
    match band {
        AltitudeBand::Below => if upward {
            ReferenceStep::OpenSky(RangeEnd::Bottom)
        } else {
            ReferenceStep::Drop
        },
        AltitudeBand::Above => ReferenceStep::OpenSky(RangeEnd::Top),
        AltitudeBand::AtBottom => ReferenceStep::Snap(RangeEnd::Bottom),
        AltitudeBand::AtTop => ReferenceStep::Snap(RangeEnd::Top),
        AltitudeBand::Inside => ReferenceStep::Keep,
    }
}

/// The direction of a transport step through the open sky.
#[derive(Clone, Copy, Debug, PartialEq, Eq, Structural)]
pub enum SkyDirection {
    /// Backward, up to the reference altitude, until the top of the
    /// reference energy range.
    Backward,
    /// Forward, down to the reference altitude, until the bottom of the
    /// reference energy range.
    Forward,
}

/// The direction of the transport through the open sky of a muon below
/// (`below`) or above its target altitude.
pub fn sky_direction(below: bool) -> (res: SkyDirection)
    ensures
        below ==> res == SkyDirection::Backward,
        !below ==> res == SkyDirection::Forward,
{
    if below {
        SkyDirection::Backward
    } else {
        SkyDirection::Forward
    }
}

/// The particles whose fluxes add up to the continuous flux estimate of a
/// state.
#[derive(Clone, Copy, Debug, PartialEq, Eq, Structural)]
pub enum FluxParticles {
    /// The particle of the state (or any, for a state without one).
    Own,
    /// A muon and an anti-muon, transported in turn: in a magnetic field,
    /// below 100 GeV, opposite charges take different paths.
    BothCharges,
}

/// The particles of a continuous flux estimate, in a geometry with a magnet
/// (`magnetised`) or not, for a state of energy above 100 GeV (`high`) or
/// not.
pub fn flux_particles(magnetised: bool, high: bool) -> (res: FluxParticles)
    ensures
        (!magnetised || high) ==> res == FluxParticles::Own,
        (magnetised && !high) ==> res == FluxParticles::BothCharges,
{
    if !magnetised || high {
        FluxParticles::Own
    } else {
        FluxParticles::BothCharges
    }
}

} // verus!
