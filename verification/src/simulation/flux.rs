use crate::utils::error::{ErrorKind, is_refusal, refusal, refuse};
use vstd::prelude::*;
use vstd::string::*;

verus! {

// ===============================================================================================
//
// Layout of the results of a fluxmeter.
//
// A fluxmeter computes, for an array of states, flux estimates, grammages
// along lines of sight, or transported states. Monte Carlo estimates of a
// flux draw a number of events per state, and then give a mean and its
// error; transported states are drawn a number of times per state.
//
// ===============================================================================================

/// How muons are transported.
#[derive(Clone, Copy, Debug, PartialEq, Eq, Structural)]
pub enum TransportMode {
    /// Continuous energy loss: deterministic.
    Continuous,
    /// Mixed continuous and discrete energy losses.
    Mixed,
    /// Detailed, discrete, energy losses.
    Discrete,
}

/// The number of events drawn per state for a flux estimate: none in
/// continuous mode (which is deterministic), nor when at most one is asked.
pub open spec fn sampled_events_spec(mode: TransportMode, events: Option<usize>) -> Option<usize> {
    match events {
        Some(n) => if mode != TransportMode::Continuous && n > 1 {
            Some(n)
        } else {
            None
        },
        None => None,
    }
}

/// The number of events drawn per state for a flux estimate (see
/// `sampled_events_spec`).
pub fn sampled_events(mode: TransportMode, events: Option<usize>) -> (res: Option<usize>)
    ensures
        res == sampled_events_spec(mode, events),
        mode == TransportMode::Continuous ==> res is None,
        res matches Some(n) ==> events == Some(n) && n > 1,
        mode != TransportMode::Continuous && (events matches Some(n) && n > 1) ==> res == events,
{
    match events {
        Some(n) => match mode {
            TransportMode::Continuous => None,
            _ => if n > 1 {
                Some(n)
            } else {
                None
            },
        },
        None => None,
    }
}

/// The shape of flux estimates for states of shape `shape`: one value per
/// state, or, when events are drawn, a mean and its error.
pub fn flux_shape(shape: Vec<usize>, events: Option<usize>) -> (res: Vec<usize>)
    ensures
        events is Some ==> res@ == shape@.push(2),
        events is None ==> res@ == shape@,
{
    let mut res = shape;
    if events.is_some() {
        res.push(2);
    }
    res
}

/// The shape of grammages for states of shape `shape`, through `n_media`
/// media and the atmosphere: their sum per state, or one per medium.
pub fn grammage_shape(shape: Vec<usize>, n_media: usize, sum: bool) -> (res: Vec<usize>)
    requires
        n_media < usize::MAX,
    ensures
        sum ==> res@ == shape@,
        !sum ==> res@ == shape@.push((n_media + 1) as usize),
{
    let mut res = shape;
    if !sum {
        res.push(n_media + 1);
    }
    res
}

/// The layout of transported states, for states of shape `shape`: the shape
/// of the result and the number of draws per state.
pub struct TransportLayout {
    pub shape: Vec<usize>,
    pub draws: usize,
}

/// Plans the transport of states of shape `shape`, drawn `events` times
/// each (once by default). In a magnetised geometry the states must carry
/// their particle identifier, since the magnetic field bends opposite
/// charges apart.
pub fn transport_layout(shape: Vec<usize>, events: Option<usize>, magnetised: bool, flavoured: bool) -> (res:
    Result<TransportLayout, (ErrorKind, String)>)
    ensures
        magnetised && !flavoured ==> is_refusal(
            res,
            refusal(ErrorKind::TypeError, "states"@, "a pid is required for a magnetized geometry"@),
        ),
        !(magnetised && !flavoured) ==> (res matches Ok(layout) && match events {
            Some(n) => layout.shape@ == shape@.push(n) && layout.draws == n,
            None => layout.shape@ == shape@ && layout.draws == 1,
        }),
{
    if magnetised && !flavoured {
        return Err(refuse(ErrorKind::TypeError, "states", "a pid is required for a magnetized geometry"));
    }
    let mut shape = shape;
    let draws = match events {
        Some(n) => {
            shape.push(n);
            n
        },
        None => 1,
    };
    Ok(TransportLayout { shape, draws })
}

} // verus!
