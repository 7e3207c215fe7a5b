use crate::utils::error::{Error, ErrorKind, error_message};
use crate::utils::strings::{push_signed_decimal, signed_decimal};
use vstd::prelude::*;
use vstd::string::*;

verus! {

/// The transported particle: a muon, an anti-muon, or either (when fluxes
/// of both are summed).
#[derive(Clone, Copy, Debug, PartialEq, Eq, Structural)]
pub enum Particle {
    Anti,
    Any,
    Muon,
}

/// The PDG identifier of a (specific) particle.
pub open spec fn pid_spec(particle: Particle) -> int {
    match particle {
        Particle::Anti => -13,
        Particle::Muon => 13,
        Particle::Any => 0,
    }
}

impl Particle {
    /// The particle of a PDG identifier: 13 for a muon, -13 for an
    /// anti-muon; any other value is refused.
    pub fn from_pid(value: i32) -> (res: Result<Self, (ErrorKind, String)>)
        ensures
            value == 13 ==> res == Ok::<Particle, (ErrorKind, String)>(Particle::Muon),
            value == -13 ==> res == Ok::<Particle, (ErrorKind, String)>(Particle::Anti),
            value != 13 && value != -13 ==> (res matches Err((kind, msg)) && kind == ErrorKind::ValueError
                && msg@ == error_message(
                    Some("pid"@),
                    Some("expected '13' or '-13', found "@ + signed_decimal(value as int)),
                )),
    {
        if value == 13 {
            Ok(Particle::Muon)
        } else if value == -13 {
            Ok(Particle::Anti)
        } else {
            proof {
                reveal_strlit("expected '13' or '-13', found ");
            }
            let mut why = String::from_str("expected '13' or '-13', found ");
            push_signed_decimal(&mut why, value as i64);
            let err = Error::new(ErrorKind::ValueError).what("pid").why(why.as_str());
            Err((ErrorKind::ValueError, err.to_string()))
        }
    }

    /// The PDG identifier of a muon or of an anti-muon.
    pub fn pid(&self) -> (res: i32)
        requires
            *self != Particle::Any,
        ensures
            res == pid_spec(*self),
    {
        match self {
            Particle::Anti => -13,
            _ => 13,
        }
    }
}

/// Reading back the identifier of a muon or of an anti-muon gives the same
/// particle, and the identifiers that are read are those of a particle.
pub proof fn law_pid_round_trip(particle: Particle, value: int)
    ensures
        particle != Particle::Any ==> (pid_spec(particle) == 13 || pid_spec(particle) == -13),
        particle != Particle::Any && value == pid_spec(particle) ==> (if value == 13 {
            Particle::Muon
        } else {
            Particle::Anti
        }) == particle,
{
}

} // verus!
