use vstd::prelude::*;

verus! {

/// The reflow profiles the controller knows, in the order of its profile table.
#[derive(Clone, Copy, PartialEq, Eq, Structural, Debug)]
pub enum ReflowProfiles {
    TS391SNL,
    GC10,
    NoProfile,
}

/// The parameters of one reflow profile (temperatures in °C, times in seconds).
#[derive(Clone, Copy, PartialEq, Debug)]
pub struct ReflowProfile {
    pub name: &'static str,
    pub max_temp: u32,
    pub total_duration: u32,
    pub melt_temp: u32,
    pub preheat_temp: u32,
    pub soak_temp: u32,
    pub reflow_temp: u32,
    pub cool_temp: u32,
    pub preheat_time: u32,
    pub soak_time: u32,
    pub reflow_time: u32,
    pub cool_time: u32,
}

/// The numeric parameters of a profile, following the solder paste's data
/// sheet curve, in the order `max_temp`,
/// `total_duration`, `melt_temp`, `preheat_temp`, `soak_temp`, `reflow_temp`,
/// `cool_temp`, `preheat_time`, `soak_time`, `reflow_time`, `cool_time`.
pub open spec fn profile_values(p: ReflowProfiles) -> Seq<u32> {
    match p {
        ReflowProfiles::TS391SNL => seq![249u32, 300, 219, 150, 175, 249, 219, 90, 90, 60, 30],
        ReflowProfiles::GC10 => seq![254u32, 355, 217, 150, 200, 254, 217, 45, 195, 105, 10],
        ReflowProfiles::NoProfile => seq![0u32, 0, 0, 0, 0, 0, 0, 0, 0, 0, 0],
    }
}

/// The displayed name of a profile.
pub open spec fn profile_name(p: ReflowProfiles) -> Seq<char> {
    match p {
        ReflowProfiles::TS391SNL => seq!['T', 'S', '3', '9', '1', 'S', 'N', 'L'],
        ReflowProfiles::GC10 => seq!['G', 'C', '1', '0'],
        ReflowProfiles::NoProfile => seq!['N', 'o', 'P', 'r', 'o', 'f', 'i', 'l', 'e'],
    }
}

impl ReflowProfile {
    /// The numeric fields of the profile, in the order of `profile_values`.
    pub open spec fn values(self) -> Seq<u32> {
        seq![
            self.max_temp,
            self.total_duration,
            self.melt_temp,
            self.preheat_temp,
            self.soak_temp,
            self.reflow_temp,
            self.cool_temp,
            self.preheat_time,
            self.soak_time,
            self.reflow_time,
            self.cool_time,
        ]
    }
}

impl ReflowProfiles {
    /// The parameters of this profile.
    pub fn profile(self) -> (p: ReflowProfile)
        ensures
            p.values() == profile_values(self),
            p.name@ == profile_name(self),
    {
        match self {
            ReflowProfiles::TS391SNL => {
                let name = "TS391SNL";
                proof {
                    reveal_strlit("TS391SNL");
                }
                ReflowProfile {
                    name,
                    max_temp: 249,
                    total_duration: 300,
                    melt_temp: 219,
                    preheat_temp: 150,
                    soak_temp: 175,
                    reflow_temp: 249,
                    cool_temp: 219,
                    preheat_time: 90,
                    soak_time: 90,
                    reflow_time: 60,
                    cool_time: 30,
                }
            },
            ReflowProfiles::GC10 => {
                let name = "GC10";
                proof {
                    reveal_strlit("GC10");
                }
                ReflowProfile {
                    name,
                    max_temp: 254,
                    total_duration: 355,
                    melt_temp: 217,
                    preheat_temp: 150,
                    soak_temp: 200,
                    reflow_temp: 254,
                    cool_temp: 217,
                    preheat_time: 45,
                    soak_time: 195,
                    reflow_time: 105,
                    cool_time: 10,
                }
            },
            ReflowProfiles::NoProfile => {
                let name = "NoProfile";
                proof {
                    reveal_strlit("NoProfile");
                }
                ReflowProfile {
                    name,
                    max_temp: 0,
                    total_duration: 0,
                    melt_temp: 0,
                    preheat_temp: 0,
                    soak_temp: 0,
                    reflow_temp: 0,
                    cool_temp: 0,
                    preheat_time: 0,
                    soak_time: 0,
                    reflow_time: 0,
                    cool_time: 0,
                }
            },
        }
    }
}

/// A temperature ramp: `rise` degrees Celsius spread over `duration`
/// seconds, that is `rise / (duration * 10)` degrees per control tick of
/// 100 ms.
#[derive(Clone, Copy, PartialEq, Eq, Structural, Debug)]
pub struct Ramp {
    pub rise: u32,
    pub duration: u32,
}

/// The ramps that a reflow run follows, one per heating or cooling phase.
#[derive(Clone, Copy, PartialEq, Eq, Structural, Debug)]
pub struct ReflowParams {
    pub preheat_ramp: Ramp,
    pub soak_ramp: Ramp,
    pub reflow_ramp: Ramp,
    pub cool_ramp: Ramp,
}

/// The ramps of a profile: each phase rises to (or falls to) the phase's
/// temperature over the phase's time.
pub open spec fn spec_params_of(p: ReflowProfiles) -> ReflowParams {
    let v = profile_values(p);
    ReflowParams {
        preheat_ramp: Ramp { rise: v[3], duration: v[7] },
        soak_ramp: Ramp { rise: v[4], duration: v[8] },
        reflow_ramp: Ramp { rise: v[5], duration: v[9] },
        cool_ramp: Ramp { rise: v[6], duration: v[10] },
    }
}

impl ReflowParams {
    /// Ramps that are all zero, as before any reflow run.
    pub fn zero() -> (r: ReflowParams)
        ensures
            r == (ReflowParams {
                preheat_ramp: Ramp { rise: 0, duration: 0 },
                soak_ramp: Ramp { rise: 0, duration: 0 },
                reflow_ramp: Ramp { rise: 0, duration: 0 },
                cool_ramp: Ramp { rise: 0, duration: 0 },
            }),
    {
        ReflowParams {
            preheat_ramp: Ramp { rise: 0, duration: 0 },
            soak_ramp: Ramp { rise: 0, duration: 0 },
            reflow_ramp: Ramp { rise: 0, duration: 0 },
            cool_ramp: Ramp { rise: 0, duration: 0 },
        }
    }

    /// The ramps of the given profile.
    pub fn from_profile(p: ReflowProfiles) -> (r: ReflowParams)
        ensures
            r == spec_params_of(p),
    {
        let prof = p.profile();
        ReflowParams {
            preheat_ramp: Ramp { rise: prof.preheat_temp, duration: prof.preheat_time },
            soak_ramp: Ramp { rise: prof.soak_temp, duration: prof.soak_time },
            reflow_ramp: Ramp { rise: prof.reflow_temp, duration: prof.reflow_time },
            cool_ramp: Ramp { rise: prof.cool_temp, duration: prof.cool_time },
        }
    }
}

} // verus!
