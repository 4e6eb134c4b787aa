//! Audio-side bookkeeping that needs no samples: the ffmpeg normalisation
//! command, the shape of the preprocessed buffer, and the choice of input
//! device. The sample arithmetic itself is floating-point work and stays
//! with the capture layer.

use vstd::prelude::*;

use crate::text::{
    contains_seq, lower_chars, spec_contains_seq, spec_trim, str_to_chars, trim_chars,
};

verus! {

/// An input device as listed to the UI.
#[derive(Debug, Clone)]
pub struct AudioDevice {
    pub id: String,
    pub name: String,
}

/// Devices listed from their names: each device's id is its name.
pub fn audio_devices_from_names(names: &Vec<String>) -> (r: Vec<AudioDevice>)
    ensures
        r@.len() == names@.len(),
        forall|i: int|
            0 <= i < r@.len() ==> (#[trigger] r@[i]).id@ == names@[i]@ && r@[i].name@
                == names@[i]@,
{
    let mut r: Vec<AudioDevice> = Vec::new();
    let mut i: usize = 0;
    while i < names.len()
        invariant
            i <= names@.len(),
            r@.len() == i,
            forall|j: int|
                0 <= j < i ==> (#[trigger] r@[j]).id@ == names@[j]@ && r@[j].name@ == names@[j]@,
        decreases names@.len() - i,
    {
        let n = crate::store::clone_string(&names[i]);
        let id = crate::store::clone_string(&names[i]);
        r.push(AudioDevice { id, name: n });
        i = i + 1;
    }
    r
}

/// The ffmpeg binaries probed for, in order, per platform family.
pub fn ffmpeg_binary_candidates(windows: bool) -> (r: Vec<String>)
    ensures
        windows ==> r@.len() == 3 && r@[0]@ == "ffmpeg.exe"@ && r@[1]@
            == "ffmpeg-x86_64-pc-windows-msvc.exe"@ && r@[2]@ == "ffmpeg"@,
        !windows ==> r@.len() == 2 && r@[0]@ == "ffmpeg"@ && r@[1]@
            == "ffmpeg-aarch64-apple-darwin"@,
{
    let mut r: Vec<String> = Vec::new();
    if windows {
        r.push("ffmpeg.exe".to_owned());
        r.push("ffmpeg-x86_64-pc-windows-msvc.exe".to_owned());
        r.push("ffmpeg".to_owned());
    } else {
        r.push("ffmpeg".to_owned());
        r.push("ffmpeg-aarch64-apple-darwin".to_owned());
    }
    r
}

/// The ffmpeg arguments that normalise a capture to what the decoders
/// expect: overwrite quietly, one channel, 16 kHz, signed 16-bit samples.
pub fn ffmpeg_normalize_args(input: &str, output: &str) -> (r: Vec<String>)
    ensures
        r@.len() == 13,
        r@[0]@ == "-y"@,
        r@[1]@ == "-loglevel"@,
        r@[2]@ == "error"@,
        r@[3]@ == "-hide_banner"@,
        r@[4]@ == "-i"@,
        r@[5]@ == input@,
        r@[6]@ == "-ac"@,
        r@[7]@ == "1"@,
        r@[8]@ == "-ar"@,
        r@[9]@ == "16000"@,
        r@[10]@ == "-sample_fmt"@,
        r@[11]@ == "s16"@,
        r@[12]@ == output@,
{
    let mut r: Vec<String> = Vec::new();
    r.push("-y".to_owned());
    r.push("-loglevel".to_owned());
    r.push("error".to_owned());
    r.push("-hide_banner".to_owned());
    r.push("-i".to_owned());
    r.push(input.to_owned());
    r.push("-ac".to_owned());
    r.push("1".to_owned());
    r.push("-ar".to_owned());
    r.push("16000".to_owned());
    r.push("-sample_fmt".to_owned());
    r.push("s16".to_owned());
    r.push(output.to_owned());
    r
}

/// The number of frames a multi-channel buffer downmixes to: one sample
/// per whole or partial frame.
pub open spec fn spec_downmix_len(len: nat, channels: nat) -> nat
    recommends
        channels > 0,
{
    if len == 0 {
        0
    } else {
        (((len - 1) as int / channels as int) + 1) as nat
    }
}

/// The number of frames a multi-channel buffer downmixes to.
pub fn downmix_len(len: usize, channels: usize) -> (r: usize)
    requires
        channels > 0,
    ensures
        r == spec_downmix_len(len as nat, channels as nat),
{
    if len == 0 {
        return 0;
    }
    ((len - 1) / channels) + 1
}

/// The number of samples linear resampling produces: the input length
/// scaled by the rate ratio, rounded half up, and at least one.
pub open spec fn spec_resampled_len(len: nat, from_rate: nat, to_rate: nat) -> nat
    recommends
        from_rate > 0,
        to_rate > 0,
{
    if len == 0 {
        0
    } else if from_rate == to_rate {
        len
    } else {
        let exact_twice: int = 2 * (len as int) * (to_rate as int) + (from_rate as int);
        let rounded: int = exact_twice / (2 * (from_rate as int));
        if rounded < 1 {
            1nat
        } else {
            rounded as nat
        }
    }
}

/// The number of samples linear resampling produces.
pub fn resampled_len(len: usize, from_rate: u32, to_rate: u32) -> (r: usize)
    requires
        from_rate > 0,
        to_rate > 0,
        len * to_rate + from_rate < usize::MAX,
    ensures
        r == spec_resampled_len(len as nat, from_rate as nat, to_rate as nat),
{
    if len == 0 {
        return 0;
    }
    if from_rate == to_rate {
        return len;
    }
    proof {
        assert((2 * (len as int) * (to_rate as int) + from_rate as int) < 2 * usize::MAX) by (nonlinear_arith)
            requires
                len * to_rate + from_rate < usize::MAX,
                len >= 0,
                to_rate > 0,
                from_rate > 0,
        ;
    }
    let twice: u128 = 2u128 * (len as u128) * (to_rate as u128) + (from_rate as u128);
    let rounded: u128 = twice / (2u128 * (from_rate as u128));
    proof {
        vstd::arithmetic::div_mod::lemma_div_is_ordered_by_denominator(
            twice as int,
            2,
            2 * (from_rate as int),
        );
        assert(twice as int / 2 < usize::MAX);
    }
    let r: usize = if rounded < 1 {
        1
    } else {
        rounded as usize
    };
    r
}

/// How the input device was chosen.
#[derive(Debug)]
pub enum DeviceChoice {
    /// The stored preference matched a present device, by index.
    Preferred(usize),
    /// The environment override matched a present device, by index.
    EnvMatch(usize),
    /// The environment override matched nothing: fail with its text.
    EnvNoMatch(String),
    /// Fall back to the system default; save it when no preference was
    /// stored.
    SystemDefault { save_as_preference: bool },
    /// No device is available at all.
    NoDevice,
}

/// Whether some listed device carries exactly the preferred name.
pub open spec fn spec_pref_match(names: Seq<Seq<char>>, p: Seq<char>) -> bool {
    exists|i: int| 0 <= i < names.len() && names[i] == p
}

/// The override's search needle: the override trimmed and lowercased.
pub open spec fn spec_env_needle(e: Seq<char>) -> Seq<char> {
    crate::text::lower(spec_trim(e))
}

/// Whether some listed device's lowercased name holds the needle.
pub open spec fn spec_env_match(names: Seq<Seq<char>>, needle: Seq<char>) -> bool {
    exists|i: int|
        0 <= i < names.len() && spec_contains_seq(crate::text::lower(#[trigger] names[i]), needle)
}

/// Choose the input device: the stored preference by exact name first,
/// then the environment override by case-insensitive substring, then the
/// system default, remembered as the preference when none was stored.
/// The choice is a total function of the inputs: each case of the result
/// comes exactly when its conditions hold, and each index is the first
/// that matches.
#[verifier::loop_isolation(false)]
pub fn choose_input_device(
    preferred: &Option<String>,
    env_override: &Option<String>,
    device_names: &Vec<String>,
    have_default: bool,
) -> (r: DeviceChoice)
    ensures
        ({
            let nv = crate::registry::views_of_strings(device_names@);
            &&& (match preferred {
                Some(ref p) if spec_pref_match(nv, p@) => r matches DeviceChoice::Preferred(i)
                    && 0 <= i < nv.len() && nv[i as int] == p@ && (forall|j: int|
                    0 <= j < i ==> nv[j] != p@),
                _ => {
                    let pref_missed = match preferred {
                        Some(ref p) => !spec_pref_match(nv, p@),
                        None => true,
                    };
                    &&& pref_missed
                    &&& (match env_override {
                        Some(ref e) if spec_env_needle(e@).len() > 0 => {
                            let needle = spec_env_needle(e@);
                            if spec_env_match(nv, needle) {
                                r matches DeviceChoice::EnvMatch(i) && 0 <= i < nv.len()
                                    && spec_contains_seq(crate::text::lower(nv[i as int]), needle)
                                    && (forall|j: int|
                                    0 <= j < i ==> !spec_contains_seq(
                                        crate::text::lower(nv[j]),
                                        needle,
                                    ))
                            } else {
                                r matches DeviceChoice::EnvNoMatch(m) && m@
                                    == "No input device matching OPENWISPR_INPUT_DEVICE='"@ + e@
                                    + "'"@
                            }
                        },
                        _ => if have_default {
                            r matches DeviceChoice::SystemDefault { save_as_preference }
                                && (save_as_preference <==> preferred is None)
                        } else {
                            r is NoDevice
                        },
                    })
                },
            })
        }),
{
    let ghost nv = crate::registry::views_of_strings(device_names@);
    proof {
        assert(nv.len() == device_names@.len());
    }
    if let Some(p) = preferred {
        let pc = str_to_chars(p.as_str());
        let mut i: usize = 0;
        while i < device_names.len()
            invariant
                i <= device_names@.len(),
                pc@ == p@,
                forall|j: int| 0 <= j < i ==> nv[j] != p@,
            decreases device_names@.len() - i,
        {
            let nc = str_to_chars(device_names[i].as_str());
            proof {
                assert(nv[i as int] == device_names@[i as int]@);
            }
            if crate::text::chars_eq(&nc, &pc) {
                return DeviceChoice::Preferred(i);
            }
            i = i + 1;
        }
        proof {
            assert(!spec_pref_match(nv, p@));
        }
    }
    if let Some(requested) = env_override {
        let needle = lower_chars(&trim_chars(&str_to_chars(requested.as_str())));
        proof {
            assert(needle@ == spec_env_needle(requested@));
        }
        if needle.len() > 0 {
            let mut i: usize = 0;
            while i < device_names.len()
                invariant
                    i <= device_names@.len(),
                    needle@ == spec_env_needle(requested@),
                    forall|j: int|
                        0 <= j < i ==> !spec_contains_seq(crate::text::lower(nv[j]), needle@),
                decreases device_names@.len() - i,
            {
                let hay = lower_chars(&str_to_chars(device_names[i].as_str()));
                proof {
                    assert(nv[i as int] == device_names@[i as int]@);
                }
                if contains_seq(&hay, &needle) {
                    return DeviceChoice::EnvMatch(i);
                }
                i = i + 1;
            }
            proof {
                assert(!spec_env_match(nv, needle@));
            }
            let mut m = "No input device matching OPENWISPR_INPUT_DEVICE='".to_owned();
            m.append(requested.as_str());
            m.append("'");
            return DeviceChoice::EnvNoMatch(m);
        }
    }
    if have_default {
        let save: bool = preferred.is_none();
        return DeviceChoice::SystemDefault { save_as_preference: save };
    }
    DeviceChoice::NoDevice
}

} // verus!
