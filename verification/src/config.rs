//! Device capability matching.
//!
//! Given the sample rate the caller produces at and the list of output
//! configurations the device declares, pick the configuration the stream will
//! be built with. The first pass looks for an exact match (dual channel,
//! matching representation, requested rate in range); if none exists, a
//! scoring pass keeps the highest-scoring dual-channel configuration, ties
//! resolved in favour of the first one seen.

use vstd::prelude::*;

use crate::error::AudioPlayerError;

verus! {

/// The sample representations an output device may declare.
#[derive(Debug, Clone, Copy, PartialEq, Eq, Structural)]
pub enum SampleFormat {
    I8,
    I16,
    I32,
    I64,
    U8,
    U16,
    U32,
    U64,
    F32,
    F64,
}

/// One output configuration as the audio backend declares it: a channel
/// count, a supported sample-rate range and a sample representation.
#[derive(Debug, Clone, Copy, PartialEq, Eq, Structural)]
pub struct DeviceConfig {
    pub channels: u16,
    pub min_rate: u32,
    pub max_rate: u32,
    pub format: SampleFormat,
}

/// The configuration chosen for stream construction: the rate the device
/// will actually play at and the representation it expects.
#[derive(Debug, Clone, Copy, PartialEq, Eq, Structural)]
pub struct SelectedConfig {
    pub rate: u32,
    pub format: SampleFormat,
}

/// The requested rate lies inside the configuration's supported range.
pub open spec fn rate_in_range(c: DeviceConfig, rate: u32) -> bool {
    c.min_rate <= rate && rate <= c.max_rate
}

/// The configuration serves the request as it stands: dual channel, the
/// requested representation, and the requested rate inside its range.
pub open spec fn exact_match(c: DeviceConfig, rate: u32, format: SampleFormat) -> bool {
    &&& c.channels == 2
    &&& c.format == format
    &&& rate_in_range(c, rate)
}

/// Score of a configuration in the best-effort pass. Only dual-channel
/// configurations score at all; a matching representation weighs more than a
/// rate in range. The exact weights are a heuristic; the contracts below
/// depend only on the ordering they induce.
pub open spec fn config_score(c: DeviceConfig, rate: u32, format: SampleFormat) -> int {
    if c.channels == 2 {
        1 + (if c.format == format {
            3int
        } else {
            0int
        }) + (if rate_in_range(c, rate) {
            2int
        } else {
            0int
        })
    } else {
        0
    }
}

/// Some configuration in the list is an exact match.
pub open spec fn has_exact_match(cs: Seq<DeviceConfig>, rate: u32, format: SampleFormat) -> bool {
    exists|i: int| 0 <= i < cs.len() && exact_match(cs[i], rate, format)
}

/// Some configuration in the list scores at all (that is, is dual channel).
pub open spec fn has_candidate(cs: Seq<DeviceConfig>, rate: u32, format: SampleFormat) -> bool {
    exists|i: int| 0 <= i < cs.len() && config_score(cs[i], rate, format) > 0
}

/// Position `i` holds the winner of the best-effort pass: it scores, no
/// position scores higher, and no earlier position scores as high.
pub open spec fn is_best_scored(
    cs: Seq<DeviceConfig>,
    rate: u32,
    format: SampleFormat,
    i: int,
) -> bool {
    &&& 0 <= i < cs.len()
    &&& config_score(cs[i], rate, format) > 0
    &&& forall|j: int|
        0 <= j < cs.len() ==> config_score(cs[j], rate, format) <= config_score(
            cs[i],
            rate,
            format,
        )
    &&& forall|j: int|
        0 <= j < i ==> config_score(cs[j], rate, format) < config_score(cs[i], rate, format)
}

/// What is selected once a winning configuration is fixed: the requested rate
/// if the winner supports it, otherwise the winner's maximum rate, pinned to
/// the winner's representation.
pub open spec fn selected_from(c: DeviceConfig, requested_rate: u32) -> SelectedConfig {
    SelectedConfig {
        rate: if rate_in_range(c, requested_rate) {
            requested_rate
        } else {
            c.max_rate
        },
        format: c.format,
    }
}

/// At most one position can win the best-effort pass.
pub proof fn lemma_best_scored_unique(
    cs: Seq<DeviceConfig>,
    rate: u32,
    format: SampleFormat,
    i: int,
    j: int,
)
    requires
        is_best_scored(cs, rate, format, i),
        is_best_scored(cs, rate, format, j),
    ensures
        i == j,
{
    if i < j {
        assert(config_score(cs[i], rate, format) < config_score(cs[j], rate, format));
    }
    if j < i {
        assert(config_score(cs[j], rate, format) < config_score(cs[i], rate, format));
    }
}

/// The best-effort pass never hands out a configuration that is not dual
/// channel: a winner scores, and only dual-channel configurations score.
pub proof fn lemma_best_scored_is_dual_channel(
    cs: Seq<DeviceConfig>,
    rate: u32,
    format: SampleFormat,
    i: int,
)
    requires
        is_best_scored(cs, rate, format, i),
    ensures
        cs[i].channels == 2,
{
}

/// An exact match wins over the best-effort pass, and is selected at the
/// requested rate with the requested representation, so no rate conversion
/// is needed for it.
pub fn select_output_config(
    configs: &Vec<DeviceConfig>,
    requested_rate: u32,
    requested_format: SampleFormat,
) -> (r: Option<SelectedConfig>)
    ensures
        has_exact_match(configs@, requested_rate, requested_format) ==> r == Some(
            SelectedConfig { rate: requested_rate, format: requested_format },
        ),
        !has_exact_match(configs@, requested_rate, requested_format) && has_candidate(
            configs@,
            requested_rate,
            requested_format,
        ) ==> exists|i: int|
            is_best_scored(configs@, requested_rate, requested_format, i) && r == Some(
                selected_from(configs@[i], requested_rate),
            ),
        !has_exact_match(configs@, requested_rate, requested_format) && !has_candidate(
            configs@,
            requested_rate,
            requested_format,
        ) ==> r is None,
{
    let n = configs.len();

    let mut k: usize = 0;
    while k < n
        invariant
            n == configs@.len(),
            k <= n,
            forall|j: int| 0 <= j < k ==> !exact_match(configs@[j], requested_rate, requested_format),
        decreases n - k,
    {
        let c = configs[k];
        if c.channels == 2 && c.format == requested_format && c.min_rate <= requested_rate
            && requested_rate <= c.max_rate {
            return Some(SelectedConfig { rate: requested_rate, format: requested_format });
        }
        k = k + 1;
    }

    let mut best: Option<usize> = None;
    let mut best_score: u32 = 0;
    let mut k: usize = 0;
    while k < n
        invariant
            n == configs@.len(),
            k <= n,
            best is None ==> best_score == 0,
            best is None ==> forall|j: int|
                0 <= j < k ==> config_score(configs@[j], requested_rate, requested_format) <= 0,
            best matches Some(b) ==> {
                &&& b < k
                &&& best_score == config_score(configs@[b as int], requested_rate, requested_format)
                &&& best_score > 0
                &&& forall|j: int|
                    0 <= j < k ==> config_score(configs@[j], requested_rate, requested_format)
                        <= best_score
                &&& forall|j: int|
                    0 <= j < b ==> config_score(configs@[j], requested_rate, requested_format)
                        < best_score
            },
        decreases n - k,
    {
        let c = configs[k];
        let mut score: u32 = 0;
        if c.channels == 2 {
            score = 1;
            if c.format == requested_format {
                score = score + 3;
            }
            if c.min_rate <= requested_rate && requested_rate <= c.max_rate {
                score = score + 2;
            }
        }
        assert(score == config_score(configs@[k as int], requested_rate, requested_format));
        if score > best_score {
            best_score = score;
            best = Some(k);
        }
        k = k + 1;
    }

    match best {
        Some(b) => {
            let c = configs[b];
            proof {
                assert(is_best_scored(configs@, requested_rate, requested_format, b as int));
            }
            if c.min_rate <= requested_rate && requested_rate <= c.max_rate {
                Some(SelectedConfig { rate: requested_rate, format: c.format })
            } else {
                Some(SelectedConfig { rate: c.max_rate, format: c.format })
            }
        },
        None => None,
    }
}

/// Fallback when the scoring pass found no candidate at all: the backend's
/// reported default output configuration is taken, but only if it is dual
/// channel; everything else is the one functional matching error.
pub fn select_default_config(channels: u16, rate: u32, format: SampleFormat) -> (r: Result<
    SelectedConfig,
    AudioPlayerError,
>)
    ensures
        channels == 2 ==> r == Ok::<SelectedConfig, AudioPlayerError>(
            SelectedConfig { rate, format },
        ),
        channels != 2 ==> r == Err::<SelectedConfig, AudioPlayerError>(
            AudioPlayerError::DualChannelNotSupported,
        ),
{
    if channels == 2 {
        Ok(SelectedConfig { rate, format })
    } else {
        Err(AudioPlayerError::DualChannelNotSupported)
    }
}

} // verus!
