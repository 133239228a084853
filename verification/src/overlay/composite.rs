//! The composite of a cohort: required, coherent with its own parts, and held to the constants of
//! the track.
use crate::number::{at_least, eq, equal, ge, is_positive, positive, Number};
use crate::overlay::refusals::{
    composite_absent, composite_contradicted, composite_floor_mismatch, composite_incoherent,
    composite_not_derivable, composite_part_invalid, composite_verdict_mismatch,
    exponents_absent, exponents_not_ruled, say_composite_absent, say_composite_contradicted,
    say_composite_floor_mismatch, say_composite_incoherent, say_composite_not_derivable,
    say_composite_part_invalid, say_composite_verdict_mismatch, say_exponents_absent,
    say_exponents_not_ruled,
};
use crate::overlay::view::{answers, CompositeView, PerCohortView};
use vstd::prelude::*;

verus! {

/// The exponent of the prefill gain: 0.25.
pub const PREFILL_GAIN_EXPONENT_BITS: u64 = 0x3fd0_0000_0000_0000;

/// The exponent of the decode gain: 0.75.
pub const DECODE_GAIN_EXPONENT_BITS: u64 = 0x3fe8_0000_0000_0000;

/// The floor of the published figure: 0.9.
pub const DECODE_SPEEDUP_FLOOR_BITS: u64 = 0x3fec_cccc_cccc_cccd;

/// The ceiling of the published figure: 5.
pub const DECODE_SPEEDUP_CEILING_BITS: u64 = 0x4014_0000_0000_0000;

/// The relative disagreement at which a composite is incoherent: 1e-9.
pub const COMPOSITE_COHERENCE_REL_EPS_BITS: u64 = 0x3e11_2e0b_e826_d695;

/// The disagreement at which a sealed median is rejected: 1e-7.
pub const SEALED_MEDIAN_AGREEMENT_EPS_BITS: u64 = 0x3e7a_d7f2_9abc_af48;

/// What the gains of the first cohort of a run give under the ruled exponents.
#[derive(Debug)]
pub struct CompositeFigures {
    /// `prefill_gain^0.25 * decode_gain^0.75`.
    pub recomputed: Number,
    /// `|recomputed - composite_score| / recomputed`.
    pub relative_gap: Number,
}

/// The text of an optional reason.
pub open spec fn reason_text(reason: Option<String>) -> Seq<char> {
    match reason {
        Some(t) => t@,
        None => "<none sealed>"@,
    }
}

/// What the overlay objects to in the parts of a composite.
pub open spec fn composite_part_refusal(composite: CompositeView) -> Option<Seq<char>> {
    if !positive(composite.prefill_gain.bits) {
        Some(composite_part_invalid("prefill_gain"@, composite.prefill_gain.display@))
    } else if !positive(composite.decode_gain.bits) {
        Some(composite_part_invalid("decode_gain"@, composite.decode_gain.display@))
    } else if !positive(composite.composite_score.bits) {
        Some(composite_part_invalid("composite_score"@, composite.composite_score.display@))
    } else {
        None
    }
}

/// What the overlay objects to in the numbers of a composite that carries its exponents.
pub open spec fn composite_value_refusal(
    composite: CompositeView,
    figures: &CompositeFigures,
) -> Option<Seq<char>> {
    let met = ge(composite.composite_score.bits, DECODE_SPEEDUP_FLOOR_BITS);
    if !positive(figures.recomputed.bits) {
        Some(composite_not_derivable(figures.recomputed.display@))
    } else if ge(figures.relative_gap.bits, COMPOSITE_COHERENCE_REL_EPS_BITS) {
        Some(
            composite_incoherent(
                figures.recomputed.display@,
                composite.composite_score.display@,
                figures.relative_gap.display@,
            ),
        )
    } else if !eq(composite.composite_speedup_floor.bits, DECODE_SPEEDUP_FLOOR_BITS) {
        Some(composite_floor_mismatch(composite.composite_speedup_floor.display@))
    } else if composite.composite_speedup_floor_met != met {
        Some(
            composite_verdict_mismatch(
                composite.composite_speedup_floor_met,
                met,
                composite.composite_score.display@,
            ),
        )
    } else {
        None
    }
}

/// What the overlay objects to in the composite of a cohort.
pub open spec fn composite_refusal(c: &PerCohortView, figures: &CompositeFigures) -> Option<
    Seq<char>,
> {
    if c.composite is None {
        Some(composite_absent(reason_text(c.composite_absent_reason)))
    } else if c.composite_absent_reason is Some {
        Some(composite_contradicted(c.composite_absent_reason->0@))
    } else if composite_part_refusal(c.composite->0) is Some {
        composite_part_refusal(c.composite->0)
    } else if c.composite_scored_exponents is None {
        Some(exponents_absent())
    } else if !eq(
        c.composite_scored_exponents->0.prefill_gain_exponent.bits,
        PREFILL_GAIN_EXPONENT_BITS,
    ) || !eq(
        c.composite_scored_exponents->0.decode_gain_exponent.bits,
        DECODE_GAIN_EXPONENT_BITS,
    ) {
        Some(
            exponents_not_ruled(
                c.composite_scored_exponents->0.prefill_gain_exponent.display@,
                c.composite_scored_exponents->0.decode_gain_exponent.display@,
            ),
        )
    } else {
        composite_value_refusal(c.composite->0, figures)
    }
}

fn check_composite_parts(composite: &CompositeView) -> (r: Result<(), String>)
    ensures
        answers(r, composite_part_refusal(*composite)),
{
    if !is_positive(composite.prefill_gain.bits) {
        return Err(
            say_composite_part_invalid("prefill_gain", composite.prefill_gain.display.as_str()),
        );
    }
    if !is_positive(composite.decode_gain.bits) {
        return Err(
            say_composite_part_invalid("decode_gain", composite.decode_gain.display.as_str()),
        );
    }
    if !is_positive(composite.composite_score.bits) {
        return Err(
            say_composite_part_invalid(
                "composite_score",
                composite.composite_score.display.as_str(),
            ),
        );
    }
    Ok(())
}

/// The composite of a cohort is required and must be coherent: its parts are above zero, it was
/// raised to the ruled exponents, it is what its gains give, and its floor and its verdict are
/// those of the track.
pub fn validate_cohort_composite(c: &PerCohortView, figures: &CompositeFigures) -> (r: Result<
    (),
    String,
>)
    ensures
        answers(r, composite_refusal(c, figures)),
{
    let composite = match &c.composite {
        Some(composite) => composite,
        None => {
            let reason = match &c.composite_absent_reason {
                Some(t) => t.as_str(),
                None => "<none sealed>",
            };
            return Err(say_composite_absent(reason));
        },
    };
    match &c.composite_absent_reason {
        Some(reason) => return Err(say_composite_contradicted(reason.as_str())),
        None => {},
    }
    match check_composite_parts(composite) {
        Err(e) => return Err(e),
        Ok(()) => {},
    }
    let exponents = match &c.composite_scored_exponents {
        Some(exponents) => exponents,
        None => return Err(say_exponents_absent()),
    };
    if !equal(exponents.prefill_gain_exponent.bits, PREFILL_GAIN_EXPONENT_BITS) || !equal(
        exponents.decode_gain_exponent.bits,
        DECODE_GAIN_EXPONENT_BITS,
    ) {
        return Err(
            say_exponents_not_ruled(
                exponents.prefill_gain_exponent.display.as_str(),
                exponents.decode_gain_exponent.display.as_str(),
            ),
        );
    }
    if !is_positive(figures.recomputed.bits) {
        return Err(say_composite_not_derivable(figures.recomputed.display.as_str()));
    }
    if at_least(figures.relative_gap.bits, COMPOSITE_COHERENCE_REL_EPS_BITS) {
        return Err(
            say_composite_incoherent(
                figures.recomputed.display.as_str(),
                composite.composite_score.display.as_str(),
                figures.relative_gap.display.as_str(),
            ),
        );
    }
    if !equal(composite.composite_speedup_floor.bits, DECODE_SPEEDUP_FLOOR_BITS) {
        return Err(
            say_composite_floor_mismatch(composite.composite_speedup_floor.display.as_str()),
        );
    }
    let met = at_least(composite.composite_score.bits, DECODE_SPEEDUP_FLOOR_BITS);
    if composite.composite_speedup_floor_met != met {
        return Err(
            say_composite_verdict_mismatch(
                composite.composite_speedup_floor_met,
                met,
                composite.composite_score.display.as_str(),
            ),
        );
    }
    Ok(())
}

} // verus!
