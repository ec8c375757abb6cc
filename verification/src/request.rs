//! Building the engine request from the decoded foreign arguments.
//!
//! One synchronous, stateless operation: validate the beatmap path, map the
//! mode code, decode the mods text, and assemble the request the host hands
//! to the external scoring engine.  Invalid input is answered with a
//! distinguished error instead of terminating the host process; the lenient
//! mods fallback is kept exactly as the boundary contract demands.

use crate::mode::{mode_of_code, mode_from_code, GameMode};
use crate::mods::{mods_of, opt_bytes_view, parse_mods, parses_as_u32};
use crate::utf8::{is_utf8, is_valid_utf8};
use vstd::prelude::*;

verus! {

/// The invalid-input conditions the adapter rejects.
#[derive(Clone, Copy, PartialEq, Eq, Structural, Debug)]
pub enum CalculateError {
    /// The beatmap path was absent or was not valid UTF-8 text.
    InvalidPath,
    /// The mode code lies outside the closed set {0, 1, 2, 3}.
    InvalidMode,
}

/// The request handed to the external scoring engine: the play statistics as
/// plain values, with the accuracy carried as the IEEE-754 bit pattern of
/// the caller's 64-bit floating value.  The beatmap itself is loaded by the
/// host from the separately validated path.
#[derive(Clone, Copy, PartialEq, Eq, Debug)]
pub struct PerformanceRequest {
    /// The game mode the calculation is constrained to.
    pub mode: GameMode,
    /// The mod bitmask decoded from the foreign mods text.
    pub mods: u32,
    /// Highest combo reached in the play.
    pub max_combo: u32,
    /// Bit pattern of the 64-bit accuracy value; not validated here.
    pub accuracy_bits: u64,
    /// Number of misses in the play.
    pub miss_count: u32,
    /// Tri-state optional: `Some(n)` constrains the calculation to the first
    /// `n` hit objects of an in-progress play, `None` means the whole map.
    /// Absent is distinct from present-with-zero.
    pub passed_objects: Option<u32>,
    /// Total legacy score metric of the play.
    pub score: u32,
}

/// The beatmap path is usable: it was supplied and decodes as UTF-8 text.
pub open spec fn path_ok(path: Option<Seq<u8>>) -> bool {
    match path {
        None => false,
        Some(p) => is_utf8(p),
    }
}

/// The request assembled for a given mode and the raw remaining arguments.
pub open spec fn request_of(
    mode: GameMode,
    mods_text: Option<Seq<u8>>,
    max_combo: u32,
    accuracy_bits: u64,
    miss_count: u32,
    passed_objects: Option<u32>,
    score: u32,
) -> PerformanceRequest {
    PerformanceRequest {
        mode,
        mods: mods_of(mods_text),
        max_combo,
        accuracy_bits,
        miss_count,
        passed_objects,
        score,
    }
}

/// The outcome of the boundary operation on given foreign arguments: the
/// path must be present and decode as UTF-8 text, the mode code must name
/// one of the four modes; then the request is built, with the mods text
/// decoded leniently.  Exactly the two error conditions are possible, and
/// the path is checked first.
pub open spec fn build_outcome(
    path: Option<Seq<u8>>,
    mode_code: u32,
    mods_text: Option<Seq<u8>>,
    max_combo: u32,
    accuracy_bits: u64,
    miss_count: u32,
    passed_objects: Option<u32>,
    score: u32,
) -> Result<PerformanceRequest, CalculateError> {
    if !path_ok(path) {
        Err(CalculateError::InvalidPath)
    } else {
        match mode_of_code(mode_code) {
            None => Err(CalculateError::InvalidMode),
            Some(mode) => Ok(
                request_of(
                    mode,
                    mods_text,
                    max_combo,
                    accuracy_bits,
                    miss_count,
                    passed_objects,
                    score,
                ),
            ),
        }
    }
}

/// Validates and decodes the foreign arguments and builds the engine
/// request, exactly as `build_outcome` describes it.  The legacy flag is
/// accepted for signature compatibility only: the outcome does not depend
/// on it.
pub fn build_request(
    path: Option<&[u8]>,
    mode_code: u32,
    mods_text: Option<&[u8]>,
    max_combo: u32,
    accuracy_bits: u64,
    miss_count: u32,
    passed_objects: Option<u32>,
    _lazer: bool,
    score: u32,
) -> (r: Result<PerformanceRequest, CalculateError>)
    ensures
        r == build_outcome(
            opt_bytes_view(path),
            mode_code,
            opt_bytes_view(mods_text),
            max_combo,
            accuracy_bits,
            miss_count,
            passed_objects,
            score,
        ),
{
    let path_usable = match path {
        None => false,
        Some(p) => is_valid_utf8(p),
    };
    if !path_usable {
        return Err(CalculateError::InvalidPath);
    }
    match mode_from_code(mode_code) {
        None => Err(CalculateError::InvalidMode),
        Some(mode) => Ok(
            PerformanceRequest {
                mode,
                mods: parse_mods(mods_text),
                max_combo,
                accuracy_bits,
                miss_count,
                passed_objects,
                score,
            },
        ),
    }
}

/// The mods text a caller writes for the neutral bitmask: the single digit
/// `0` (byte 48).
pub open spec fn zero_mods_text() -> Seq<u8> {
    seq![48u8]
}

/// Every mode code in the closed set {0, 1, 2, 3} is accepted: given a
/// usable beatmap path, the boundary operation succeeds and builds the
/// request for the mode that the code names.
pub proof fn lemma_valid_mode_accepted(
    path: Option<Seq<u8>>,
    mode_code: u32,
    mods_text: Option<Seq<u8>>,
    max_combo: u32,
    accuracy_bits: u64,
    miss_count: u32,
    passed_objects: Option<u32>,
    score: u32,
)
    requires
        path_ok(path),
        mode_code <= 3,
    ensures
        build_outcome(
            path,
            mode_code,
            mods_text,
            max_combo,
            accuracy_bits,
            miss_count,
            passed_objects,
            score,
        ) is Ok,
{
}

/// Every mode code outside {0, 1, 2, 3} is rejected: the boundary operation
/// fails, and with a usable path it reports exactly the invalid-mode error,
/// never a default-initialized result mistaken for success.
pub proof fn lemma_invalid_mode_rejected(
    path: Option<Seq<u8>>,
    mode_code: u32,
    mods_text: Option<Seq<u8>>,
    max_combo: u32,
    accuracy_bits: u64,
    miss_count: u32,
    passed_objects: Option<u32>,
    score: u32,
)
    requires
        mode_code > 3,
    ensures
        build_outcome(
            path,
            mode_code,
            mods_text,
            max_combo,
            accuracy_bits,
            miss_count,
            passed_objects,
            score,
        ) is Err,
        path_ok(path) ==> build_outcome(
            path,
            mode_code,
            mods_text,
            max_combo,
            accuracy_bits,
            miss_count,
            passed_objects,
            score,
        ) == Err::<PerformanceRequest, CalculateError>(CalculateError::InvalidMode),
{
}

/// Mods given as the text `"0"` and mods absent both denote the neutral
/// bitmask, and the boundary operation builds the very same outcome for
/// them.
pub proof fn lemma_neutral_mods_equivalent(
    path: Option<Seq<u8>>,
    mode_code: u32,
    max_combo: u32,
    accuracy_bits: u64,
    miss_count: u32,
    passed_objects: Option<u32>,
    score: u32,
)
    ensures
        mods_of(Some(zero_mods_text())) == 0,
        mods_of(None) == 0,
        build_outcome(
            path,
            mode_code,
            Some(zero_mods_text()),
            max_combo,
            accuracy_bits,
            miss_count,
            passed_objects,
            score,
        ) == build_outcome(
            path,
            mode_code,
            None,
            max_combo,
            accuracy_bits,
            miss_count,
            passed_objects,
            score,
        ),
{
    lemma_zero_text_parses();
}

/// Mods text that is not a well-formed unsigned 32-bit decimal literal is
/// not an error: the boundary operation behaves exactly as it does for the
/// text `"0"`.
pub proof fn lemma_unparsable_mods_fall_back(
    bad_mods: Seq<u8>,
    path: Option<Seq<u8>>,
    mode_code: u32,
    max_combo: u32,
    accuracy_bits: u64,
    miss_count: u32,
    passed_objects: Option<u32>,
    score: u32,
)
    requires
        !parses_as_u32(bad_mods),
    ensures
        build_outcome(
            path,
            mode_code,
            Some(bad_mods),
            max_combo,
            accuracy_bits,
            miss_count,
            passed_objects,
            score,
        ) == build_outcome(
            path,
            mode_code,
            Some(zero_mods_text()),
            max_combo,
            accuracy_bits,
            miss_count,
            passed_objects,
            score,
        ),
{
    lemma_zero_text_parses();
}

/// The boundary operation is a pure function of its inputs: two invocations
/// given identical arguments produce identical outcomes.
pub proof fn lemma_outcome_deterministic(
    r1: Result<PerformanceRequest, CalculateError>,
    r2: Result<PerformanceRequest, CalculateError>,
    path: Option<Seq<u8>>,
    mode_code: u32,
    mods_text: Option<Seq<u8>>,
    max_combo: u32,
    accuracy_bits: u64,
    miss_count: u32,
    passed_objects: Option<u32>,
    score: u32,
)
    requires
        r1 == build_outcome(
            path,
            mode_code,
            mods_text,
            max_combo,
            accuracy_bits,
            miss_count,
            passed_objects,
            score,
        ),
        r2 == build_outcome(
            path,
            mode_code,
            mods_text,
            max_combo,
            accuracy_bits,
            miss_count,
            passed_objects,
            score,
        ),
    ensures
        r1 == r2,
{
}

/// The text `"0"` is a well-formed literal that denotes the neutral bitmask.
proof fn lemma_zero_text_parses()
    ensures
        parses_as_u32(zero_mods_text()),
        mods_of(Some(zero_mods_text())) == 0,
{
    let z = zero_mods_text();
    reveal_with_fuel(crate::mods::digits_value, 2);
    assert(crate::mods::decimal_digits(z) =~= z);
    assert(z.drop_last() =~= Seq::<u8>::empty());
    assert(crate::mods::digits_value(z) == 0);
}

} // verus!
