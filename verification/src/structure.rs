//! The bit-layout descriptor for generated identifiers.
//!
//! An [`IdStructure`] fixes how a 64-bit identifier is split into a masked
//! timestamp, a generator identity and a per-tick sequence counter, and
//! carries the epoch from which ticks are measured. It is built once, at
//! process start, through [`IdStructBuilder`], whose finalize step validates
//! the configuration.

use vstd::prelude::*;
use vstd::arithmetic::power2::{pow2, lemma2_to64, lemma2_to64_rest, lemma_pow2_pos};
use vstd::bits::{lemma_u64_pow2_no_overflow, lemma_u64_shl_is_mul};

use crate::clock;

verus! {

/// A configuration mistake caught when a builder is finalized. Fatal at
/// startup: no identifier is ever issued from a rejected configuration.
#[derive(Clone, Copy, Debug, PartialEq, Eq, Structural)]
pub enum ConfigurationError {
    /// The structure builder was finalized without a timestamp width.
    MissingTimestampBits,
    /// The structure builder was finalized without a generator-identity width.
    MissingGeneratorIdBits,
    /// The structure builder was finalized without a sequence width.
    MissingSequenceBits,
    /// The structure builder was finalized without an epoch.
    MissingEpoch,
    /// The three field widths do not sum to 64.
    BitsDoNotSumTo64,
    /// The epoch lies after the instant of construction.
    EpochInFuture,
    /// The generator builder was finalized without a structure.
    MissingStructure,
    /// The generator builder was finalized without a generator identity.
    MissingGeneratorId,
    /// The generator identity does not fit in the configured width.
    GeneratorIdExceedsMask,
}

/// Immutable bit-layout descriptor: field widths and the epoch.
///
/// Invariant ([`IdStructure::wf`]): the three widths sum to 64. The epoch is
/// checked, once, at construction to lie no later than "now"; thereafter the
/// clock readings derived from it carry no promise (see [`crate::clock`]).
#[derive(Clone, Copy, Debug)]
pub struct IdStructure {
    timestamp_bits: u8,
    gen_id_bits: u8,
    sequence_bits: u8,
    epoch: std::time::Instant,
}

impl IdStructure {
    pub closed spec fn spec_timestamp_bits(self) -> u8 {
        self.timestamp_bits
    }

    pub closed spec fn spec_gen_id_bits(self) -> u8 {
        self.gen_id_bits
    }

    pub closed spec fn spec_sequence_bits(self) -> u8 {
        self.sequence_bits
    }

    pub closed spec fn spec_epoch(self) -> std::time::Instant {
        self.epoch
    }

    /// The structure's invariant: the field widths fill a 64-bit word exactly.
    pub open spec fn wf(self) -> bool {
        self.spec_timestamp_bits() + self.spec_gen_id_bits() + self.spec_sequence_bits() == 64
    }

    /// Bits the timestamp field is shifted left by: the widths to its right.
    pub open spec fn spec_time_shift(self) -> nat {
        (self.spec_gen_id_bits() + self.spec_sequence_bits()) as nat
    }

    /// Bits the generator-identity field is shifted left by.
    pub open spec fn spec_gen_shift(self) -> nat {
        self.spec_sequence_bits() as nat
    }

    pub open spec fn spec_time_mask(self) -> u64 {
        (pow2(self.spec_timestamp_bits() as nat) - 1) as u64
    }

    pub open spec fn spec_gen_id_mask(self) -> u64 {
        (pow2(self.spec_gen_id_bits() as nat) - 1) as u64
    }

    pub open spec fn spec_sequence_mask(self) -> u64 {
        (pow2(self.spec_sequence_bits() as nat) - 1) as u64
    }

    pub fn builder() -> (r: IdStructBuilder)
        ensures
            r.spec_ts_bits() is None,
            r.spec_id_bits() is None,
            r.spec_seq_bits() is None,
            r.spec_builder_epoch() is None,
    {
        IdStructBuilder { ts_bits: None, id_bits: None, seq_bits: None, epoch: None }
    }

    pub fn get_time_mask(&self) -> (r: u64)
        requires
            self.wf(),
        ensures
            r == self.spec_time_mask(),
    {
        mask_for_width(self.timestamp_bits)
    }

    pub fn get_gen_id_mask(&self) -> (r: u64)
        requires
            self.wf(),
        ensures
            r == self.spec_gen_id_mask(),
    {
        mask_for_width(self.gen_id_bits)
    }

    pub fn get_sequence_mask(&self) -> (r: u64)
        requires
            self.wf(),
        ensures
            r == self.spec_sequence_mask(),
    {
        mask_for_width(self.sequence_bits)
    }

    pub fn get_time_shift(&self) -> (r: u64)
        requires
            self.wf(),
        ensures
            r == self.spec_time_shift(),
    {
        self.gen_id_bits as u64 + self.sequence_bits as u64
    }

    pub fn get_gen_shift(&self) -> (r: u64)
        requires
            self.wf(),
        ensures
            r == self.spec_gen_shift(),
    {
        self.sequence_bits as u64
    }

    /// Whole milliseconds elapsed since the epoch, truncated to 64 bits.
    /// The value comes from the clock, so nothing is promised of it; callers
    /// state what holds of every reading.
    pub fn get_ticks(&self) -> u64 {
        let d = clock::elapsed_since(&self.epoch);
        let ms = clock::duration_as_millis(&d);
        #[verifier::truncate]
        (ms as u64)
    }

    /// Time elapsed since the epoch, as reported by the clock.
    pub fn get_elapsed(&self) -> std::time::Duration {
        clock::elapsed_since(&self.epoch)
    }

    /// Busy-waits until the clock's masked tick count differs from
    /// `current`, and returns that fresh reading.
    pub(crate) fn wait_for_tick_change(&self, current: u64) -> (r: u64)
        requires
            self.wf(),
        ensures
            r != current,
            r <= self.spec_time_mask(),
    {
        let mask = self.get_time_mask();
        clock::wait_for_masked_tick_change(&self.epoch, mask, current)
    }
}

/// The low `width` bits set, as a 64-bit word.
fn mask_for_width(width: u8) -> (r: u64)
    requires
        width <= 64,
    ensures
        r == (pow2(width as nat) - 1) as u64,
{
    proof {
        lemma_pow2_pos(width as nat);
    }
    if width == 64 {
        proof {
            lemma2_to64();
            lemma2_to64_rest();
        }
        u64::MAX
    } else {
        proof {
            lemma_u64_pow2_no_overflow(width as nat);
            lemma_u64_shl_is_mul(1u64, width as u64);
        }
        (1u64 << width) - 1
    }
}

/// Staged constructor for [`IdStructure`]: each configuration value is
/// supplied once, in any order, and [`IdStructBuilder::create`] validates the
/// whole configuration.
pub struct IdStructBuilder {
    ts_bits: Option<u8>,
    id_bits: Option<u8>,
    seq_bits: Option<u8>,
    epoch: Option<std::time::Instant>,
}

impl IdStructBuilder {
    pub closed spec fn spec_ts_bits(self) -> Option<u8> {
        self.ts_bits
    }

    pub closed spec fn spec_id_bits(self) -> Option<u8> {
        self.id_bits
    }

    pub closed spec fn spec_seq_bits(self) -> Option<u8> {
        self.seq_bits
    }

    pub closed spec fn spec_builder_epoch(self) -> Option<std::time::Instant> {
        self.epoch
    }

    pub fn timestamp_bits(self, bits: u8) -> (r: Self)
        ensures
            r.spec_ts_bits() == Some(bits),
            r.spec_id_bits() == self.spec_id_bits(),
            r.spec_seq_bits() == self.spec_seq_bits(),
            r.spec_builder_epoch() == self.spec_builder_epoch(),
    {
        IdStructBuilder { ts_bits: Some(bits), ..self }
    }

    pub fn gen_id_bits(self, bits: u8) -> (r: Self)
        ensures
            r.spec_id_bits() == Some(bits),
            r.spec_ts_bits() == self.spec_ts_bits(),
            r.spec_seq_bits() == self.spec_seq_bits(),
            r.spec_builder_epoch() == self.spec_builder_epoch(),
    {
        IdStructBuilder { id_bits: Some(bits), ..self }
    }

    pub fn sequence_bits(self, bits: u8) -> (r: Self)
        ensures
            r.spec_seq_bits() == Some(bits),
            r.spec_ts_bits() == self.spec_ts_bits(),
            r.spec_id_bits() == self.spec_id_bits(),
            r.spec_builder_epoch() == self.spec_builder_epoch(),
    {
        IdStructBuilder { seq_bits: Some(bits), ..self }
    }

    pub fn epoch(self, epoch: std::time::Instant) -> (r: Self)
        ensures
            r.spec_builder_epoch() == Some(epoch),
            r.spec_ts_bits() == self.spec_ts_bits(),
            r.spec_id_bits() == self.spec_id_bits(),
            r.spec_seq_bits() == self.spec_seq_bits(),
    {
        IdStructBuilder { epoch: Some(epoch), ..self }
    }

    /// Validates the configuration: every field supplied, widths summing to
    /// 64, and an epoch no later than the clock's reading at this call.
    /// Which error is reported follows the order of the clauses below.
    pub fn create(self) -> (r: Result<IdStructure, ConfigurationError>)
        ensures
            self.spec_ts_bits() is None ==> r == Err::<IdStructure, _>(
                ConfigurationError::MissingTimestampBits,
            ),
            self.spec_ts_bits() is Some && self.spec_id_bits() is None ==> r == Err::<
                IdStructure,
                _,
            >(ConfigurationError::MissingGeneratorIdBits),
            self.spec_ts_bits() is Some && self.spec_id_bits() is Some && self.spec_seq_bits()
                is None ==> r == Err::<IdStructure, _>(ConfigurationError::MissingSequenceBits),
            self.spec_ts_bits() is Some && self.spec_id_bits() is Some && self.spec_seq_bits()
                is Some && self.spec_builder_epoch() is None ==> r == Err::<IdStructure, _>(
                ConfigurationError::MissingEpoch,
            ),
            self.spec_ts_bits() is Some && self.spec_id_bits() is Some && self.spec_seq_bits()
                is Some && self.spec_builder_epoch() is Some
                && self.spec_ts_bits().unwrap() + self.spec_id_bits().unwrap()
                + self.spec_seq_bits().unwrap() != 64 ==> r == Err::<IdStructure, _>(
                ConfigurationError::BitsDoNotSumTo64,
            ),
            self.spec_ts_bits() is Some && self.spec_id_bits() is Some && self.spec_seq_bits()
                is Some && self.spec_builder_epoch() is Some
                && self.spec_ts_bits().unwrap() + self.spec_id_bits().unwrap()
                + self.spec_seq_bits().unwrap() == 64 ==> (r matches Ok(s) ==> s.wf()) && (
            r matches Err(e) ==> e == ConfigurationError::EpochInFuture),
            r matches Ok(s) ==> {
                &&& Some(s.spec_timestamp_bits()) == self.spec_ts_bits()
                &&& Some(s.spec_gen_id_bits()) == self.spec_id_bits()
                &&& Some(s.spec_sequence_bits()) == self.spec_seq_bits()
                &&& Some(s.spec_epoch()) == self.spec_builder_epoch()
                &&& s.wf()
            },
    {
        let ts_bits = match self.ts_bits {
            Some(b) => b,
            None => {
                return Err(ConfigurationError::MissingTimestampBits);
            },
        };
        let id_bits = match self.id_bits {
            Some(b) => b,
            None => {
                return Err(ConfigurationError::MissingGeneratorIdBits);
            },
        };
        let seq_bits = match self.seq_bits {
            Some(b) => b,
            None => {
                return Err(ConfigurationError::MissingSequenceBits);
            },
        };
        let epoch = match self.epoch {
            Some(e) => e,
            None => {
                return Err(ConfigurationError::MissingEpoch);
            },
        };
        let now = clock::instant_now();
        let epoch_in_past = clock::instant_le(&epoch, &now);
        validate(ts_bits, id_bits, seq_bits, epoch, epoch_in_past)
    }
}

/// Validation of a fully supplied configuration, with the outcome of the
/// epoch check passed in as a plain value: construction succeeds exactly when
/// the widths sum to 64 and the epoch was found not to lie in the future.
pub fn validate(
    timestamp_bits: u8,
    gen_id_bits: u8,
    sequence_bits: u8,
    epoch: std::time::Instant,
    epoch_in_past: bool,
) -> (r: Result<IdStructure, ConfigurationError>)
    ensures
        (timestamp_bits + gen_id_bits + sequence_bits == 64 && epoch_in_past) <==> r is Ok,
        timestamp_bits + gen_id_bits + sequence_bits != 64 ==> r == Err::<IdStructure, _>(
            ConfigurationError::BitsDoNotSumTo64,
        ),
        timestamp_bits + gen_id_bits + sequence_bits == 64 && !epoch_in_past ==> r == Err::<
            IdStructure,
            _,
        >(ConfigurationError::EpochInFuture),
        r matches Ok(s) ==> {
            &&& s.spec_timestamp_bits() == timestamp_bits
            &&& s.spec_gen_id_bits() == gen_id_bits
            &&& s.spec_sequence_bits() == sequence_bits
            &&& s.spec_epoch() == epoch
            &&& s.wf()
        },
{
    if timestamp_bits as u64 + gen_id_bits as u64 + sequence_bits as u64 != 64 {
        Err(ConfigurationError::BitsDoNotSumTo64)
    } else if !epoch_in_past {
        Err(ConfigurationError::EpochInFuture)
    } else {
        Ok(IdStructure { timestamp_bits, gen_id_bits, sequence_bits, epoch })
    }
}

} // verus!
