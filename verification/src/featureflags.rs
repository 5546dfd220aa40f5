//! One-time initialisation of the capability word, and the token that
//! certifies it.
//!
//! The first request for a token runs the detector, merges what it found
//! with the static mask and publishes the result. Every request, the first
//! one and all later ones, receives a token for that one published word.

use vstd::prelude::*;
use crate::feature::{contained, Feature};
use crate::once::{once_call_once, once_new, settled_word};
use crate::target::{Config, Target};

verus! {

/// The word that is published for a target whose detector reported `raw`:
/// the static mask, and whatever was detected and not suppressed.
pub open spec fn merged_word(target: Target, raw: u32) -> u32 {
    target.static_mask_spec() | (raw & !target.suppression_mask_spec())
}

/// Proof that detection has completed, and the published capability word
/// with it.
///
/// All tokens of one cell are equal. A token can be copied freely.
#[derive(Clone, Copy, Debug)]
pub struct Features {
    fixed: u32,
    word: u32,
}

impl Features {
    #[verifier::type_invariant]
    spec fn wf(self) -> bool {
        contained(self.fixed, self.word)
    }

    /// The published capability word that this token certifies.
    pub closed spec fn word(self) -> u32 {
        self.word
    }

    /// The static mask of the configuration that the word was published for.
    pub closed spec fn static_mask(self) -> u32 {
        self.fixed
    }

    /// The token of a configuration and a published word.
    pub closed spec fn of(config: Config, published: u32) -> Features {
        Features {
            fixed: config.target().static_mask_spec(),
            word: config.target().static_mask_spec() | published,
        }
    }

    /// Certifies a word that was published for `config`.
    ///
    /// The static mask is folded into the word once more. A word that was
    /// merged for `config` contains it already and comes through unchanged;
    /// for any other word this makes the token's word contain the static
    /// mask all the same.
    pub fn certify(config: &Config, published: u32) -> (token: Features)
        ensures
            token == Features::of(*config, published),
            token.static_mask() == config.target().static_mask_spec(),
            token.word() == config.target().static_mask_spec() | published,
            contained(token.static_mask(), token.word()),
    {
        let fixed: u32 = config.description().static_mask();
        assert(fixed & (fixed | published) == fixed) by (bit_vector);
        Features { fixed, word: fixed | published }
    }

    /// The static mask of the configuration that the word was published for.
    /// The published word contains it.
    pub fn static_part(self) -> (m: u32)
        ensures
            m == self.static_mask(),
            contained(m, self.word()),
    {
        proof {
            use_type_invariant(self);
        }
        self.fixed
    }
}

/// Reads the published capability word through a token. The word contains
/// the static mask.
pub fn get(cpu_features: Features) -> (word: u32)
    ensures
        word == cpu_features.word(),
        contained(cpu_features.static_mask(), word),
{
    proof {
        use_type_invariant(cpu_features);
    }
    cpu_features.word
}

/// Merges a raw detected mask with what the configuration fixes: the test
/// overrides take bits away from `raw`, and the static mask is added.
pub fn merge(config: &Config, raw: u32) -> (word: u32)
    ensures
        word == merged_word(config.target(), raw),
{
    let target = config.description();
    let filtered: u32 = raw & !target.suppression_mask();
    target.static_mask() | filtered
}

/// Runs the detector and merges what it reports: the work of the one request
/// that initialises a cell.
pub fn detect_and_merge<D: FnOnce() -> u32>(config: &Config, detect: D) -> (word: u32)
    requires
        detect.requires(()),
    ensures
        exists|raw: u32| detect.ensures((), raw) && word == merged_word(config.target(), raw),
{
    let raw: u32 = detect();
    merge(config, raw)
}

/// The process-wide state: a configuration, and the write-once cell that the
/// capability word is published in.
pub struct CapabilityCell {
    config: Config,
    published: spin::Once<u32>,
}

impl CapabilityCell {
    /// The configuration that the cell was made for.
    pub closed spec fn config(&self) -> Config {
        self.config
    }

    /// The word that the cell holds once it has been initialised.
    pub closed spec fn published(&self) -> u32 {
        settled_word(self.published)
    }

    /// The token that every request on this cell receives.
    pub open spec fn token(&self) -> Features {
        Features::of(self.config(), self.published())
    }

    /// A cell for `config`, not yet initialised.
    pub fn new(config: Config) -> (cell: CapabilityCell)
        ensures
            cell.config() == config,
    {
        CapabilityCell { config, published: once_new() }
    }
}

/// Requests a token.
///
/// The first request on a cell runs `detect` and publishes the merged word;
/// a request that arrives meanwhile waits for it; a later one returns at once
/// and does not call `detect`. All of them return the same token.
pub fn get_or_init<D: FnOnce() -> u32>(cell: &CapabilityCell, detect: D) -> (token: Features)
    requires
        detect.requires(()),
    ensures
        token == cell.token(),
        token.static_mask() == cell.config().target().static_mask_spec(),
        token.word() == token.static_mask() | cell.published(),
        contained(token.static_mask(), token.word()),
{
    let config = &cell.config;
    let init = || -> (word: u32)
        requires
            detect.requires(()),
        { detect_and_merge(config, detect) };
    let published: u32 = once_call_once(&cell.published, init);
    let token = Features::certify(config, published);
    proof {
        let fixed: u32 = token.static_mask();
        assert(fixed & (fixed | published) == fixed) by (bit_vector);
    }
    token
}

/// The published word contains the static mask, whatever was detected.
pub proof fn lemma_merged_contains_static(target: Target, raw: u32)
    ensures
        contained(target.static_mask_spec(), merged_word(target, raw)),
{
    let fixed: u32 = target.static_mask_spec();
    let kept: u32 = raw & !target.suppression_mask_spec();
    assert(fixed & (fixed | kept) == fixed) by (bit_vector);
}

/// A feature that the target guarantees is granted by the published word,
/// whatever was detected and whatever is suppressed.
pub proof fn lemma_static_feature_granted(target: Target, raw: u32, feature: Feature)
    requires
        contained(feature.mask, target.static_mask_spec()),
    ensures
        feature.granted_by(merged_word(target, raw)),
{
    let mask: u32 = feature.mask;
    let fixed: u32 = target.static_mask_spec();
    let kept: u32 = raw & !target.suppression_mask_spec();
    assert(mask & (fixed | kept) == mask) by (bit_vector)
        requires
            mask & fixed == mask,
    ;
}

/// A feature whose bits the test overrides cover is withheld although the
/// hardware has it, unless the target guarantees all of it.
pub proof fn lemma_suppressed_feature_withheld(target: Target, raw: u32, feature: Feature)
    requires
        contained(feature.mask, target.suppression_mask_spec()),
        !contained(feature.mask, target.static_mask_spec()),
    ensures
        !feature.granted_by(merged_word(target, raw)),
{
    let mask: u32 = feature.mask;
    let fixed: u32 = target.static_mask_spec();
    let hidden: u32 = target.suppression_mask_spec();
    assert(mask & (fixed | (raw & !hidden)) != mask) by (bit_vector)
        requires
            mask & hidden == mask,
            mask & fixed != mask,
    ;
}

/// The test overrides only take bits away: the published word holds nothing
/// beyond the static mask and what was detected.
pub proof fn lemma_overrides_only_remove(target: Target, raw: u32)
    ensures
        contained(merged_word(target, raw), target.static_mask_spec() | raw),
{
    let fixed: u32 = target.static_mask_spec();
    let hidden: u32 = target.suppression_mask_spec();
    assert((fixed | (raw & !hidden)) & (fixed | raw) == fixed | (raw & !hidden)) by (bit_vector);
}

/// Without test overrides the published word is the static mask together
/// with all that was detected.
pub proof fn lemma_merged_without_overrides(target: Target, raw: u32)
    requires
        !target.no_hw,
        !target.no_neon,
    ensures
        merged_word(target, raw) == target.static_mask_spec() | raw,
{
    let fixed: u32 = target.static_mask_spec();
    assert(fixed | (raw & !(0u32 | 0u32)) == fixed | raw) by (bit_vector);
}

/// Where the detector finds nothing, the published word is the static mask
/// exactly.
pub proof fn lemma_nothing_detected(target: Target)
    ensures
        merged_word(target, 0) == target.static_mask_spec(),
{
    let fixed: u32 = target.static_mask_spec();
    let hidden: u32 = target.suppression_mask_spec();
    assert(fixed | (0u32 & !hidden) == fixed) by (bit_vector);
}

/// What a token is made of: the static mask of its configuration, and the
/// published word with the static mask folded in.
pub proof fn lemma_token_parts(config: Config, published: u32)
    ensures
        Features::of(config, published).static_mask() == config.target().static_mask_spec(),
        Features::of(config, published).word() == config.target().static_mask_spec() | published,
{
}

/// Certifying a word that was merged for the same configuration leaves it
/// as it is.
pub proof fn lemma_certify_keeps_merged(config: Config, raw: u32)
    ensures
        Features::of(config, merged_word(config.target(), raw)).word() == merged_word(
            config.target(),
            raw,
        ),
{
    let fixed: u32 = config.target().static_mask_spec();
    let kept: u32 = raw & !config.target().suppression_mask_spec();
    assert(fixed | (fixed | kept) == fixed | kept) by (bit_vector);
}

/// Two requests on one cell receive tokens that certify one and the same
/// word, and answer alike for every feature.
pub proof fn lemma_tokens_agree(cell: CapabilityCell, first: Features, second: Features, feature: Feature)
    requires
        first == cell.token(),
        second == cell.token(),
    ensures
        first.word() == second.word(),
        feature.granted_by(first.word()) == feature.granted_by(second.word()),
{
}

} // verus!
