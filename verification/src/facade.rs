//! The single entry point: dispatches the located container through
//! coercion on the supported platform, and collapses every failure mode —
//! unsupported platform, absent container, failed lookup — into the empty
//! mapping. Nothing here raises an error to the caller.

use vstd::prelude::*;

use crate::container::{coerce_all, map_of_pairs, spec_coerced_pairs, ResultMap, SettingsContainer};

verus! {

/// What the platform boundary hands the facade: on the supported platform,
/// the outcome of locating the container (an absent container and a failed
/// lookup both collapse to `None` there); on every other platform,
/// `Unsupported`.
pub enum SettingsSource {
    Unsupported,
    Supported(Option<SettingsContainer>),
}

/// The pairs the pipeline keeps once the container has been located: the
/// coerced entries, or nothing when no container was found.
pub open spec fn spec_located_settings(located: Option<SettingsContainer>) -> Seq<
    (Seq<char>, Seq<char>),
> {
    match located {
        Some(c) => spec_coerced_pairs(c.entries@),
        None => Seq::empty(),
    }
}

/// The pairs the whole facade returns for a given source.
pub open spec fn spec_settings(source: SettingsSource) -> Seq<(Seq<char>, Seq<char>)> {
    match source {
        SettingsSource::Unsupported => Seq::empty(),
        SettingsSource::Supported(located) => spec_located_settings(located),
    }
}

/// The supported platform's pipeline behind the facade: coerce the located
/// container's entries; an absent container yields the empty mapping.
pub fn get_mdm_settings_impl(located: Option<SettingsContainer>) -> (r: ResultMap)
    ensures
        r.pairs() == spec_located_settings(located),
        located is None ==> r.as_map() == Map::<Seq<char>, Seq<char>>::empty(),
{
    match located {
        Some(c) => coerce_all(&c),
        None => ResultMap::new(),
    }
}

/// The facade: one non-failing entry point. On the supported platform it
/// returns the coerced contents of the located container; an unsupported
/// platform or an absent container yields the empty mapping, with no error
/// surfaced either way.
pub fn get_settings(source: SettingsSource) -> (r: ResultMap)
    ensures
        r.pairs() == spec_settings(source),
        source is Unsupported ==> r.as_map() == Map::<Seq<char>, Seq<char>>::empty(),
        (source matches SettingsSource::Supported(None)) ==> r.as_map() == Map::<
            Seq<char>,
            Seq<char>,
        >::empty(),
{
    match source {
        SettingsSource::Unsupported => ResultMap::new(),
        SettingsSource::Supported(located) => get_mdm_settings_impl(located),
    }
}

/// Repeated reads agree: the result is a function of the source alone, so
/// two calls with no external change in between return equal mappings.
pub proof fn lemma_repeated_reads_agree(source: SettingsSource, r1: ResultMap, r2: ResultMap)
    requires
        r1.pairs() == spec_settings(source),
        r2.pairs() == spec_settings(source),
    ensures
        r1.pairs() == r2.pairs(),
        r1.as_map() == r2.as_map(),
{
}

} // verus!
