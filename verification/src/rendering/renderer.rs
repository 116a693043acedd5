//! Choosing among the framebuffer configurations a display offers.

use vstd::prelude::*;

verus! {

/// What the choice looks at in a framebuffer configuration.
#[derive(Clone, Copy, Debug, PartialEq, Eq, Structural)]
pub struct ConfigTraits {
    /// Whether the configuration supports transparency, where that is known.
    pub supports_transparency: Option<bool>,
    /// The number of samples per pixel.
    pub num_samples: u8,
}

impl ConfigTraits {
    /// Transparency that is not known counts as absent.
    pub open spec fn transparent(self) -> bool {
        self.supports_transparency == Some(true)
    }
}

/// A candidate displaces the incumbent where it brings transparency the
/// incumbent lacks, or more samples.
pub open spec fn displaces(candidate: ConfigTraits, incumbent: ConfigTraits) -> bool {
    (candidate.transparent() && !incumbent.transparent()) || candidate.num_samples
        > incumbent.num_samples
}

/// The index of the configuration that is left when each configuration in
/// turn is set against the one chosen so far.
pub open spec fn picked(configs: Seq<ConfigTraits>) -> int
    decreases configs.len(),
{
    if configs.len() <= 1 {
        0
    } else {
        let incumbent = picked(configs.drop_last());
        if displaces(configs.last(), configs[incumbent]) {
            configs.len() - 1
        } else {
            incumbent
        }
    }
}

/// The pick is one of the configurations, and none that comes after it
/// displaces it.
pub proof fn lemma_pick_stands(configs: Seq<ConfigTraits>)
    requires
        configs.len() > 0,
    ensures
        0 <= picked(configs) < configs.len(),
        forall|later: int|
            picked(configs) < later < configs.len() ==> !displaces(
                #[trigger] configs[later],
                configs[picked(configs)],
            ),
    decreases configs.len(),
{
    if configs.len() > 1 {
        lemma_pick_stands(configs.drop_last());
        let incumbent = picked(configs.drop_last());
        assert(configs.drop_last()[incumbent] == configs[incumbent]);
        assert forall|later: int| picked(configs) < later < configs.len() implies !displaces(
            #[trigger] configs[later],
            configs[picked(configs)],
        ) by {
            if later < configs.len() - 1 {
                assert(configs.drop_last()[later] == configs[later]);
            }
        }
    }
}

fn is_transparent(config: &ConfigTraits) -> (yes: bool)
    ensures
        yes == config.transparent(),
{
    match config.supports_transparency {
        Some(known) => known,
        None => false,
    }
}

/// Picks a configuration: the index of the one that is left when each in
/// turn is set against the one chosen so far.
pub fn gl_config_picker(configs: &Vec<ConfigTraits>) -> (index: usize)
    requires
        configs.len() > 0,
    ensures
        index == picked(configs@),
        index < configs.len(),
        forall|later: int|
            index < later < configs.len() ==> !displaces(
                #[trigger] configs@[later],
                configs@[index as int],
            ),
{
    let mut accum: usize = 0;
    let mut i: usize = 1;
    assert(configs@.take(1).len() == 1);
    while i < configs.len()
        invariant
            1 <= i <= configs.len(),
            accum < i,
            accum == picked(configs@.take(i as int)),
        decreases configs.len() - i,
    {
        let candidate = &configs[i];
        let incumbent = &configs[accum];
        let transparency_check = is_transparent(candidate) && !is_transparent(incumbent);
        proof {
            let next = configs@.take(i + 1);
            assert(next.drop_last() =~= configs@.take(i as int));
            assert(next.last() == configs@[i as int]);
            assert(next[accum as int] == configs@[accum as int]);
        }
        if transparency_check || candidate.num_samples > incumbent.num_samples {
            accum = i;
        }
        i += 1;
    }
    proof {
        assert(configs@.take(i as int) =~= configs@);
        lemma_pick_stands(configs@);
    }
    accum
}

} // verus!
