//! The waveform cache: one plan per vocabulary note, for one configuration.
use vstd::prelude::*;
use crate::pitch::{NOTE_COUNT, note_index, note_offset};
use crate::synth::{NotePlan, PlaybackConfig, plan_for, plan_spec, render_index};

verus! {

/// The cache's contents for `cfg`: the plan of every vocabulary note, in
/// vocabulary order.
pub open spec fn cache_spec(cfg: PlaybackConfig) -> Seq<NotePlan> {
    Seq::new(NOTE_COUNT as nat, |k: int| plan_spec(cfg, k))
}

/// Buffers for the whole vocabulary under one configuration.
pub struct WaveformCache {
    config: PlaybackConfig,
    plans: Vec<NotePlan>,
}

impl WaveformCache {
    /// The configuration the cache was built for.
    pub closed spec fn config_view(&self) -> PlaybackConfig {
        self.config
    }

    /// The cached plans, in vocabulary order.
    pub closed spec fn plans_view(&self) -> Seq<NotePlan> {
        self.plans@
    }

    /// The cache covers the vocabulary exactly, each entry rendered from
    /// the cache's configuration.
    pub open spec fn wf(&self) -> bool {
        self.plans_view() == cache_spec(self.config_view())
    }

    /// Renders every vocabulary note under `cfg`.
    pub fn build(cfg: PlaybackConfig) -> (r: WaveformCache)
        ensures
            r.wf(),
            r.config_view() == cfg,
    {
        let mut plans: Vec<NotePlan> = Vec::new();
        let mut k: usize = 0;
        while k < NOTE_COUNT
            invariant
                k <= NOTE_COUNT,
                plans@.len() == k,
                forall|j: int| 0 <= j < k ==> #[trigger] plans@[j] == plan_spec(cfg, j),
            decreases NOTE_COUNT - k,
        {
            plans.push(render_index(k, &cfg));
            k = k + 1;
        }
        let r = WaveformCache { config: cfg, plans };
        assert(r.plans_view() =~= cache_spec(cfg));
        r
    }

    /// The configuration the cache was built for.
    pub fn config(&self) -> (r: PlaybackConfig)
        ensures
            r == self.config_view(),
    {
        self.config
    }

    /// Number of cached buffers.
    pub fn len(&self) -> (r: usize)
        requires
            self.wf(),
        ensures
            r == NOTE_COUNT,
    {
        self.plans.len()
    }

    /// The plan of the `k`-th vocabulary note.
    pub fn plan(&self, k: usize) -> (r: &NotePlan)
        requires
            self.wf(),
            k < NOTE_COUNT,
        ensures
            *r == plan_spec(self.config_view(), k as int),
    {
        &self.plans[k]
    }

    /// The plan cached for `note`; `None` for a symbol outside the vocabulary.
    pub fn lookup(&self, note: &str) -> (r: Option<&NotePlan>)
        requires
            self.wf(),
        ensures
            r is Some <==> note_offset(note@) is Some,
            r matches Some(p) ==> *p == plan_for(self.config_view(), note@),
    {
        match note_index(note) {
            Some(k) => Some(&self.plans[k]),
            None => None,
        }
    }
}

/// Rebuilding is a pure function of the configuration: two caches built for
/// the same configuration hold identical plans.
pub proof fn lemma_rebuild_deterministic(a: WaveformCache, b: WaveformCache)
    requires
        a.wf(),
        b.wf(),
        a.config_view() == b.config_view(),
    ensures
        a.plans_view() == b.plans_view(),
{
}

} // verus!
