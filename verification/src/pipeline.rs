//! The render pipelines: which variants exist, which shader entry points
//! each is built from, and where the compiled variants are kept.

use vstd::prelude::*;

verus! {

/// The identifier of a pipeline variant.
#[derive(Clone, Copy, Debug, PartialEq, Eq, Structural)]
pub enum PipelineId {
    Default,
    Challenge,
}

impl PipelineId {
    /// The other variant.
    pub open spec fn spec_toggled(self) -> PipelineId {
        match self {
            PipelineId::Default => PipelineId::Challenge,
            PipelineId::Challenge => PipelineId::Default,
        }
    }

    /// The other variant.
    #[verifier::when_used_as_spec(spec_toggled)]
    pub fn toggled(self) -> (other: PipelineId)
        ensures
            other == self.spec_toggled(),
    {
        match self {
            PipelineId::Default => PipelineId::Challenge,
            PipelineId::Challenge => PipelineId::Default,
        }
    }

    /// The variant after the toggle was invoked `times` times.
    pub open spec fn toggled_times(self, times: nat) -> PipelineId
        decreases times,
    {
        if times == 0 {
            self
        } else {
            self.toggled_times((times - 1) as nat).toggled()
        }
    }

    /// The stable name of the variant.
    pub fn name(self) -> (name: &'static str)
        ensures
            name@ == match self {
                PipelineId::Default => "default"@,
                PipelineId::Challenge => "challenge"@,
            },
    {
        match self {
            PipelineId::Default => "default",
            PipelineId::Challenge => "challenge",
        }
    }

    /// The shader entry point of the variant's vertex stage.
    pub fn vertex_entry(self) -> (entry: &'static str)
        ensures
            entry@ == match self {
                PipelineId::Default => "vs_main"@,
                PipelineId::Challenge => "vs_main_challenge"@,
            },
    {
        match self {
            PipelineId::Default => "vs_main",
            PipelineId::Challenge => "vs_main_challenge",
        }
    }

    /// The shader entry point of the variant's fragment stage.
    pub fn fragment_entry(self) -> (entry: &'static str)
        ensures
            entry@ == match self {
                PipelineId::Default => "fs_main"@,
                PipelineId::Challenge => "fs_main_challenge"@,
            },
    {
        match self {
            PipelineId::Default => "fs_main",
            PipelineId::Challenge => "fs_main_challenge",
        }
    }
}

/// Toggling an even number of times returns the variant that was active
/// before; toggling an odd number of times gives the other one.
pub proof fn lemma_toggle_parity(id: PipelineId, times: nat)
    ensures
        times % 2 == 0 ==> id.toggled_times(times) == id,
        times % 2 == 1 ==> id.toggled_times(times) == id.toggled(),
    decreases times,
{
    if times > 0 {
        lemma_toggle_parity(id, (times - 1) as nat);
    }
}

/// The compiled pipelines, one for each variant, kept for the whole session.
/// `P` is whatever the GPU hands out for a compiled pipeline.
pub struct PipelineRegistry<P> {
    default_pipeline: P,
    challenge_pipeline: P,
}

impl<P> PipelineRegistry<P> {
    /// The pipeline kept for a variant.
    pub closed spec fn variant(&self, id: PipelineId) -> P {
        match id {
            PipelineId::Default => self.default_pipeline,
            PipelineId::Challenge => self.challenge_pipeline,
        }
    }

    /// A registry of the two compiled variants.
    pub fn new(default_pipeline: P, challenge_pipeline: P) -> (registry: Self)
        ensures
            registry.variant(PipelineId::Default) == default_pipeline,
            registry.variant(PipelineId::Challenge) == challenge_pipeline,
    {
        PipelineRegistry { default_pipeline, challenge_pipeline }
    }

    /// The pipeline to bind for a variant. Nothing is compiled here: the
    /// call picks one of the two pipelines made at startup.
    pub fn get(&self, id: PipelineId) -> (pipeline: &P)
        ensures
            *pipeline == self.variant(id),
    {
        match id {
            PipelineId::Default => &self.default_pipeline,
            PipelineId::Challenge => &self.challenge_pipeline,
        }
    }
}

} // verus!
