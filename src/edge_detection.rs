//! Edge-detection post-process: which views get a pipeline, with which
//! variant, and when the full-screen pass may draw.
use vstd::prelude::*;
use crate::view::{color_target_format, ColorTargetFormat, DrawCall, ViewSettings};

verus! {

/// Vertices of the full-screen triangle drawn by the pass.
pub const FULLSCREEN_VERTICES: u32 = 3;

/// Selects the variant of the edge-detection pipeline.
#[derive(Clone, Copy, Debug, PartialEq, Eq, Hash, Structural)]
pub struct EdgeDetectionPipelineKey {
    pub hdr: bool,
}

impl EdgeDetectionPipelineKey {
    pub fn new(hdr: bool) -> (r: EdgeDetectionPipelineKey)
        ensures
            r.hdr == hdr,
    {
        EdgeDetectionPipelineKey { hdr }
    }

    /// Color target format of the variant.
    pub fn color_target(&self) -> (r: ColorTargetFormat)
        ensures
            r == (if self.hdr { ColorTargetFormat::Hdr } else { ColorTargetFormat::Standard }),
    {
        color_target_format(self.hdr)
    }
}

/// The pass samples the view target directly, so it needs multisampling off.
pub open spec fn supports_edge_detection(view: ViewSettings) -> bool {
    view.msaa_samples == 1
}

/// Pipeline keys for `views`, in order. Preparation stops at the first view
/// with multisampling on: it and every later view get no key.
pub fn edge_detection_pipeline_keys(views: &Vec<ViewSettings>) -> (r: Vec<EdgeDetectionPipelineKey>)
    ensures
        r.len() <= views.len(),
        forall|i: int| 0 <= i < r.len() ==> supports_edge_detection(#[trigger] views@[i]),
        forall|i: int| 0 <= i < r.len() ==> (#[trigger] r@[i]).hdr == views@[i].hdr,
        r.len() < views.len() ==> !supports_edge_detection(views@[r.len() as int]),
{
    let mut keys: Vec<EdgeDetectionPipelineKey> = Vec::new();
    let mut i: usize = 0;
    while i < views.len()
        invariant
            i <= views.len(),
            keys.len() == i,
            forall|j: int| 0 <= j < i ==> supports_edge_detection(#[trigger] views@[j]),
            forall|j: int| 0 <= j < i ==> (#[trigger] keys@[j]).hdr == views@[j].hdr,
        decreases views.len() - i,
    {
        let view = views[i];
        if view.msaa_samples != 1 {
            return keys;
        }
        keys.push(EdgeDetectionPipelineKey::new(view.hdr));
        i = i + 1;
    }
    keys
}

/// What the edge-detection pass needs in place before it can draw.
#[derive(Clone, Copy, Debug, PartialEq, Eq, Structural)]
pub struct EdgeDetectionInputs {
    /// The specialized pipeline has compiled.
    pub pipeline_ready: bool,
    /// The settings uniform has a binding.
    pub settings_bound: bool,
    /// The view has a depth prepass texture.
    pub depth_prepass: bool,
    /// The view has a normal prepass texture.
    pub normal_prepass: bool,
}

impl EdgeDetectionInputs {
    pub open spec fn complete(self) -> bool {
        self.pipeline_ready && self.settings_bound && self.depth_prepass && self.normal_prepass
    }
}

/// Render-graph node of the edge-detection pass.
#[derive(Clone, Copy, Debug, Default)]
pub struct EdgeDetectionNode;

impl EdgeDetectionNode {
    /// The full-screen draw when every input is in place; otherwise `None`,
    /// and the pass is skipped for this frame.
    pub fn run(&self, inputs: &EdgeDetectionInputs) -> (r: Option<DrawCall>)
        ensures
            r is Some <==> inputs.complete(),
            r is Some ==> r->0 == (DrawCall { vertex_count: FULLSCREEN_VERTICES, instance_count: 1 }),
    {
        if !inputs.pipeline_ready || !inputs.settings_bound {
            return None;
        }
        if !inputs.depth_prepass || !inputs.normal_prepass {
            return None;
        }
        Some(DrawCall { vertex_count: FULLSCREEN_VERTICES, instance_count: 1 })
    }
}

} // verus!
