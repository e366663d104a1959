//! The registry of currently-visible pipelines.
//!
//! A [`Scene`] bundles the visible pipelines — one sub-document's display
//! content plus layout metadata each — together with the per-pipeline epoch
//! bookkeeping and the reference to the root pipeline of composition.
//! Pipeline snapshots are immutable and shared by reference count: an update
//! always installs a fresh snapshot wholesale, so a reader still holding the
//! previous one keeps seeing a consistent, never-torn state.

use vstd::prelude::*;
use std::collections::HashMap;
use std::sync::Arc;
use crate::units::{ColorF, LayoutSize};

verus! {

broadcast use vstd::std_specs::hash::group_hash_axioms;

/// The identifier of one pipeline (one sub-document). Opaque to the
/// registry; it only serves as the lookup key.
pub type PipelineId = u64;

/// The monotonically-advancing version counter of one pipeline's display
/// list. The counter is caller-supplied: the registry installs whatever epoch
/// it is handed and leaves monotonicity to the caller.
#[derive(Clone, Copy, Debug, PartialEq, Eq, Structural)]
pub struct Epoch(pub u32);

/// An immutable snapshot of one pipeline's built display-list content, as
/// handed over by the display-list builder: the serialized item payload.
pub struct BuiltDisplayList {
    pub data: Vec<u8>,
}

/// One pipeline's renderable content plus its layout metadata.
pub struct ScenePipeline {
    pub pipeline_id: PipelineId,
    pub viewport_size: LayoutSize,
    pub content_size: LayoutSize,
    pub background_color: Option<ColorF>,
    pub display_list: BuiltDisplayList,
}

/// A complete representation of the layout, bundling the visible pipelines
/// together. Snapshots are held behind reference-counted handles so that
/// concurrent readers can keep an older snapshot while the registry installs
/// a replacement.
pub struct Scene {
    pub root_pipeline_id: Option<PipelineId>,
    pub pipelines: HashMap<PipelineId, Arc<ScenePipeline>>,
    pub pipeline_epochs: HashMap<PipelineId, Epoch>,
}

/// The mathematical state of a [`Scene`]: the root reference and the two
/// per-pipeline tables, with the reference counting erased.
#[verifier::ext_equal]
pub struct SceneView {
    pub root_pipeline_id: Option<PipelineId>,
    pub pipelines: Map<PipelineId, ScenePipeline>,
    pub pipeline_epochs: Map<PipelineId, Epoch>,
}

impl View for Scene {
    type V = SceneView;

    open spec fn view(&self) -> SceneView {
        SceneView {
            root_pipeline_id: self.root_pipeline_id,
            pipelines: Map::new(
                |id: PipelineId| self.pipelines@.contains_key(id),
                |id: PipelineId| *self.pipelines@[id],
            ),
            pipeline_epochs: self.pipeline_epochs@,
        }
    }
}

/// The state after overwriting the root reference, valid or not.
pub open spec fn spec_set_root(v: SceneView, pipeline_id: PipelineId) -> SceneView {
    SceneView { root_pipeline_id: Some(pipeline_id), ..v }
}

/// The state after installing a snapshot and its epoch for one pipeline,
/// replacing whatever the registry held for that identifier.
pub open spec fn spec_set_display_list(
    v: SceneView,
    pipeline_id: PipelineId,
    epoch: Epoch,
    pipeline: ScenePipeline,
) -> SceneView {
    SceneView {
        root_pipeline_id: v.root_pipeline_id,
        pipelines: v.pipelines.insert(pipeline_id, pipeline),
        pipeline_epochs: v.pipeline_epochs.insert(pipeline_id, epoch),
    }
}

/// The state after removing one pipeline: its snapshot and epoch entries are
/// gone, and the root reference is cleared when it pointed at the removed
/// identifier. Removing an unknown identifier leaves the tables as they are.
pub open spec fn spec_remove_pipeline(v: SceneView, pipeline_id: PipelineId) -> SceneView {
    SceneView {
        root_pipeline_id: if v.root_pipeline_id == Some(pipeline_id) {
            None
        } else {
            v.root_pipeline_id
        },
        pipelines: v.pipelines.remove(pipeline_id),
        pipeline_epochs: v.pipeline_epochs.remove(pipeline_id),
    }
}

/// The state after bumping one pipeline's epoch without touching its
/// content. On an identifier with no pipeline entry this is a silent no-op.
pub open spec fn spec_update_epoch(v: SceneView, pipeline_id: PipelineId, epoch: Epoch) -> SceneView {
    if v.pipelines.contains_key(pipeline_id) {
        SceneView { pipeline_epochs: v.pipeline_epochs.insert(pipeline_id, epoch), ..v }
    } else {
        v
    }
}

/// Whether the registry has a valid root: a root reference is set and that
/// identifier currently has a pipeline entry.
pub open spec fn spec_has_root(v: SceneView) -> bool {
    match v.root_pipeline_id {
        Some(root_id) => v.pipelines.contains_key(root_id),
        None => false,
    }
}

impl Scene {
    /// The registry's invariant: a pipeline's epoch entry exists exactly when
    /// its snapshot entry does.
    pub open spec fn wf(self) -> bool {
        self@.pipelines.dom() == self@.pipeline_epochs.dom()
    }

    /// An empty registry: no pipelines, no root reference.
    pub fn new() -> (s: Scene)
        ensures
            s.wf(),
            s@.root_pipeline_id is None,
            s@.pipelines == Map::<PipelineId, ScenePipeline>::empty(),
            s@.pipeline_epochs == Map::<PipelineId, Epoch>::empty(),
    {
        let s = Scene {
            root_pipeline_id: None,
            pipelines: HashMap::new(),
            pipeline_epochs: HashMap::new(),
        };
        proof {
            assert(s@.pipelines =~= Map::<PipelineId, ScenePipeline>::empty());
            assert(s@.pipelines.dom() =~= s@.pipeline_epochs.dom());
        }
        s
    }

    /// Overwrite the root reference unconditionally. Existence of the
    /// pipeline is not checked here; [`Self::has_root_pipeline`] re-checks it
    /// lazily.
    pub fn set_root_pipeline_id(&mut self, pipeline_id: PipelineId)
        ensures
            final(self)@ == spec_set_root(old(self)@, pipeline_id),
            old(self).wf() ==> final(self).wf(),
    {
        self.root_pipeline_id = Some(pipeline_id);
        proof {
            assert(self@ =~= spec_set_root(old(self)@, pipeline_id));
        }
    }

    /// Construct a fresh immutable snapshot from the given fields and install
    /// it for the identifier, replacing any prior snapshot; independently
    /// install the caller-supplied epoch for the identifier.
    pub fn set_display_list(
        &mut self,
        pipeline_id: PipelineId,
        epoch: Epoch,
        display_list: BuiltDisplayList,
        background_color: Option<ColorF>,
        viewport_size: LayoutSize,
        content_size: LayoutSize,
    )
        ensures
            final(self)@ == spec_set_display_list(
                old(self)@,
                pipeline_id,
                epoch,
                (ScenePipeline {
                    pipeline_id,
                    viewport_size,
                    content_size,
                    background_color,
                    display_list,
                }),
            ),
            old(self).wf() ==> final(self).wf(),
    {
        let new_pipeline = ScenePipeline {
            pipeline_id,
            viewport_size,
            content_size,
            background_color,
            display_list,
        };
        self.pipelines.insert(pipeline_id, Arc::new(new_pipeline));
        self.pipeline_epochs.insert(pipeline_id, epoch);
        proof {
            assert(self@ =~= spec_set_display_list(old(self)@, pipeline_id, epoch, new_pipeline));
            if old(self).wf() {
                assert(self@.pipelines.dom() =~= self@.pipeline_epochs.dom());
            }
        }
    }

    /// Delete the snapshot and epoch entries of one pipeline; clear the root
    /// reference when it pointed at the removed identifier. Removing an
    /// unknown identifier is a silent no-op.
    pub fn remove_pipeline(&mut self, pipeline_id: PipelineId)
        ensures
            final(self)@ == spec_remove_pipeline(old(self)@, pipeline_id),
            old(self).wf() ==> final(self).wf(),
    {
        let is_root = match &self.root_pipeline_id {
            Some(root_id) => *root_id == pipeline_id,
            None => false,
        };
        if is_root {
            self.root_pipeline_id = None;
        }
        self.pipelines.remove(&pipeline_id);
        self.pipeline_epochs.remove(&pipeline_id);
        proof {
            assert(self@ =~= spec_remove_pipeline(old(self)@, pipeline_id));
            if old(self).wf() {
                assert(self@.pipelines.dom() =~= self@.pipeline_epochs.dom());
            }
        }
    }

    /// Overwrite the epoch of one pipeline without touching its content —
    /// for a pure version bump. On an identifier with no pipeline entry this
    /// is a silent no-op.
    pub fn update_epoch(&mut self, pipeline_id: PipelineId, epoch: Epoch)
        ensures
            final(self)@ == spec_update_epoch(old(self)@, pipeline_id, epoch),
            old(self).wf() ==> final(self).wf(),
    {
        if self.pipelines.contains_key(&pipeline_id) {
            self.pipeline_epochs.insert(pipeline_id, epoch);
        }
        proof {
            assert(self@ =~= spec_update_epoch(old(self)@, pipeline_id, epoch));
            if old(self).wf() {
                assert(self@.pipelines.dom() =~= self@.pipeline_epochs.dom());
            }
        }
    }

    /// True exactly when a root reference is set and that identifier has a
    /// current pipeline entry.
    pub fn has_root_pipeline(&self) -> (r: bool)
        ensures
            r == spec_has_root(self@),
    {
        match &self.root_pipeline_id {
            Some(root_id) => self.pipelines.contains_key(root_id),
            None => false,
        }
    }
}

/// Root consistency: pointing the root at an identifier with no pipeline
/// leaves the registry without a valid root; installing a display list for
/// that identifier makes the root valid; removing the pipeline again makes it
/// invalid and clears the root reference.
pub proof fn lemma_root_consistency(
    v: SceneView,
    pipeline_id: PipelineId,
    epoch: Epoch,
    pipeline: ScenePipeline,
)
    requires
        !v.pipelines.contains_key(pipeline_id),
    ensures
        !spec_has_root(spec_set_root(v, pipeline_id)),
        spec_has_root(
            spec_set_display_list(spec_set_root(v, pipeline_id), pipeline_id, epoch, pipeline),
        ),
        !spec_has_root(
            spec_remove_pipeline(
                spec_set_display_list(spec_set_root(v, pipeline_id), pipeline_id, epoch, pipeline),
                pipeline_id,
            ),
        ),
        spec_remove_pipeline(
            spec_set_display_list(spec_set_root(v, pipeline_id), pipeline_id, epoch, pipeline),
            pipeline_id,
        ).root_pipeline_id is None,
{
}

} // verus!
