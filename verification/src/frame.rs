//! Frame: gathers children under one transform and clips them to its bounds.

use vstd::prelude::*;
use crate::message::{copy_chain, AnyCreatePatch, AnyCreatePatchView, FramePatch, FramePatchView};
use crate::message::{NativeMessage, NativeMessageView};
use crate::patch::{cached_patch, patch_delta, patch_merged, PatchCache};
use crate::registry::InstanceRegistry;
use crate::rendering::{all_below, InstantiationArgs, Layer, NodeKind, NodeShape};
use crate::rendering::{RenderNode, RenderNodeView};
use crate::runtime::Runtime;
use crate::value::{refresh_size, refresh_transform, refreshed_size, refreshed_transform};
use crate::value::{Coefficients, EngineError, Property, Size, TypedValue};

verus! {

/// A clipping container. The host mirrors it as a native element, which is
/// kept up to date through `last_patches`.
pub struct FrameInstance {
    pub instance_id: u64,
    pub children: Vec<u64>,
    pub size: (Property<Size<u64>>, Property<Size<u64>>),
    pub transform: Property<Coefficients>,
    pub last_patches: PatchCache,
}

/// What a [`FrameInstance`] holds.
pub struct FrameInstanceView {
    pub instance_id: u64,
    pub children: Seq<u64>,
    pub size: (Property<Size<u64>>, Property<Size<u64>>),
    pub transform: Property<Coefficients>,
    pub last_patches: Map<Seq<u64>, FramePatchView>,
}

impl View for FrameInstance {
    type V = FrameInstanceView;

    open spec fn view(&self) -> FrameInstanceView {
        FrameInstanceView {
            instance_id: self.instance_id,
            children: self.children@,
            size: self.size,
            transform: self.transform,
            last_patches: self.last_patches@,
        }
    }
}

impl FrameInstanceView {
    pub open spec fn shape(self) -> NodeShape {
        NodeShape {
            kind: NodeKind::Frame,
            instance_id: self.instance_id,
            links: seq![self.children],
            vtable_ids: seq![
                self.size.0.vtable_id,
                self.size.1.vtable_id,
                self.transform.vtable_id,
            ],
        }
    }

    /// The frame once width, height and transform have taken the values that
    /// their expressions yielded, or the first mismatch of types in that
    /// order. `None` stands for a property that was not evaluated and keeps
    /// its value.
    pub open spec fn refreshed(
        self,
        width: Option<TypedValue>,
        height: Option<TypedValue>,
        transform: Option<TypedValue>,
    ) -> Result<FrameInstanceView, EngineError> {
        match refreshed_size(self.size.0.value, width) {
            Err(e) => Err(e),
            Ok(w) => match refreshed_size(self.size.1.value, height) {
                Err(e) => Err(e),
                Ok(h) => match refreshed_transform(self.transform.value, transform) {
                    Err(e) => Err(e),
                    Ok(t) => Ok(
                        FrameInstanceView {
                            size: (
                                Property { value: w, ..self.size.0 },
                                Property { value: h, ..self.size.1 },
                            ),
                            transform: Property { value: t, ..self.transform },
                            ..self
                        },
                    ),
                },
            },
        }
    }

    /// The frame once the host was brought up to date on the occurrence
    /// `id_chain` with the given geometry.
    pub open spec fn patched(
        self,
        id_chain: Seq<u64>,
        depth: usize,
        size_x: u64,
        size_y: u64,
        transform: Seq<u64>,
    ) -> FrameInstanceView {
        FrameInstanceView {
            last_patches: self.last_patches.insert(
                id_chain,
                patch_merged(
                    cached_patch(self.last_patches, id_chain),
                    id_chain,
                    depth,
                    size_x,
                    size_y,
                    transform,
                ),
            ),
            ..self
        }
    }
}

impl FrameInstance {
    pub fn get_instance_id(&self) -> (id: u64)
        ensures
            id == self@.instance_id,
    {
        self.instance_id
    }

    /// Mints an id, builds the node from `args` and registers it. A frame
    /// needs its children, even if none, and its size, and the id to be
    /// minted must be free, as it is in a well-formed registry. The registry
    /// stays well formed if the children were minted by it.
    pub fn instantiate(args: InstantiationArgs, registry: &mut InstanceRegistry) -> (id: u64)
        requires
            old(registry).next_id < u64::MAX,
            !old(registry).nodes().contains_key(old(registry).next_id),
            args.children is Some,
            args.size is Some,
        ensures
            id == old(registry).next_id,
            final(registry).next_id == id + 1,
            final(registry).marked() == old(registry).marked(),
            old(registry).wf() && all_below(args.children->0@, old(registry).next_id)
                ==> final(registry).wf(),
            final(registry).nodes() == old(registry).nodes().insert(
                id,
                RenderNodeView::Frame(
                    FrameInstanceView {
                        instance_id: id,
                        children: args.children->0@,
                        size: args.size->0,
                        transform: args.transform,
                        last_patches: Map::empty(),
                    },
                ),
            ),
    {
        let instance_id: u64 = registry.mint_id();
        let children: Vec<u64> = match args.children {
            Some(children) => children,
            None => Vec::new(),
        };
        let size: (Property<Size<u64>>, Property<Size<u64>>) = match args.size {
            Some(size) => size,
            None => (Property::literal(Size::Pixel(0)), Property::literal(Size::Pixel(0))),
        };
        let node = FrameInstance {
            instance_id,
            children,
            size,
            transform: args.transform,
            last_patches: PatchCache::new(),
        };
        registry.register(instance_id, RenderNode::Frame(node));
        instance_id
    }

    pub fn is_clipping(&self) -> (r: bool)
        ensures
            r,
    {
        true
    }

    pub fn get_layer_type(&self) -> (layer: Layer)
        ensures
            layer == Layer::DontCare,
    {
        Layer::DontCare
    }

    /// Compares the geometry computed for the occurrence `id_chain` of this
    /// frame with what the host was last told of it, and enqueues an update
    /// that names exactly the fields that changed. Nothing is enqueued where
    /// nothing changed. Sizes and coefficients are number patterns.
    pub fn compute_native_patches(
        &mut self,
        runtime: &mut Runtime,
        id_chain: &Vec<u64>,
        computed_size: (u64, u64),
        transform_coeffs: &Vec<u64>,
        depth: usize,
    )
        ensures
            final(self)@ == old(self)@.patched(
                id_chain@,
                depth,
                computed_size.0,
                computed_size.1,
                transform_coeffs@,
            ),
            ({
                let delta = patch_delta(
                    cached_patch(old(self)@.last_patches, id_chain@),
                    id_chain@,
                    depth,
                    computed_size.0,
                    computed_size.1,
                    transform_coeffs@,
                );
                if delta.has_any_updates() {
                    final(runtime).queued() == old(runtime).queued().push(
                        NativeMessageView::FrameUpdate(delta),
                    )
                } else {
                    final(runtime).queued() == old(runtime).queued()
                }
            }),
            final(runtime).frames() == old(runtime).frames(),
            final(runtime).clipping_ids() == old(runtime).clipping_ids(),
            final(runtime).pushes() == old(runtime).pushes(),
            final(runtime).pops() == old(runtime).pops(),
    {
        let message: Option<FramePatch> = self.last_patches.diff(
            id_chain,
            computed_size,
            transform_coeffs,
            depth,
        );
        match message {
            Some(new_message) => {
                runtime.enqueue_native_message(NativeMessage::FrameUpdate(new_message));
            },
            None => {},
        }
    }

    pub fn get_rendering_children(&self) -> (children: &Vec<u64>)
        ensures
            children@ == self@.children,
    {
        &self.children
    }

    pub fn get_size(&self) -> (size: Option<(Size<u64>, Size<u64>)>)
        ensures
            size == Some((self@.size.0.value, self@.size.1.value)),
    {
        Some((*self.size.0.get(), *self.size.1.get()))
    }

    pub fn get_transform(&self) -> (t: Property<Coefficients>)
        ensures
            t == self@.transform,
    {
        self.transform
    }

    /// Checks the types of what the expressions of width, height and
    /// transform yielded: the first mismatch in that order, if there is one.
    pub fn check_properties(
        &self,
        width: Option<TypedValue>,
        height: Option<TypedValue>,
        transform: Option<TypedValue>,
    ) -> (r: Result<(), EngineError>)
        ensures
            match self@.refreshed(width, height, transform) {
                Ok(_) => r is Ok,
                Err(e) => r == Err::<(), EngineError>(e),
            },
    {
        match refresh_size(*self.size.0.get(), width) {
            Ok(_) => {},
            Err(e) => {
                return Err(e);
            },
        }
        match refresh_size(*self.size.1.get(), height) {
            Ok(_) => {},
            Err(e) => {
                return Err(e);
            },
        }
        match refresh_transform(*self.transform.get(), transform) {
            Ok(_) => Ok(()),
            Err(e) => Err(e),
        }
    }

    /// Takes over what the expressions of width, height and transform yielded
    /// this frame; `None` stands for a property that was not evaluated. The
    /// values must be of the types of their properties: see
    /// [`FrameInstance::check_properties`].
    pub fn compute_properties(
        &mut self,
        width: Option<TypedValue>,
        height: Option<TypedValue>,
        transform: Option<TypedValue>,
    )
        requires
            old(self)@.refreshed(width, height, transform) is Ok,
        ensures
            final(self)@ == old(self)@.refreshed(width, height, transform)->Ok_0,
    {
        match width {
            Some(TypedValue::Size(w)) => {
                self.size.0.set(w);
            },
            _ => {},
        }
        match height {
            Some(TypedValue::Size(h)) => {
                self.size.1.set(h);
            },
            _ => {},
        }
        match transform {
            Some(TypedValue::Transform(t)) => {
                self.transform.set(t);
            },
            _ => {},
        }
    }

    /// Entering the draw of this frame's subtree: from here on the frame
    /// clips what is drawn.
    pub fn handle_will_render(&self, runtime: &mut Runtime, id_chain: &Vec<u64>)
        ensures
            final(runtime).clipping_ids() == old(runtime).clipping_ids().push(id_chain@),
            final(runtime).frames() == old(runtime).frames(),
            final(runtime).queued() == old(runtime).queued(),
            final(runtime).pushes() == old(runtime).pushes(),
            final(runtime).pops() == old(runtime).pops(),
    {
        runtime.push_clipping_stack_id(copy_chain(id_chain));
    }

    /// Leaving the draw of this frame's subtree: the frame clips no more.
    pub fn handle_did_render(&self, runtime: &mut Runtime)
        ensures
            final(runtime).clipping_ids() == (if old(runtime).clipping_ids().len() > 0 {
                old(runtime).clipping_ids().drop_last()
            } else {
                old(runtime).clipping_ids()
            }),
            final(runtime).frames() == old(runtime).frames(),
            final(runtime).queued() == old(runtime).queued(),
            final(runtime).pushes() == old(runtime).pushes(),
            final(runtime).pops() == old(runtime).pops(),
    {
        runtime.pop_clipping_stack_id();
    }

    /// The occurrence `id_chain` of this frame is drawn for the first time:
    /// the host is told to create it, with the clipping frames around it.
    pub fn handle_did_mount(&self, runtime: &mut Runtime, id_chain: &Vec<u64>)
        ensures
            final(runtime).queued() == old(runtime).queued().push(
                NativeMessageView::FrameCreate(
                    AnyCreatePatchView {
                        id_chain: id_chain@,
                        clipping_ids: old(runtime).clipping_ids(),
                    },
                ),
            ),
            final(runtime).frames() == old(runtime).frames(),
            final(runtime).clipping_ids() == old(runtime).clipping_ids(),
            final(runtime).pushes() == old(runtime).pushes(),
            final(runtime).pops() == old(runtime).pops(),
    {
        let clipping_ids: Vec<Vec<u64>> = runtime.get_current_clipping_ids();
        runtime.enqueue_native_message(
            NativeMessage::FrameCreate(AnyCreatePatch { id_chain: copy_chain(id_chain), clipping_ids }),
        );
    }

    /// The frame leaves the drawn tree. The host is not told: a frame that a
    /// branch flip hides for a while must not be deleted on its side.
    pub fn handle_will_unmount(&self, runtime: &mut Runtime)
        ensures
            final(runtime).queued() == old(runtime).queued(),
            final(runtime).frames() == old(runtime).frames(),
            final(runtime).clipping_ids() == old(runtime).clipping_ids(),
            final(runtime).pushes() == old(runtime).pushes(),
            final(runtime).pops() == old(runtime).pops(),
    {
    }
}

} // verus!
