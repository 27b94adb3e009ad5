//! The render node: one element of the tree, in one of its variants.

use vstd::prelude::*;
use crate::conditional::{ConditionalInstance, ConditionalInstanceView};
use crate::frame::{FrameInstance, FrameInstanceView};
use crate::message::{append_chain, copy_chain};
use crate::repeat::{Repeat, RepeatView};
use crate::scope::Scope;
use crate::value::{Coefficients, EngineError, Property, Size, TypedValue};
use crate::value::{refresh_color, refresh_size, refreshed_color, refreshed_size};

verus! {

/// A list that holds the single node `rnp`, to make one node the whole
/// `children` of another.
pub fn wrap_render_node_ptr_into_list(rnp: u64) -> (list: Vec<u64>)
    ensures
        list@ == seq![rnp],
{
    let mut list: Vec<u64> = Vec::new();
    list.push(rnp);
    list
}

/// The tree to render, by the instance id of its root.
pub struct RenderTree {
    pub root: u64,
}

/// How a node asks to be composited.
#[derive(Copy, Clone, Debug, PartialEq, Eq, Structural)]
pub enum Layer {
    Native,
    Scroller,
    Canvas,
    DontCare,
}

/// The variants of a render node.
#[derive(Copy, Clone, Debug, PartialEq, Eq, Structural)]
pub enum NodeKind {
    Component,
    Rectangle,
    Repeat,
    Conditional,
    Frame,
}

/// What a frame never changes of a node: its variant, its identity, the nodes
/// it refers to and the expressions its properties are bound to.
pub struct NodeShape {
    pub kind: NodeKind,
    pub instance_id: u64,
    pub links: Seq<Seq<u64>>,
    pub vtable_ids: Seq<Option<u64>>,
}

/// What a node is instantiated from. Each variant reads the fields it needs.
pub struct InstantiationArgs {
    pub transform: Property<Coefficients>,
    pub size: Option<(Property<Size<u64>>, Property<Size<u64>>)>,
    pub children: Option<Vec<u64>>,
    pub conditional_boolean_expression: Option<Property<bool>>,
}

/// An instance of a template: draws the root of its template, and exposes its
/// properties and the children it was given to the nodes of that template.
pub struct Component {
    pub instance_id: u64,
    pub template: Vec<u64>,
    pub adoptees: Vec<u64>,
    pub properties: Scope,
    pub align: (u64, u64),
    pub origin: (Size<u64>, Size<u64>),
    pub transform: Property<Coefficients>,
}

/// What a [`Component`] holds.
pub struct ComponentView {
    pub instance_id: u64,
    pub template: Seq<u64>,
    pub adoptees: Seq<u64>,
    pub properties: Map<Seq<char>, TypedValue>,
    pub align: (u64, u64),
    pub origin: (Size<u64>, Size<u64>),
    pub transform: Property<Coefficients>,
}

/// A leaf that draws a filled rectangle of its own size. Alignment, sizes
/// and origin are number patterns; the fill is packed RGBA.
#[derive(Copy, Clone, Debug)]
pub struct Rectangle {
    pub instance_id: u64,
    pub align: (u64, u64),
    pub size: (Property<Size<u64>>, Property<Size<u64>>),
    pub origin: (Size<u64>, Size<u64>),
    pub transform: Property<Coefficients>,
    pub fill: Property<u32>,
}

/// One element of the tree.
pub enum RenderNode {
    Component(Component),
    Rectangle(Rectangle),
    Repeat(Repeat),
    Conditional(ConditionalInstance),
    Frame(FrameInstance),
}

/// What a [`RenderNode`] holds.
pub enum RenderNodeView {
    Component(ComponentView),
    Rectangle(Rectangle),
    Repeat(RepeatView),
    Conditional(ConditionalInstanceView),
    Frame(FrameInstanceView),
}

/// A length of `size` within `bound` comes to `pixels`: pixels are absolute,
/// and a percentage is what `percent_of` makes of the bound and the
/// percentage. All numbers are patterns.
pub open spec fn resolves_to<F: Fn(u64, u64) -> u64>(
    percent_of: &F,
    size: Size<u64>,
    bound: u64,
    pixels: u64,
) -> bool {
    match size {
        Size::Pixel(p) => pixels == p,
        Size::Percent(p) => call_ensures(*percent_of, (bound, p), pixels),
    }
}

/// Resolves a length of `size` within `bound`. The arithmetic of a
/// percentage is `percent_of`'s, which is given the bound and the
/// percentage.
pub fn resolve_size<F: Fn(u64, u64) -> u64>(size: Size<u64>, bound: u64, percent_of: &F) -> (pixels:
    u64)
    requires
        forall|b: u64, p: u64| call_requires(*percent_of, (b, p)),
    ensures
        resolves_to(percent_of, size, bound, pixels),
{
    match size {
        Size::Pixel(p) => p,
        Size::Percent(p) => percent_of(bound, p),
    }
}

/// Every id of `list` is smaller than `bound`.
pub open spec fn all_below(list: Seq<u64>, bound: u64) -> bool {
    forall|i: int| 0 <= i < list.len() ==> #[trigger] list[i] < bound
}

impl NodeShape {
    /// Every node that this one refers to has a smaller id than `bound`.
    pub open spec fn links_below(self, bound: u64) -> bool {
        forall|i: int| 0 <= i < self.links.len() ==> all_below(#[trigger] self.links[i], bound)
    }

    /// No property is bound to an expression.
    pub open spec fn is_literal(self) -> bool {
        forall|i: int| 0 <= i < self.vtable_ids.len() ==> #[trigger] self.vtable_ids[i] is None
    }
}

impl View for Component {
    type V = ComponentView;

    open spec fn view(&self) -> ComponentView {
        ComponentView {
            instance_id: self.instance_id,
            template: self.template@,
            adoptees: self.adoptees@,
            properties: self.properties@,
            align: self.align,
            origin: self.origin,
            transform: self.transform,
        }
    }
}

impl ComponentView {
    pub open spec fn shape(self) -> NodeShape {
        NodeShape {
            kind: NodeKind::Component,
            instance_id: self.instance_id,
            links: seq![self.template],
            vtable_ids: seq![self.transform.vtable_id],
        }
    }
}

impl Component {
    /// A component has no expression-bound properties of its own to refresh.
    pub fn eval_properties_in_place(&mut self)
        ensures
            final(self)@ == old(self)@,
    {
    }

    /// What a component draws beneath it: the root of its template, not the
    /// children it was given.
    pub fn get_children(&self) -> (children: &Vec<u64>)
        ensures
            children@ == self@.template,
    {
        &self.template
    }
}

impl View for Rectangle {
    type V = Rectangle;

    open spec fn view(&self) -> Rectangle {
        *self
    }
}

impl Rectangle {
    pub open spec fn shape(self) -> NodeShape {
        NodeShape {
            kind: NodeKind::Rectangle,
            instance_id: self.instance_id,
            links: seq![],
            vtable_ids: seq![
                self.size.0.vtable_id,
                self.size.1.vtable_id,
                self.fill.vtable_id,
                self.transform.vtable_id,
            ],
        }
    }

    /// The rectangle once width, height and fill have taken the values that
    /// their expressions yielded, or the first mismatch of types in that
    /// order. `None` stands for a property that was not evaluated and keeps
    /// its value.
    pub open spec fn refreshed(
        self,
        width: Option<TypedValue>,
        height: Option<TypedValue>,
        fill: Option<TypedValue>,
    ) -> Result<Rectangle, EngineError> {
        match refreshed_size(self.size.0.value, width) {
            Err(e) => Err(e),
            Ok(w) => match refreshed_size(self.size.1.value, height) {
                Err(e) => Err(e),
                Ok(h) => match refreshed_color(self.fill.value, fill) {
                    Err(e) => Err(e),
                    Ok(f) => Ok(
                        Rectangle {
                            size: (
                                Property { value: w, ..self.size.0 },
                                Property { value: h, ..self.size.1 },
                            ),
                            fill: Property { value: f, ..self.fill },
                            ..self
                        },
                    ),
                },
            },
        }
    }

    /// Checks the types of what the expressions of width, height and fill
    /// yielded: the first mismatch in that order, if there is one.
    pub fn check_properties(
        &self,
        width: Option<TypedValue>,
        height: Option<TypedValue>,
        fill: Option<TypedValue>,
    ) -> (r: Result<(), EngineError>)
        ensures
            match self@.refreshed(width, height, fill) {
                Ok(_) => r is Ok,
                Err(e) => r == Err::<(), EngineError>(e),
            },
    {
        match refresh_size(*self.size.0.get(), width) {
            Ok(_) => {},
            Err(e) => {
                return Err(e);
            },
        }
        match refresh_size(*self.size.1.get(), height) {
            Ok(_) => {},
            Err(e) => {
                return Err(e);
            },
        }
        match refresh_color(*self.fill.get(), fill) {
            Ok(_) => Ok(()),
            Err(e) => Err(e),
        }
    }

    /// Takes over what the expressions of width, height and fill yielded this
    /// frame; `None` stands for a property that was not evaluated. The
    /// values must be of the types of their properties: see
    /// [`Rectangle::check_properties`].
    pub fn eval_properties_in_place(
        &mut self,
        width: Option<TypedValue>,
        height: Option<TypedValue>,
        fill: Option<TypedValue>,
    )
        requires
            old(self)@.refreshed(width, height, fill) is Ok,
        ensures
            final(self)@ == old(self)@.refreshed(width, height, fill)->Ok_0,
    {
        match width {
            Some(TypedValue::Size(w)) => {
                self.size.0.set(w);
            },
            _ => {},
        }
        match height {
            Some(TypedValue::Size(h)) => {
                self.size.1.set(h);
            },
            _ => {},
        }
        match fill {
            Some(TypedValue::Color(f)) => {
                self.fill.set(f);
            },
            _ => {},
        }
    }
}

impl View for RenderNode {
    type V = RenderNodeView;

    open spec fn view(&self) -> RenderNodeView {
        match self {
            RenderNode::Component(n) => RenderNodeView::Component(n@),
            RenderNode::Rectangle(n) => RenderNodeView::Rectangle(n@),
            RenderNode::Repeat(n) => RenderNodeView::Repeat(n@),
            RenderNode::Conditional(n) => RenderNodeView::Conditional(n@),
            RenderNode::Frame(n) => RenderNodeView::Frame(n@),
        }
    }
}

impl RenderNodeView {
    pub open spec fn shape(self) -> NodeShape {
        match self {
            RenderNodeView::Component(n) => n.shape(),
            RenderNodeView::Rectangle(n) => n.shape(),
            RenderNodeView::Repeat(n) => n.shape(),
            RenderNodeView::Conditional(n) => n.shape(),
            RenderNodeView::Frame(n) => n.shape(),
        }
    }

    pub open spec fn instance_id(self) -> u64 {
        self.shape().instance_id
    }

    /// The node is a structural pass-through: it is not drawn itself, its
    /// children take its place.
    pub open spec fn flattens(self) -> bool {
        self is Repeat || self is Conditional
    }

    /// The nodes this one currently draws beneath it, in order. For a repeat
    /// these are the nodes each of its materialized children draws.
    pub open spec fn rendering_children(self) -> Seq<u64> {
        match self {
            RenderNodeView::Component(n) => n.template,
            RenderNodeView::Rectangle(_) => Seq::empty(),
            RenderNodeView::Repeat(n) => n.children,
            RenderNodeView::Conditional(n) => n.rendering_children(),
            RenderNodeView::Frame(n) => n.children,
        }
    }

    /// Every node this one refers to, in order: the template of a component
    /// and of a repeat, both branches of a conditional, the children of a
    /// frame.
    pub open spec fn linked(self) -> Seq<u64> {
        match self {
            RenderNodeView::Component(n) => n.template,
            RenderNodeView::Rectangle(_) => Seq::empty(),
            RenderNodeView::Repeat(n) => n.children,
            RenderNodeView::Conditional(n) => n.true_branch_children + n.false_branch_children,
            RenderNodeView::Frame(n) => n.children,
        }
    }

    /// The node's own size; `None` for a node that takes the bounds it is
    /// given.
    pub open spec fn size(self) -> Option<(Size<u64>, Size<u64>)> {
        match self {
            RenderNodeView::Rectangle(n) => Some((n.size.0.value, n.size.1.value)),
            RenderNodeView::Frame(n) => Some((n.size.0.value, n.size.1.value)),
            _ => None,
        }
    }

    /// The node's own transform.
    pub open spec fn transform(self) -> Coefficients {
        match self {
            RenderNodeView::Component(n) => n.transform.value,
            RenderNodeView::Rectangle(n) => n.transform.value,
            RenderNodeView::Repeat(n) => n.transform.value,
            RenderNodeView::Conditional(n) => n.transform.value,
            RenderNodeView::Frame(n) => n.transform.value,
        }
    }

    /// Where the node is aligned within its parent; zero on both axes for a
    /// node that has no alignment of its own.
    pub open spec fn align(self) -> (u64, u64) {
        match self {
            RenderNodeView::Component(n) => n.align,
            RenderNodeView::Rectangle(n) => n.align,
            _ => (0u64, 0u64),
        }
    }

    /// The point the node's transform is applied about; the top left corner
    /// for a node that has no origin of its own.
    pub open spec fn origin(self) -> (Size<u64>, Size<u64>) {
        match self {
            RenderNodeView::Component(n) => n.origin,
            RenderNodeView::Rectangle(n) => n.origin,
            _ => (Size::Pixel(0u64), Size::Pixel(0u64)),
        }
    }
}

impl RenderNode {
    pub fn get_instance_id(&self) -> (id: u64)
        ensures
            id == self@.instance_id(),
    {
        match self {
            RenderNode::Component(n) => n.instance_id,
            RenderNode::Rectangle(n) => n.instance_id,
            RenderNode::Repeat(n) => n.instance_id,
            RenderNode::Conditional(n) => n.instance_id,
            RenderNode::Frame(n) => n.instance_id,
        }
    }

    /// Whether the node is a structural pass-through.
    pub fn should_flatten(&self) -> (r: bool)
        ensures
            r == self@.flattens(),
    {
        match self {
            RenderNode::Repeat(n) => n.should_flatten(),
            RenderNode::Conditional(n) => n.should_flatten(),
            _ => false,
        }
    }

    pub fn get_size(&self) -> (size: Option<(Size<u64>, Size<u64>)>)
        ensures
            size == self@.size(),
    {
        match self {
            RenderNode::Rectangle(n) => Some((*n.size.0.get(), *n.size.1.get())),
            RenderNode::Frame(n) => n.get_size(),
            _ => None,
        }
    }

    /// The size of this node in pixels within the bounds of its parent.
    /// Pixel sizes are absolute, percentages are taken of the parent's
    /// bound on the same axis by `percent_of`, and a node without a size of
    /// its own takes the bounds unchanged.
    pub fn get_size_calc<F: Fn(u64, u64) -> u64>(&self, bounds: (u64, u64), percent_of: &F) -> (size:
        (u64, u64))
        requires
            forall|b: u64, p: u64| call_requires(*percent_of, (b, p)),
        ensures
            match self@.size() {
                Some((width, height)) => {
                    &&& resolves_to(percent_of, width, bounds.0, size.0)
                    &&& resolves_to(percent_of, height, bounds.1, size.1)
                },
                None => size == bounds,
            },
    {
        match self.get_size() {
            Some(size_raw) => (
                resolve_size(size_raw.0, bounds.0, percent_of),
                resolve_size(size_raw.1, bounds.1, percent_of),
            ),
            None => bounds,
        }
    }

    pub fn get_transform(&self) -> (t: Coefficients)
        ensures
            t == self@.transform(),
    {
        match self {
            RenderNode::Component(n) => *n.transform.get(),
            RenderNode::Rectangle(n) => *n.transform.get(),
            RenderNode::Repeat(n) => *n.transform.get(),
            RenderNode::Conditional(n) => *n.transform.get(),
            RenderNode::Frame(n) => *n.transform.get(),
        }
    }

    pub fn get_align(&self) -> (align: (u64, u64))
        ensures
            align == self@.align(),
    {
        match self {
            RenderNode::Component(n) => n.align,
            RenderNode::Rectangle(n) => n.align,
            _ => (0, 0),
        }
    }

    pub fn get_origin(&self) -> (origin: (Size<u64>, Size<u64>))
        ensures
            origin == self@.origin(),
    {
        match self {
            RenderNode::Component(n) => n.origin,
            RenderNode::Rectangle(n) => n.origin,
            _ => (Size::Pixel(0), Size::Pixel(0)),
        }
    }

    /// Whether the node clips what is drawn beneath it.
    pub fn is_clipping(&self) -> (r: bool)
        ensures
            r == (self@ is Frame),
    {
        match self {
            RenderNode::Frame(n) => n.is_clipping(),
            _ => false,
        }
    }

    pub fn get_layer_type(&self) -> (layer: Layer)
        ensures
            layer == Layer::DontCare,
    {
        match self {
            RenderNode::Conditional(n) => n.get_layer_type(),
            RenderNode::Frame(n) => n.get_layer_type(),
            _ => Layer::DontCare,
        }
    }

    /// Every node this one refers to, in order.
    pub fn get_linked(&self) -> (linked: Vec<u64>)
        ensures
            linked@ == self@.linked(),
    {
        match self {
            RenderNode::Component(n) => copy_chain(&n.template),
            RenderNode::Rectangle(_) => Vec::new(),
            RenderNode::Repeat(n) => copy_chain(&n.children),
            RenderNode::Conditional(n) => {
                let mut linked: Vec<u64> = copy_chain(&n.true_branch_children);
                append_chain(&mut linked, &n.false_branch_children);
                linked
            },
            RenderNode::Frame(n) => copy_chain(&n.children),
        }
    }

    /// The nodes this one currently draws beneath it, in order.
    pub fn get_rendering_children(&self) -> (children: Vec<u64>)
        ensures
            children@ == self@.rendering_children(),
    {
        match self {
            RenderNode::Component(n) => copy_chain(&n.template),
            RenderNode::Rectangle(_) => Vec::new(),
            RenderNode::Repeat(n) => copy_chain(&n.children),
            RenderNode::Conditional(n) => copy_chain(n.get_rendering_children()),
            RenderNode::Frame(n) => copy_chain(&n.children),
        }
    }
}

} // verus!
