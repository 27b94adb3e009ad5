//! Messages that tell the host which native elements to create and update.

use vstd::prelude::*;

verus! {

/// The fields of a clipping frame that changed since the host last heard of
/// it, under the identifier path that names this occurrence of the frame in
/// the drawn tree. An absent field keeps the value the host has.
pub struct FramePatch {
    pub id_chain: Vec<u64>,
    pub depth: Option<usize>,
    /// Width, as a number pattern.
    pub size_x: Option<u64>,
    /// Height, as a number pattern.
    pub size_y: Option<u64>,
    /// Transform coefficients, as number patterns.
    pub transform: Option<Vec<u64>>,
}

/// Announces a node that the host has not seen before, with the clipping
/// frames that enclose it, outermost first.
pub struct AnyCreatePatch {
    pub id_chain: Vec<u64>,
    pub clipping_ids: Vec<Vec<u64>>,
}

/// One message to the host.
pub enum NativeMessage {
    FrameCreate(AnyCreatePatch),
    FrameUpdate(FramePatch),
    FrameDelete(Vec<u64>),
}

/// What a [`FramePatch`] says.
pub struct FramePatchView {
    pub id_chain: Seq<u64>,
    pub depth: Option<usize>,
    pub size_x: Option<u64>,
    pub size_y: Option<u64>,
    pub transform: Option<Seq<u64>>,
}

/// What an [`AnyCreatePatch`] says.
pub struct AnyCreatePatchView {
    pub id_chain: Seq<u64>,
    pub clipping_ids: Seq<Seq<u64>>,
}

/// What a [`NativeMessage`] says.
pub enum NativeMessageView {
    FrameCreate(AnyCreatePatchView),
    FrameUpdate(FramePatchView),
    FrameDelete(Seq<u64>),
}

/// The paths that a list of identifier paths holds.
pub open spec fn chains_view(chains: Seq<Vec<u64>>) -> Seq<Seq<u64>> {
    chains.map_values(|c: Vec<u64>| c@)
}

/// What a list of messages says, in order.
pub open spec fn messages_view(messages: Seq<NativeMessage>) -> Seq<NativeMessageView> {
    messages.map_values(|m: NativeMessage| m@)
}

/// The patch for `id_chain` that names no field.
pub open spec fn empty_patch(id_chain: Seq<u64>) -> FramePatchView {
    FramePatchView { id_chain, depth: None, size_x: None, size_y: None, transform: None }
}

impl FramePatchView {
    /// The patch names at least one field.
    pub open spec fn has_any_updates(self) -> bool {
        self.depth is Some || self.size_x is Some || self.size_y is Some || self.transform is Some
    }
}

impl View for FramePatch {
    type V = FramePatchView;

    open spec fn view(&self) -> FramePatchView {
        FramePatchView {
            id_chain: self.id_chain@,
            depth: self.depth,
            size_x: self.size_x,
            size_y: self.size_y,
            transform: match self.transform {
                Some(t) => Some(t@),
                None => None,
            },
        }
    }
}

impl View for AnyCreatePatch {
    type V = AnyCreatePatchView;

    open spec fn view(&self) -> AnyCreatePatchView {
        AnyCreatePatchView {
            id_chain: self.id_chain@,
            clipping_ids: chains_view(self.clipping_ids@),
        }
    }
}

impl View for NativeMessage {
    type V = NativeMessageView;

    open spec fn view(&self) -> NativeMessageView {
        match self {
            NativeMessage::FrameCreate(p) => NativeMessageView::FrameCreate(p@),
            NativeMessage::FrameUpdate(p) => NativeMessageView::FrameUpdate(p@),
            NativeMessage::FrameDelete(c) => NativeMessageView::FrameDelete(c@),
        }
    }
}

impl Default for FramePatch {
    fn default() -> (p: FramePatch)
        ensures
            p@ == empty_patch(Seq::<u64>::empty()),
    {
        FramePatch { id_chain: Vec::new(), depth: None, size_x: None, size_y: None, transform: None }
    }
}

impl FramePatch {
    /// The patch names at least one field.
    pub fn has_any_updates(&self) -> (r: bool)
        ensures
            r == self@.has_any_updates(),
    {
        self.depth.is_some() || self.size_x.is_some() || self.size_y.is_some()
            || self.transform.is_some()
    }
}

/// A copy of a list of numbers.
pub fn copy_chain(chain: &Vec<u64>) -> (c: Vec<u64>)
    ensures
        c@ == chain@,
{
    let mut c: Vec<u64> = Vec::new();
    let mut i: usize = 0;
    while i < chain.len()
        invariant
            i <= chain.len(),
            c@ == chain@.take(i as int),
        decreases chain.len() - i,
    {
        c.push(chain[i]);
        i = i + 1;
    }
    c
}

/// Appends a copy of `more` to `list`.
pub fn append_chain(list: &mut Vec<u64>, more: &Vec<u64>)
    ensures
        final(list)@ == old(list)@ + more@,
{
    let mut i: usize = 0;
    while i < more.len()
        invariant
            i <= more.len(),
            list@ == old(list)@ + more@.take(i as int),
        decreases more.len() - i,
    {
        list.push(more[i]);
        assert(list@ =~= old(list)@ + more@.take(i + 1));
        i = i + 1;
    }
    assert(more@.take(i as int) =~= more@);
}

/// Whether two lists of numbers hold the same numbers in the same order.
pub fn chain_eq(a: &Vec<u64>, b: &Vec<u64>) -> (r: bool)
    ensures
        r == (a@ == b@),
{
    if a.len() != b.len() {
        return false;
    }
    let mut i: usize = 0;
    while i < a.len()
        invariant
            i <= a.len(),
            a.len() == b.len(),
            forall|j: int| 0 <= j < i ==> a[j] == b[j],
        decreases a.len() - i,
    {
        if a[i] != b[i] {
            return false;
        }
        i = i + 1;
    }
    assert(a@ =~= b@);
    true
}

/// A copy of a list of identifier paths.
pub fn copy_chains(chains: &Vec<Vec<u64>>) -> (c: Vec<Vec<u64>>)
    ensures
        chains_view(c@) == chains_view(chains@),
{
    let mut c: Vec<Vec<u64>> = Vec::new();
    let mut i: usize = 0;
    while i < chains.len()
        invariant
            i <= chains.len(),
            c.len() == i,
            forall|j: int| 0 <= j < i ==> c[j]@ == chains[j]@,
        decreases chains.len() - i,
    {
        c.push(copy_chain(&chains[i]));
        i = i + 1;
    }
    c
}

} // verus!
