//! Change detection between what a frame computed and what the host was last
//! told, one identifier path at a time.

use vstd::prelude::*;
use crate::message::{chain_eq, copy_chain, empty_patch, FramePatch, FramePatchView};
use crate::scalar::{same_number, scalar_eq};

verus! {

/// A depth differs from the cached one, or none is cached.
pub open spec fn depth_changed(cached: Option<usize>, latest: usize) -> bool {
    cached != Some(latest)
}

/// A number differs from the cached one, or none is cached.
pub open spec fn number_changed(cached: Option<u64>, latest: u64) -> bool {
    match cached {
        Some(c) => !same_number(latest, c),
        None => true,
    }
}

/// Two coefficient lists have the same length and are the same number at
/// every position.
pub open spec fn same_coefficients(a: Seq<u64>, b: Seq<u64>) -> bool {
    &&& a.len() == b.len()
    &&& forall|i: int| 0 <= i < a.len() ==> same_number(#[trigger] a[i], b[i])
}

/// A coefficient list differs from the cached one, or none is cached.
pub open spec fn transform_changed(cached: Option<Seq<u64>>, latest: Seq<u64>) -> bool {
    match cached {
        Some(c) => !same_coefficients(latest, c),
        None => true,
    }
}

/// The message owed to the host for `id_chain` when `cached` is what it was
/// last told: exactly the fields that changed.
pub open spec fn patch_delta(
    cached: FramePatchView,
    id_chain: Seq<u64>,
    depth: usize,
    size_x: u64,
    size_y: u64,
    transform: Seq<u64>,
) -> FramePatchView {
    FramePatchView {
        id_chain,
        depth: if depth_changed(cached.depth, depth) {
            Some(depth)
        } else {
            None
        },
        size_x: if number_changed(cached.size_x, size_x) {
            Some(size_x)
        } else {
            None
        },
        size_y: if number_changed(cached.size_y, size_y) {
            Some(size_y)
        } else {
            None
        },
        transform: if transform_changed(cached.transform, transform) {
            Some(transform)
        } else {
            None
        },
    }
}

/// What the host knows of `id_chain` once the message is sent: the changed
/// fields take their new values, the others stay.
pub open spec fn patch_merged(
    cached: FramePatchView,
    id_chain: Seq<u64>,
    depth: usize,
    size_x: u64,
    size_y: u64,
    transform: Seq<u64>,
) -> FramePatchView {
    FramePatchView {
        id_chain,
        depth: if depth_changed(cached.depth, depth) {
            Some(depth)
        } else {
            cached.depth
        },
        size_x: if number_changed(cached.size_x, size_x) {
            Some(size_x)
        } else {
            cached.size_x
        },
        size_y: if number_changed(cached.size_y, size_y) {
            Some(size_y)
        } else {
            cached.size_y
        },
        transform: if transform_changed(cached.transform, transform) {
            Some(transform)
        } else {
            cached.transform
        },
    }
}

/// The mapping that a list of cached patches stands for, by identifier path.
pub open spec fn cache_map(entries: Seq<FramePatch>) -> Map<Seq<u64>, FramePatchView>
    decreases entries.len(),
{
    if entries.len() == 0 {
        Map::empty()
    } else {
        cache_map(entries.drop_last()).insert(entries.last().id_chain@, entries.last()@)
    }
}

/// What the host was last told of `id_chain`: nothing, where the cache has no
/// entry for it.
pub open spec fn cached_patch(
    cache: Map<Seq<u64>, FramePatchView>,
    id_chain: Seq<u64>,
) -> FramePatchView {
    if cache.contains_key(id_chain) {
        cache[id_chain]
    } else {
        empty_patch(id_chain)
    }
}

proof fn lemma_cache_map_tail_irrelevant(entries: Seq<FramePatch>, from: int, key: Seq<u64>)
    requires
        0 <= from <= entries.len(),
        forall|j: int| from <= j < entries.len() ==> entries[j].id_chain@ != key,
    ensures
        cache_map(entries).contains_key(key) == cache_map(entries.take(from)).contains_key(key),
        cache_map(entries).contains_key(key) ==> cache_map(entries)[key] == cache_map(
            entries.take(from),
        )[key],
    decreases entries.len(),
{
    if from == entries.len() {
        assert(entries.take(from) =~= entries);
    } else {
        let shorter = entries.drop_last();
        lemma_cache_map_tail_irrelevant(shorter, from, key);
        assert(shorter.take(from) =~= entries.take(from));
    }
}

proof fn lemma_cache_map_update(entries: Seq<FramePatch>, k: int, replacement: FramePatch)
    requires
        0 <= k < entries.len(),
        replacement.id_chain@ == entries[k].id_chain@,
        forall|j: int| k < j < entries.len() ==> entries[j].id_chain@ != entries[k].id_chain@,
    ensures
        cache_map(entries.update(k, replacement)) == cache_map(entries).insert(
            entries[k].id_chain@,
            replacement@,
        ),
    decreases entries.len(),
{
    let updated = entries.update(k, replacement);
    if k == entries.len() - 1 {
        assert(updated.drop_last() =~= entries.drop_last());
    } else {
        lemma_cache_map_update(entries.drop_last(), k, replacement);
        assert(updated.drop_last() =~= entries.drop_last().update(k, replacement));
    }
}

/// Whether two coefficient lists are the same numbers throughout.
pub fn coefficients_eq(a: &Vec<u64>, b: &Vec<u64>) -> (r: bool)
    ensures
        r == same_coefficients(a@, b@),
{
    if a.len() != b.len() {
        return false;
    }
    let mut i: usize = 0;
    while i < a.len()
        invariant
            i <= a.len(),
            a.len() == b.len(),
            forall|j: int| 0 <= j < i ==> same_number(#[trigger] a@[j], b@[j]),
        decreases a.len() - i,
    {
        if !scalar_eq(a[i], b[i]) {
            return false;
        }
        i = i + 1;
    }
    true
}

/// What the host was last told, by identifier path.
pub struct PatchCache {
    pub entries: Vec<FramePatch>,
}

impl View for PatchCache {
    type V = Map<Seq<u64>, FramePatchView>;

    open spec fn view(&self) -> Map<Seq<u64>, FramePatchView> {
        cache_map(self.entries@)
    }
}

impl PatchCache {
    /// A cache that has heard of no path.
    pub fn new() -> (c: PatchCache)
        ensures
            c@ == Map::<Seq<u64>, FramePatchView>::empty(),
    {
        PatchCache { entries: Vec::new() }
    }

    /// Whether the host was ever told of `id_chain`.
    pub fn contains(&self, id_chain: &Vec<u64>) -> (r: bool)
        ensures
            r == self@.contains_key(id_chain@),
    {
        self.position(id_chain).is_some()
    }

    /// Where the entry for `id_chain` stands.
    fn position(&self, id_chain: &Vec<u64>) -> (at: Option<usize>)
        ensures
            at is None <==> !self@.contains_key(id_chain@),
            at matches Some(k) ==> {
                &&& k < self.entries.len()
                &&& self.entries[k as int].id_chain@ == id_chain@
                &&& self.entries[k as int]@ == self@[id_chain@]
                &&& forall|j: int|
                    k < j < self.entries.len() ==> self.entries[j].id_chain@ != id_chain@
            },
    {
        let mut i: usize = self.entries.len();
        while i > 0
            invariant
                i <= self.entries.len(),
                forall|j: int| i <= j < self.entries.len() ==> self.entries[j].id_chain@ != id_chain@,
            decreases i,
        {
            i = i - 1;
            if chain_eq(&self.entries[i].id_chain, id_chain) {
                proof {
                    lemma_cache_map_tail_irrelevant(self.entries@, i + 1, id_chain@);
                }
                return Some(i);
            }
        }
        proof {
            lemma_cache_map_tail_irrelevant(self.entries@, 0, id_chain@);
        }
        None
    }

    /// Compares what a frame computed for `id_chain` with what the host was
    /// last told, remembers the new values, and returns the message that
    /// brings the host up to date: the changed fields and no others, or
    /// `None` where nothing changed. A path never seen before has every field
    /// changed.
    pub fn diff(
        &mut self,
        id_chain: &Vec<u64>,
        computed_size: (u64, u64),
        transform_coeffs: &Vec<u64>,
        depth: usize,
    ) -> (message: Option<FramePatch>)
        ensures
            final(self)@ == old(self)@.insert(
                id_chain@,
                patch_merged(
                    cached_patch(old(self)@, id_chain@),
                    id_chain@,
                    depth,
                    computed_size.0,
                    computed_size.1,
                    transform_coeffs@,
                ),
            ),
            ({
                let delta = patch_delta(
                    cached_patch(old(self)@, id_chain@),
                    id_chain@,
                    depth,
                    computed_size.0,
                    computed_size.1,
                    transform_coeffs@,
                );
                if delta.has_any_updates() {
                    message matches Some(m) && m@ == delta
                } else {
                    message is None
                }
            }),
    {
        let found: Option<usize> = self.position(id_chain);
        let at: usize = match found {
            Some(k) => k,
            None => {
                let mut fresh: FramePatch = FramePatch::default();
                fresh.id_chain = copy_chain(id_chain);
                self.entries.push(fresh);
                proof {
                    assert(self.entries@.drop_last() =~= old(self).entries@);
                }
                self.entries.len() - 1
            },
        };
        let ghost before = self.entries@;
        let ghost cached = cached_patch(old(self)@, id_chain@);
        assert(cache_map(before) == old(self)@.insert(id_chain@, cached)) by {
        }

        let mut new_message: FramePatch = FramePatch::default();
        new_message.id_chain = copy_chain(id_chain);
        let mut has_any_updates: bool = false;

        let last_patch: &mut FramePatch = &mut self.entries[at];

        let is_new_depth: bool = match last_patch.depth {
            Some(cached_value) => depth != cached_value,
            None => true,
        };
        if is_new_depth {
            new_message.depth = Some(depth);
            last_patch.depth = Some(depth);
            has_any_updates = true;
        }

        let is_new_size_x: bool = match last_patch.size_x {
            Some(cached_value) => !scalar_eq(computed_size.0, cached_value),
            None => true,
        };
        if is_new_size_x {
            new_message.size_x = Some(computed_size.0);
            last_patch.size_x = Some(computed_size.0);
            has_any_updates = true;
        }

        let is_new_size_y: bool = match last_patch.size_y {
            Some(cached_value) => !scalar_eq(computed_size.1, cached_value),
            None => true,
        };
        if is_new_size_y {
            new_message.size_y = Some(computed_size.1);
            last_patch.size_y = Some(computed_size.1);
            has_any_updates = true;
        }

        let is_new_transform: bool = match &last_patch.transform {
            Some(cached_transform) => !coefficients_eq(transform_coeffs, cached_transform),
            None => true,
        };
        if is_new_transform {
            new_message.transform = Some(copy_chain(transform_coeffs));
            last_patch.transform = Some(copy_chain(transform_coeffs));
            has_any_updates = true;
        }

        proof {
            let merged = patch_merged(
                cached,
                id_chain@,
                depth,
                computed_size.0,
                computed_size.1,
                transform_coeffs@,
            );
            lemma_cache_map_update(before, at as int, self.entries@[at as int]);
        }

        if has_any_updates {
            Some(new_message)
        } else {
            None
        }
    }
}

/// A field that was just brought up to date is unchanged when the same
/// numbers are computed again. A NaN is the one exception: it differs from
/// itself, so it is reported on every frame.
pub proof fn lemma_patch_is_idempotent(
    cached: FramePatchView,
    id_chain: Seq<u64>,
    depth: usize,
    size_x: u64,
    size_y: u64,
    transform: Seq<u64>,
)
    requires
        !crate::scalar::is_nan(size_x),
        !crate::scalar::is_nan(size_y),
        forall|i: int| 0 <= i < transform.len() ==> !crate::scalar::is_nan(#[trigger] transform[i]),
    ensures
        !patch_delta(
            patch_merged(cached, id_chain, depth, size_x, size_y, transform),
            id_chain,
            depth,
            size_x,
            size_y,
            transform,
        ).has_any_updates(),
        patch_merged(
            patch_merged(cached, id_chain, depth, size_x, size_y, transform),
            id_chain,
            depth,
            size_x,
            size_y,
            transform,
        ) == patch_merged(cached, id_chain, depth, size_x, size_y, transform),
{
    let merged = patch_merged(cached, id_chain, depth, size_x, size_y, transform);
}

} // verus!
