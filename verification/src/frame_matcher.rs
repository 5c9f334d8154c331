//! Matching of decoded colour to the alpha that waits for it.
use crate::ordered::{keys_of, remove_all, trim};
use std::collections::BTreeMap;
use vstd::prelude::*;

verus! {

broadcast use {vstd::std_specs::btree::group_btree_axioms, vstd::laws_cmp::group_laws_cmp};

/// How a plane of a decoded texture is to be viewed.
#[derive(Clone, Copy, Debug, PartialEq, Eq, Structural)]
pub enum PlaneViewDimension {
    Texture2D { most_detailed_mip: u32 },
    Texture2DArray { most_detailed_mip: u32, first_array_slice: u32 },
}

/// The number of subresources of a texture, as far as 32 bits hold it.
pub open spec fn subresources(array_size: u32, mip_levels: u32) -> int {
    if array_size * mip_levels <= u32::MAX {
        array_size * mip_levels
    } else {
        u32::MAX as int
    }
}

/// The view of one subresource of a texture.
pub open spec fn plane_view(array_size: u32, mip_levels: u32, subresource: u32) -> PlaneViewDimension {
    if array_size == 1 {
        PlaneViewDimension::Texture2D { most_detailed_mip: subresource % mip_levels }
    } else {
        PlaneViewDimension::Texture2DArray {
            most_detailed_mip: subresource % mip_levels,
            first_array_slice: subresource / mip_levels,
        }
    }
}

/// The view of one subresource of a texture: its mip level, and its slice where
/// the texture is an array.
pub fn select_plane_view_dimension(
    array_size: u32,
    mip_levels: u32,
    subresource: u32,
) -> (selected: Result<PlaneViewDimension, &'static str>)
    ensures
        match selected {
            Ok(view) => {
                &&& subresource < subresources(array_size, mip_levels)
                &&& view == plane_view(array_size, mip_levels, subresource)
            },
            Err(text) => {
                &&& subresource >= subresources(array_size, mip_levels)
                &&& text@ == "decoded D3D11 texture subresource is outside its texture"@
            },
        },
{
    assert(array_size * mip_levels <= u32::MAX * u32::MAX) by (nonlinear_arith)
        requires
            array_size <= u32::MAX,
            mip_levels <= u32::MAX,
    ;
    let count: u64 = array_size as u64 * mip_levels as u64;
    let limit: u64 = if count <= u32::MAX as u64 {
        count
    } else {
        u32::MAX as u64
    };
    if subresource as u64 >= limit {
        return Err("decoded D3D11 texture subresource is outside its texture");
    }
    proof {
        if mip_levels == 0 {
            assert(array_size * mip_levels == 0) by (nonlinear_arith)
                requires
                    mip_levels == 0,
            ;
        }
    }
    let most_detailed_mip: u32 = subresource % mip_levels;
    let first_array_slice: u32 = subresource / mip_levels;
    if array_size == 1 {
        Ok(PlaneViewDimension::Texture2D { most_detailed_mip })
    } else {
        Ok(PlaneViewDimension::Texture2DArray { most_detailed_mip, first_array_slice })
    }
}

/// A selected view lies within the texture, and no two subresources of a
/// texture have the same view.
pub proof fn law_views_tell_subresources_apart(
    array_size: u32,
    mip_levels: u32,
    subresource: u32,
    other: u32,
)
    requires
        subresource < subresources(array_size, mip_levels),
        other < subresources(array_size, mip_levels),
    ensures
        subresource % mip_levels < mip_levels,
        subresource / mip_levels < array_size,
        subresource % mip_levels == other % mip_levels && subresource / mip_levels == other
            / mip_levels ==> subresource == other,
        array_size == 1 ==> subresource / mip_levels == 0,
{
    if mip_levels == 0 {
        assert(array_size * mip_levels == 0) by (nonlinear_arith)
            requires
                mip_levels == 0,
        ;
    }
    let levels = mip_levels as int;
    vstd::arithmetic::div_mod::lemma_fundamental_div_mod(subresource as int, levels);
    vstd::arithmetic::div_mod::lemma_fundamental_div_mod(other as int, levels);
    assert(subresource as int / levels < array_size) by (nonlinear_arith)
        requires
            levels > 0,
            subresource < array_size * levels,
            array_size >= 0,
            subresource >= 0,
    ;
}

/// The frame id and the alpha plane of a waiting frame.
pub open spec fn alpha_contents(entry: (u32, Vec<u8>)) -> (u32, Seq<u8>) {
    let (frame_id, alpha) = entry;
    (frame_id, alpha@)
}

/// Alpha planes that wait for their colour to be decoded, by presentation time.
pub struct PendingAlphaFrames {
    capacity: usize,
    frames: BTreeMap<u64, (u32, Vec<u8>)>,
}

impl View for PendingAlphaFrames {
    type V = Map<u64, (u32, Seq<u8>)>;

    closed spec fn view(&self) -> Map<u64, (u32, Seq<u8>)> {
        self.frames@.map_values(|entry: (u32, Vec<u8>)| alpha_contents(entry))
    }
}

/// The key of `decoded` that `pending` holds and that is the largest such.
pub open spec fn is_latest_match(
    pending: Map<u64, (u32, Seq<u8>)>,
    decoded: Seq<u64>,
    pts_us: u64,
) -> bool {
    &&& decoded.contains(pts_us)
    &&& pending.contains_key(pts_us)
    &&& forall|i: int|
        0 <= i < decoded.len() && pending.contains_key(#[trigger] decoded[i]) ==> decoded[i]
            <= pts_us
}

impl PendingAlphaFrames {
    /// How many planes may wait.
    pub closed spec fn limit(&self) -> nat {
        self.capacity as nat
    }

    /// No more planes wait than may.
    pub open spec fn wf(&self) -> bool {
        &&& self.limit() > 0
        &&& self@.dom().finite()
        &&& self@.dom().len() <= self.limit()
    }

    /// Nothing waits yet.
    pub fn new(capacity: usize) -> (pending: Self)
        requires
            capacity > 0,
        ensures
            pending.wf(),
            pending.limit() == capacity,
            pending@ == Map::<u64, (u32, Seq<u8>)>::empty(),
    {
        let pending = PendingAlphaFrames { capacity, frames: BTreeMap::new() };
        assert(pending@.dom() =~= Set::<u64>::empty());
        pending
    }

    /// Lets a plane wait; the planes with the smallest presentation times make
    /// room.
    pub fn insert(&mut self, pts_us: u64, frame_id: u32, alpha: Vec<u8>)
        requires
            old(self).wf(),
        ensures
            final(self).wf(),
            final(self).limit() == old(self).limit(),
            final(self)@ == crate::ordered::keep_largest(
                old(self)@.insert(pts_us, (frame_id, alpha@)),
                old(self).limit(),
            ),
    {
        let ghost contents = |entry: (u32, Vec<u8>)| alpha_contents(entry);
        let ghost grown = self.frames@.insert(pts_us, (frame_id, alpha));
        self.frames.insert(pts_us, (frame_id, alpha));
        trim(&mut self.frames, self.capacity);
        proof {
            crate::ordered::lemma_keep_largest(grown, self.capacity as nat);
            let viewed = old(self)@.insert(pts_us, (frame_id, alpha@));
            assert(viewed =~= grown.map_values(contents));
            assert(viewed.dom() =~= grown.dom());
            assert(crate::ordered::sorted_keys(viewed) == crate::ordered::sorted_keys(grown));
            assert(crate::ordered::keep_largest(viewed, self.capacity as nat)
                =~= crate::ordered::keep_largest(grown, self.capacity as nat).map_values(contents));
            assert(self@.dom() =~= self.frames@.dom());
        }
    }

    /// How many planes wait.
    pub fn len(&self) -> (count: usize)
        ensures
            count == self@.dom().len(),
    {
        assert(self@.dom() =~= self.frames@.dom());
        self.frames.len()
    }

    /// Takes the plane that belongs to the latest decoded frame, and forgets
    /// every plane before it. Nothing changes where no plane matches.
    pub fn take_latest_matching(&mut self, decoded_pts: &[u64]) -> (matched: Option<
        (u64, u32, Vec<u8>),
    >)
        requires
            old(self).wf(),
        ensures
            final(self).wf(),
            final(self).limit() == old(self).limit(),
            match matched {
                Some((pts_us, frame_id, alpha)) => {
                    &&& is_latest_match(old(self)@, decoded_pts@, pts_us)
                    &&& old(self)@[pts_us] == (frame_id, alpha@)
                    &&& final(self)@ == old(self)@.filter_keys(|key: u64| key > pts_us)
                },
                None => {
                    &&& final(self)@ == old(self)@
                    &&& forall|i: int|
                        0 <= i < decoded_pts@.len() ==> !old(self)@.contains_key(
                            #[trigger] decoded_pts@[i],
                        )
                },
            },
    {
        let mut best: Option<u64> = None;
        let mut i: usize = 0;
        while i < decoded_pts.len()
            invariant
                i <= decoded_pts@.len(),
                self@.dom() == self.frames@.dom(),
                match best {
                    Some(pts_us) => is_latest_match(self@, decoded_pts@.take(i as int), pts_us),
                    None => forall|k: int|
                        0 <= k < i ==> !self@.contains_key(#[trigger] decoded_pts@[k]),
                },
            decreases decoded_pts@.len() - i,
        {
            let pts_us: u64 = decoded_pts[i];
            let ghost shorter = decoded_pts@.take(i as int);
            let ghost longer = decoded_pts@.take(i + 1);
            proof {
                assert(longer =~= shorter.push(pts_us));
                assert(longer[i as int] == pts_us);
                if best is Some && shorter.contains(best->Some_0) {
                    let k = shorter.index_of(best->Some_0);
                    assert(longer[k] == best->Some_0);
                }
                assert forall|k: int| 0 <= k < longer.len() && k < i implies longer[k]
                    == shorter[k] by {}
            }
            if self.frames.contains_key(&pts_us) {
                let newer: bool = match best {
                    Some(known) => known < pts_us,
                    None => true,
                };
                if newer {
                    best = Some(pts_us);
                }
            }
            i += 1;
        }
        assert(decoded_pts@.take(i as int) =~= decoded_pts@);
        let pts_us: u64 = match best {
            Some(pts_us) => pts_us,
            None => return None,
        };
        let ghost before = self.frames@;
        let (frame_id, alpha): (u32, Vec<u8>) = match self.frames.remove(&pts_us) {
            Some(entry) => entry,
            None => return None,
        };
        self.forget_before(pts_us);
        proof {
            assert(self@ =~= old(self)@.filter_keys(|key: u64| key > pts_us));
            vstd::set_lib::lemma_len_subset(self@.dom(), old(self)@.dom());
        }
        Some((pts_us, frame_id, alpha))
    }

    /// Forgets the planes before `pts_us`.
    fn forget_before(&mut self, pts_us: u64)
        ensures
            final(self).limit() == old(self).limit(),
            final(self).frames@ == old(self).frames@.filter_keys(|key: u64| key > pts_us),
    {
        let keys: Vec<u64> = keys_of(&self.frames);
        let mut gone: Vec<u64> = Vec::new();
        let mut i: usize = 0;
        while i < keys.len() && keys[i] <= pts_us
            invariant
                i <= keys@.len(),
                gone@ == keys@.take(i as int),
                forall|k: int| 0 <= k < i ==> keys@[k] <= pts_us,
            decreases keys@.len() - i,
        {
            gone.push(keys[i]);
            i += 1;
        }
        remove_all(&mut self.frames, &gone);
        proof {
            let before = old(self).frames@;
            assert forall|key: u64| before.contains_key(key) implies (gone@.to_set().contains(key)
                <==> key <= pts_us) by {
                assert(keys@.to_set().contains(key));
                let k = keys@.index_of(key);
                if k < i {
                    assert(gone@[k] == key);
                    assert(gone@.to_set().contains(key));
                } else {
                    assert(keys@[i as int] <= keys@[k]);
                    if gone@.contains(key) {
                        let l = gone@.index_of(key);
                        assert(keys@[l] == key);
                    }
                }
            }
            assert(self.frames@ =~= before.filter_keys(|key: u64| key > pts_us));
        }
    }
}

/// Once a frame was matched, neither it nor any earlier frame is matched again,
/// whatever the decoder still delivers.
pub proof fn law_matches_move_forward(
    pending: Map<u64, (u32, Seq<u8>)>,
    matched: u64,
    decoded: Seq<u64>,
    next: u64,
)
    requires
        is_latest_match(pending.filter_keys(|key: u64| key > matched), decoded, next),
    ensures
        matched < next,
        pending.contains_key(next),
{
}


/// A view finds its subresource again: the slices before it, with all their mip
/// levels, and the levels before it within its slice. A texture that is no array
/// has but one slice.
pub proof fn law_view_finds_its_subresource(array_size: u32, mip_levels: u32, subresource: u32)
    requires
        subresource < subresources(array_size, mip_levels),
    ensures
        match plane_view(array_size, mip_levels, subresource) {
            PlaneViewDimension::Texture2D { most_detailed_mip } => {
                &&& array_size == 1
                &&& most_detailed_mip == subresource
                &&& most_detailed_mip < mip_levels
            },
            PlaneViewDimension::Texture2DArray { most_detailed_mip, first_array_slice } => {
                &&& array_size != 1
                &&& first_array_slice * mip_levels + most_detailed_mip == subresource
                &&& most_detailed_mip < mip_levels
                &&& first_array_slice < array_size
            },
        },
{
    law_views_tell_subresources_apart(array_size, mip_levels, subresource, subresource);
    let levels = mip_levels as int;
    vstd::arithmetic::div_mod::lemma_fundamental_div_mod(subresource as int, levels);
    assert(levels * (subresource as int / levels) == (subresource as int / levels) * levels)
        by (nonlinear_arith);
    if array_size == 1 {
        assert((subresource as int / levels) * levels == 0) by (nonlinear_arith)
            requires
                subresource as int / levels == 0,
        ;
    }
}

/// A texture has a subresource for each mip level of each slice, as far as 32
/// bits count them.
pub proof fn law_subresources_are_levels_of_slices(array_size: u32, mip_levels: u32)
    requires
        array_size < u32::MAX,
        (array_size + 1) * mip_levels <= u32::MAX,
    ensures
        subresources(0, mip_levels) == 0,
        subresources((array_size + 1) as u32, mip_levels) == subresources(array_size, mip_levels)
            + mip_levels,
{
    let n = array_size as int;
    let m = mip_levels as int;
    assert((n + 1) * m == n * m + m) by (nonlinear_arith);
    assert(0 * m == 0) by (nonlinear_arith);
}

/// Of the planes that wait, the latest decoded one is matched, and a plane that
/// waits makes room before any later one: a plane that is let in goes out only
/// where as many later ones wait as may.
pub proof fn law_earliest_plane_makes_room(
    waiting: Map<u64, (u32, Seq<u8>)>,
    limit: nat,
    pts_us: u64,
    plane: (u32, Seq<u8>),
)
    requires
        waiting.dom().finite(),
        waiting.dom().len() <= limit,
        limit > 0,
    ensures
        ({
            let next = crate::ordered::keep_largest(waiting.insert(pts_us, plane), limit);
            &&& next.dom().len() <= limit
            &&& waiting.dom().len() < limit ==> next == waiting.insert(pts_us, plane)
            &&& next.contains_key(pts_us) ==> next[pts_us] == plane
            &&& !next.contains_key(pts_us) ==> forall|other: u64| #[trigger]
                next.contains_key(other) ==> other > pts_us
            &&& forall|gone: u64, kept: u64|
                #[trigger] waiting.contains_key(gone) && !next.contains_key(gone)
                    && #[trigger] next.contains_key(kept) ==> gone < kept
        }),
{
    let grown = waiting.insert(pts_us, plane);
    crate::ordered::lemma_keep_largest(grown, limit);
    assert(grown.contains_key(pts_us));
    assert forall|gone: u64, kept: u64|
        #[trigger] waiting.contains_key(gone) && !crate::ordered::keep_largest(
            grown,
            limit,
        ).contains_key(gone) && #[trigger] crate::ordered::keep_largest(grown, limit).contains_key(
            kept,
        ) implies gone < kept by {
        assert(grown.contains_key(gone));
    }
}


/// Of the decoded frames whose planes wait, the latest is matched: no other one
/// that could be matched has a later presentation time.
pub proof fn law_latest_decoded_frame_is_matched(
    waiting: Map<u64, (u32, Seq<u8>)>,
    decoded: Seq<u64>,
    matched: u64,
    other: u64,
)
    requires
        is_latest_match(waiting, decoded, matched),
        decoded.contains(other),
        waiting.contains_key(other),
    ensures
        other <= matched,
        decoded.contains(matched),
        waiting.contains_key(matched),
        !is_latest_match(waiting, decoded, other) || other == matched,
{
}

} // verus!
