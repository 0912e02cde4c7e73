//! Acceptance filters.

use vstd::prelude::*;
use crate::errors::ConstructionError;
use crate::frame::CanFrame;

verus! {

/// What a filter is, as mathematics: an identifier and a mask.
pub struct FilterModel {
    pub id: u32,
    pub mask: u32,
}

impl FilterModel {
    /// The filter matches an identifier that agrees with the filter's own in
    /// every bit of the mask.
    pub open spec fn matches(self, received_id: u32) -> bool {
        received_id & self.mask == self.id & self.mask
    }
}

/// Whether a socket with these filters hands out a frame with the identifier
/// `received_id`. Without filters it hands out nothing. Otherwise one
/// matching filter is enough, unless the filters are joined: then all of
/// them have to match.
pub open spec fn accepted(filters: Seq<CanFilter>, join_filters: bool, received_id: u32) -> bool {
    if join_filters {
        filters.len() > 0 && forall|i: int|
            0 <= i < filters.len() ==> (#[trigger] filters[i])@.matches(received_id)
    } else {
        exists|i: int| 0 <= i < filters.len() && (#[trigger] filters[i])@.matches(received_id)
    }
}

/// Joining the filters never lets a frame pass that would not pass
/// otherwise.
pub proof fn lemma_join_accepts_less(filters: Seq<CanFilter>, received_id: u32)
    ensures
        accepted(filters, true, received_id) ==> accepted(filters, false, received_id),
{
    if accepted(filters, true, received_id) {
        assert(filters[0]@.matches(received_id));
    }
}

/// A single filter decides alone, joined or not.
pub proof fn lemma_single_filter(filter: CanFilter, join_filters: bool, received_id: u32)
    ensures
        accepted(seq![filter], join_filters, received_id) == filter@.matches(received_id),
{
    let filters = seq![filter];
    assert(filters[0] == filter);
}

/// CanFilter
///
/// Contains an internal id and mask. Packets are considered to be matched by
/// a filter if `received_id & mask == filter_id & mask` holds true.
#[derive(Debug, Copy, Clone)]
pub struct CanFilter {
    _id: u32,
    _mask: u32,
}

impl View for CanFilter {
    type V = FilterModel;

    closed spec fn view(&self) -> FilterModel {
        FilterModel { id: self._id, mask: self._mask }
    }
}

impl CanFilter {
    /// Construct a new CAN filter.
    pub fn new(id: u32, mask: u32) -> (r: Result<CanFilter, ConstructionError>)
        ensures
            r matches Ok(filter) && filter@ == (FilterModel { id, mask }),
    {
        Ok(CanFilter { _id: id, _mask: mask })
    }

    /// The identifier that the filter compares with.
    pub fn id(&self) -> (id: u32)
        ensures
            id == self@.id,
    {
        self._id
    }

    /// The bits that the filter compares.
    pub fn mask(&self) -> (mask: u32)
        ensures
            mask == self@.mask,
    {
        self._mask
    }

    /// Whether the filter matches the identifier of `frame`.
    pub fn matches(&self, frame: &CanFrame) -> (b: bool)
        ensures
            b == self@.matches(frame@.id()),
    {
        frame.id() & self._mask == self._id & self._mask
    }
}

/// Whether a socket with these filters hands out `frame`.
pub fn accepts(filters: &[CanFilter], join_filters: bool, frame: &CanFrame) -> (b: bool)
    ensures
        b == accepted(filters@, join_filters, frame@.id()),
{
    let n = filters.len();
    if n == 0 {
        return false;
    }
    let mut any = false;
    let mut all = true;
    let mut i: usize = 0;
    while i < n
        invariant
            i <= n == filters@.len(),
            any == exists|j: int| 0 <= j < i && (#[trigger] filters@[j])@.matches(frame@.id()),
            all == forall|j: int| 0 <= j < i ==> (#[trigger] filters@[j])@.matches(frame@.id()),
        decreases n - i,
    {
        if filters[i].matches(frame) {
            any = true;
        } else {
            all = false;
        }
        i += 1;
    }
    if join_filters {
        all
    } else {
        any
    }
}

} // verus!
