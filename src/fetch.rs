//! Paging through a remote listing, one page request at a time. The caller
//! performs each request and hands back what came of it; these machines decide
//! what to keep and which page to ask for next.
use vstd::prelude::*;
use crate::ids::{to_serializable, DeconstructedId, PlayableId};

verus! {

/// Position in a paged listing.
#[derive(Clone, Copy, Debug, PartialEq, Eq, Structural)]
pub struct Pager {
    /// Offset of the next page to request.
    pub offset: u32,
    /// Number of items asked for per page.
    pub limit: u32,
    /// Whether the listing has been traversed.
    pub done: bool,
}

/// The pager one page further on. A finished traversal stays finished, and
/// when the next offset would not fit in a `u32` the traversal ends.
pub open spec fn advanced(p: Pager) -> Pager {
    if p.done {
        p
    } else if p.offset + p.limit <= u32::MAX {
        Pager { offset: (p.offset + p.limit) as u32, limit: p.limit, done: false }
    } else {
        Pager { offset: p.offset, limit: p.limit, done: true }
    }
}

/// The pager after a page of `len` items came back: a short page is the last.
pub open spec fn after_page(p: Pager, len: int) -> Pager {
    if !p.done && len < p.limit {
        Pager { offset: p.offset, limit: p.limit, done: true }
    } else {
        advanced(p)
    }
}

impl Pager {
    /// A pager at offset zero, asking for `limit` items per page.
    pub fn new(limit: u32) -> (r: Pager)
        requires
            limit > 0,
        ensures
            r == (Pager { offset: 0, limit, done: false }),
    {
        Pager { offset: 0, limit, done: false }
    }

    /// The offset of the page to request next, or `None` once traversal is over.
    pub fn next_offset(&self) -> (r: Option<u32>)
        ensures
            r == (if self.done { None } else { Some(self.offset) }),
    {
        if self.done {
            None
        } else {
            Some(self.offset)
        }
    }

    fn advance(&mut self)
        ensures
            *final(self) == advanced(*old(self)),
    {
        if self.done {
        } else if self.offset <= u32::MAX - self.limit {
            self.offset = self.offset + self.limit;
        } else {
            self.done = true;
        }
    }

    /// A page of `len` items came back. Fewer items than the limit mark the
    /// last page; otherwise the next page is one limit further on.
    pub fn page_received(&mut self, len: usize)
        ensures
            *final(self) == after_page(*old(self), len as int),
    {
        if !self.done && len < self.limit as usize {
            self.done = true;
        } else {
            self.advance();
        }
    }

    /// The page request failed: skip one page forward, without retrying.
    pub fn page_failed(&mut self)
        ensures
            *final(self) == advanced(*old(self)),
    {
        self.advance();
    }
}

/// The resolvable items of a page, in order: those without a payload are
/// dropped.
pub open spec fn kept(items: Seq<Option<PlayableId>>) -> Seq<PlayableId>
    decreases items.len(),
{
    if items.len() == 0 {
        Seq::empty()
    } else {
        let rest = kept(items.drop_last());
        match items.last() {
            Some(p) => rest.push(p),
            None => rest,
        }
    }
}

/// Retrieval of a playlist's contents: the identifiers gathered so far, in
/// both their live and their serializable form, and the paging position.
pub struct ContentFetch {
    pub pager: Pager,
    pub track_ids: Vec<PlayableId>,
    pub serializable: Vec<DeconstructedId>,
}

impl ContentFetch {
    /// A positive page size, and one serializable identifier for each live one.
    pub open spec fn wf(&self) -> bool {
        &&& self.pager.limit > 0
        &&& self.track_ids.len() == self.serializable.len()
        &&& forall|i: int|
            0 <= i < self.track_ids.len() ==> (#[trigger] self.serializable[i])@
                == self.track_ids[i]@
    }

    /// Nothing gathered yet; the first page is at offset zero.
    pub fn new(page_size: u32) -> (r: ContentFetch)
        requires
            page_size > 0,
        ensures
            r.wf(),
            r.pager == (Pager { offset: 0, limit: page_size, done: false }),
            r.track_ids@ == Seq::<PlayableId>::empty(),
    {
        ContentFetch { pager: Pager::new(page_size), track_ids: Vec::new(), serializable: Vec::new() }
    }

    /// The offset of the page to request next, or `None` once traversal is over.
    pub fn next_offset(&self) -> (r: Option<u32>)
        ensures
            r == (if self.pager.done { None } else { Some(self.pager.offset) }),
    {
        self.pager.next_offset()
    }

    /// A page came back. Every item with a payload is kept, in order; the
    /// others are skipped. Returns the number of items visited, skipped ones
    /// included, by which progress advances.
    pub fn page_fetched(&mut self, items: Vec<Option<PlayableId>>) -> (visited: usize)
        requires
            old(self).wf(),
        ensures
            final(self).wf(),
            final(self).track_ids@ == old(self).track_ids@ + kept(items@),
            final(self).pager == after_page(old(self).pager, items.len() as int),
            visited == items.len(),
    {
        let ghost start = self.track_ids@;
        let mut i: usize = 0;
        while i < items.len()
            invariant
                self.wf(),
                i <= items.len(),
                self.pager == old(self).pager,
                self.track_ids@ == start + kept(items@.subrange(0, i as int)),
            decreases items.len() - i,
        {
            assert(items@.subrange(0, i as int) =~= items@.subrange(0, i as int + 1).drop_last());
            match &items[i] {
                Some(p) => {
                    self.serializable.push(to_serializable(p));
                    self.track_ids.push(p.duplicate());
                    assert(self.track_ids@ =~= start + kept(items@.subrange(0, i as int + 1)));
                },
                None => {},
            }
            i = i + 1;
        }
        assert(items@.subrange(0, i as int) =~= items@);
        self.pager.page_received(items.len());
        items.len()
    }

    /// The page request failed: skip one page forward, without retrying.
    pub fn page_failed(&mut self)
        requires
            old(self).wf(),
        ensures
            final(self).wf(),
            final(self).track_ids@ == old(self).track_ids@,
            final(self).pager == advanced(old(self).pager),
    {
        self.pager.page_failed();
    }

    /// The gathered identifiers: live ones, and the serializable ones to cache.
    pub fn into_parts(self) -> (r: (Vec<PlayableId>, Vec<DeconstructedId>))
        requires
            self.wf(),
        ensures
            r.0@ == self.track_ids@,
            r.1.len() == r.0.len(),
            forall|i: int| 0 <= i < r.0.len() ==> (#[trigger] r.1[i])@ == r.0[i]@,
    {
        (self.track_ids, self.serializable)
    }
}

/// Names of the items of a page of playlists.
pub open spec fn names_of(items: Seq<(String, String)>) -> Seq<Seq<char>> {
    items.map_values(|x: (String, String)| x.0@)
}

/// Ids of the items of a page of playlists.
pub open spec fn ids_of(items: Seq<(String, String)>) -> Seq<Seq<char>> {
    items.map_values(|x: (String, String)| x.1@)
}

/// Retrieval of the user's playlists: names and ids gathered so far, and
/// the paging position.
pub struct PlaylistListing {
    pub pager: Pager,
    pub names: Vec<String>,
    pub ids: Vec<String>,
}

/// The views of a sequence of strings.
pub open spec fn strings_view(s: Seq<String>) -> Seq<Seq<char>> {
    s.map_values(|x: String| x@)
}

impl PlaylistListing {
    /// A positive page size, and one id for each name.
    pub open spec fn wf(&self) -> bool {
        self.pager.limit > 0 && self.names.len() == self.ids.len()
    }

    /// Nothing gathered yet; the first page is at offset zero.
    pub fn new(page_size: u32) -> (r: PlaylistListing)
        requires
            page_size > 0,
        ensures
            r.wf(),
            r.pager == (Pager { offset: 0, limit: page_size, done: false }),
            r.names@ == Seq::<String>::empty(),
            r.ids@ == Seq::<String>::empty(),
    {
        PlaylistListing { pager: Pager::new(page_size), names: Vec::new(), ids: Vec::new() }
    }

    /// The offset of the page to request next, or `None` once traversal is over.
    pub fn next_offset(&self) -> (r: Option<u32>)
        ensures
            r == (if self.pager.done { None } else { Some(self.pager.offset) }),
    {
        self.pager.next_offset()
    }

    /// A page of `(name, id)` pairs came back: all are kept, in order.
    pub fn page_fetched(&mut self, items: Vec<(String, String)>)
        requires
            old(self).wf(),
        ensures
            final(self).wf(),
            strings_view(final(self).names@) == strings_view(old(self).names@) + names_of(items@),
            strings_view(final(self).ids@) == strings_view(old(self).ids@) + ids_of(items@),
            final(self).pager == after_page(old(self).pager, items.len() as int),
    {
        let ghost names0 = strings_view(self.names@);
        let ghost ids0 = strings_view(self.ids@);
        let mut i: usize = 0;
        while i < items.len()
            invariant
                self.wf(),
                i <= items.len(),
                self.pager == old(self).pager,
                strings_view(self.names@) == names0 + names_of(items@.subrange(0, i as int)),
                strings_view(self.ids@) == ids0 + ids_of(items@.subrange(0, i as int)),
            decreases items.len() - i,
        {
            let ghost prev_names = self.names@;
            let ghost prev_ids = self.ids@;
            let name = items[i].0.clone();
            let id = items[i].1.clone();
            self.names.push(name);
            self.ids.push(id);
            assert(strings_view(self.names@) =~= strings_view(prev_names).push(items[i as int].0@));
            assert(strings_view(self.ids@) =~= strings_view(prev_ids).push(items[i as int].1@));
            assert(names_of(items@.subrange(0, i as int + 1)) =~= names_of(items@.subrange(0, i as int)).push(
                items[i as int].0@,
            ));
            assert(ids_of(items@.subrange(0, i as int + 1)) =~= ids_of(items@.subrange(0, i as int)).push(
                items[i as int].1@,
            ));
            assert(strings_view(self.names@) =~= names0 + names_of(items@.subrange(0, i as int + 1)));
            assert(strings_view(self.ids@) =~= ids0 + ids_of(items@.subrange(0, i as int + 1)));
            i = i + 1;
        }
        assert(items@.subrange(0, i as int) =~= items@);
        self.pager.page_received(items.len());
    }

    /// The page request failed: skip one page forward, without retrying.
    pub fn page_failed(&mut self)
        requires
            old(self).wf(),
        ensures
            final(self).wf(),
            final(self).names@ == old(self).names@,
            final(self).ids@ == old(self).ids@,
            final(self).pager == advanced(old(self).pager),
    {
        self.pager.page_failed();
    }
}

} // verus!
