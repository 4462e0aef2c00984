//! Shapes of Reddit API responses.
use vstd::prelude::*;

verus! {

/// Response from /api/v1/me
#[derive(Debug, Clone)]
pub struct MeResponse {
    pub name: String,
    pub id: String,
}

/// Reddit's standard listing pagination wrapper
#[derive(Debug)]
pub struct Listing<T> {
    pub data: ListingData<T>,
}

/// One page of a listing.
#[derive(Debug)]
pub struct ListingData<T> {
    pub children: Vec<Thing<T>>,
    pub after: Option<String>,
    pub before: Option<String>,
}

/// A listing entry: its kind and its data.
#[derive(Debug)]
pub struct Thing<T> {
    pub kind: String,
    pub data: T,
}

/// The data of the entries of a page, in order.
pub open spec fn page_items<T>(children: Seq<Thing<T>>) -> Seq<T> {
    children.map_values(|t: Thing<T>| t.data)
}

impl<T> Listing<T> {
    /// Splits a listing into the data of its entries, in order, and the
    /// cursor of the next page.
    pub fn into_page(self) -> (r: (Vec<T>, Option<String>))
        ensures
            r.0@ == page_items(self.data.children@),
            r.1 == self.data.after,
    {
        let ghost children = self.data.children@;
        let mut items: Vec<T> = Vec::new();
        for t in it: self.data.children.into_iter()
            invariant
                it.seq() == children,
                items@ == page_items(children.take(it.index() as int)),
        {
            let ghost before = items@;
            items.push(t.data);
            assert(children.take(it.index() + 1) == children.take(it.index() as int).push(t));
            assert(page_items(children.take(it.index() + 1)) == before.push(t.data));
        }
        assert(children.take(children.len() as int) == children);
        (items, self.data.after)
    }
}

} // verus!
