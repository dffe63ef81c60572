use vstd::prelude::*;

verus! {

/// One suggestion inside a block of related searches.
#[derive(Clone, Debug)]
pub struct RelatedSearchItem {
    pub name: Option<String>,
    pub query: Option<String>,
    pub link: Option<String>,
    pub serpapi_link: Option<String>,
    pub image: Option<String>,
    pub stick: Option<String>,
}

/// A related-search entry, which the service sends in one of two shapes.
#[derive(Clone, Debug)]
pub enum RelatedSearch {
    /// A single suggested query.
    Simple { query: String, link: Option<String>, serpapi_link: Option<String> },
    /// A group of suggestions.
    Block { block_position: Option<u32>, items: Vec<RelatedSearchItem> },
}

/// The queries of the items that carry one, in order.
pub open spec fn item_queries(items: Seq<RelatedSearchItem>) -> Seq<Seq<char>>
    decreases items.len(),
{
    if items.len() == 0 {
        Seq::empty()
    } else {
        let rest = item_queries(items.drop_last());
        match items.last().query {
            Some(q) => rest.push(q@),
            None => rest,
        }
    }
}

impl RelatedSearch {
    /// The suggested queries of this entry: the query of a simple entry, or
    /// the queries of a block's items, in order, skipping items without one.
    pub open spec fn suggestions(self) -> Seq<Seq<char>> {
        match self {
            RelatedSearch::Simple { query, .. } => seq![query@],
            RelatedSearch::Block { items, .. } => item_queries(items@),
        }
    }

    /// The suggested queries of this entry, whatever its shape.
    pub fn queries(&self) -> (r: Vec<String>)
        ensures
            r.deep_view() == self.suggestions(),
    {
        match self {
            RelatedSearch::Simple { query, .. } => {
                let mut out: Vec<String> = Vec::new();
                out.push(query.clone());
                assert(out.deep_view() =~= seq![query@]);
                out
            },
            RelatedSearch::Block { items, .. } => {
                let mut out: Vec<String> = Vec::new();
                let mut i: usize = 0;
                while i < items.len()
                    invariant
                        i <= items@.len(),
                        out.deep_view() == item_queries(items@.take(i as int)),
                    decreases items@.len() - i,
                {
                    let ghost before = out.deep_view();
                    assert(items@.take(i + 1).drop_last() == items@.take(i as int));
                    match &items[i].query {
                        Some(q) => {
                            out.push(q.clone());
                            assert(out.deep_view() =~= before.push(q@));
                        },
                        None => {},
                    }
                    i = i + 1;
                }
                assert(items@.take(items@.len() as int) == items@);
                out
            },
        }
    }
}

} // verus!
