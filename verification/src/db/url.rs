use vstd::prelude::*;

verus! {

/// One stored short link: the original address, the short identifier that
/// stands for it, when it was made and expires (UNIX seconds), how often it
/// was followed, and the hash under which it is looked up.
#[derive(Debug, Clone)]
pub struct Url {
    pub id: i32,
    pub original_url: String,
    pub short_url: String,
    pub created_on: i64,
    pub expiries_at: i64,
    pub redirection_count: i32,
    pub hash: i64,
}

/// The first row a query gave back, if there is one.
pub open spec fn spec_first_row(rows: Seq<Url>) -> Option<Url> {
    if rows.len() == 0 {
        None
    } else {
        Some(rows[0])
    }
}

/// A lookup answers with the first row whenever there is one, and with
/// nothing only when there are no rows.
pub proof fn lemma_first_row_is_head(rows: Seq<Url>)
    ensures
        rows.len() > 0 ==> spec_first_row(rows) == Some(rows[0]),
        spec_first_row(rows) is None <==> rows.len() == 0,
{
}

impl Url {
    /// Picks the first of the rows a query loaded; a lookup answers with it.
    pub fn first_row(rows: Vec<Url>) -> (first: Option<Url>)
        ensures
            first == spec_first_row(rows@),
            rows@.len() > 0 ==> first == Some(rows@[0]),
            rows@.len() == 0 ==> first is None,
    {
        let mut rows = rows;
        if rows.len() == 0 {
            None
        } else {
            Some(rows.remove(0))
        }
    }
}

} // verus!
