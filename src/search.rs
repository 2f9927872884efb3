use vstd::prelude::*;

verus! {

/// A search over stored file names.
pub struct SearchQuery {
    pub search_term: String,
}

impl SearchQuery {
    /// Pattern that matches every name containing the search term.
    pub fn pattern(&self) -> (r: String)
        ensures
            r@ == "%"@ + self.search_term@ + "%"@,
    {
        String::from_str("%").concat(self.search_term.as_str()).concat("%")
    }
}

} // verus!
