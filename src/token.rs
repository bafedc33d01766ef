use vstd::prelude::*;

verus! {

/// The display fields that a token carries for generic viewers.
#[derive(Clone, Debug)]
pub struct TokenDisplay {
    pub title: Option<String>,
    pub description: Option<String>,
    pub media: Option<String>,
    pub copies: Option<u64>,
    pub issued_at: Option<String>,
}

/// A token as the ledger reports it: its id, its owner and its display block.
#[derive(Clone, Debug)]
pub struct TokenRecord {
    pub token_id: String,
    pub owner_id: String,
    pub display: Option<TokenDisplay>,
}

/// An optional string as an optional sequence of characters.
pub open spec fn opt_view(o: Option<String>) -> Option<Seq<char>> {
    match o {
        Some(s) => Some(s@),
        None => None,
    }
}

/// A display block as a mathematical value.
pub ghost struct DisplayModel {
    pub title: Option<Seq<char>>,
    pub description: Option<Seq<char>>,
    pub media: Option<Seq<char>>,
    pub copies: Option<u64>,
    pub issued_at: Option<Seq<char>>,
}

impl View for TokenDisplay {
    type V = DisplayModel;

    open spec fn view(&self) -> DisplayModel {
        DisplayModel {
            title: opt_view(self.title),
            description: opt_view(self.description),
            media: opt_view(self.media),
            copies: self.copies,
            issued_at: opt_view(self.issued_at),
        }
    }
}

} // verus!
