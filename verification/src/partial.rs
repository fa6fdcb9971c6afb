//! Telling whether a template asks the engine to include a partial.
//!
//! Where a tag stands in a text, and of what kind it is, is for the engine's
//! own parser to say. The library reads the parser's result: the pieces that
//! a template is made of, each block with the pieces inside it.

use vstd::prelude::*;

verus! {

/// One piece of a parsed template, as far as the library looks at it.
#[derive(Debug, PartialEq, Eq)]
pub enum Piece {
    /// A partial tag or a partial block: a request to include a template.
    Partial,
    /// A tag that may hold templates of its own: a helper with its block and
    /// the block of its `else`, or a decorator with its block.
    Block(Vec<Piece>, Vec<Piece>),
    /// Plain text or a comment.
    Other,
}

/// The piece is a request for a partial, or holds one in a block.
pub open spec fn asks_for_partial(piece: Piece) -> bool
    decreases piece,
{
    match piece {
        Piece::Partial => true,
        Piece::Block(first, second) => holds_partial(first@) || holds_partial(second@),
        Piece::Other => false,
    }
}

/// A request for a partial stands among the pieces, at any depth.
pub open spec fn holds_partial(pieces: Seq<Piece>) -> bool
    decreases pieces,
{
    exists|i: int| 0 <= i < pieces.len() && asks_for_partial(#[trigger] pieces[i])
}

/// Walks the pieces of a template for a request for a partial.
pub fn has_partial(pieces: &Vec<Piece>) -> (found: bool)
    ensures
        found == holds_partial(pieces@),
    decreases pieces,
{
    let mut i: usize = 0;
    while i < pieces.len()
        invariant
            i <= pieces.len(),
            forall|k: int| 0 <= k < i ==> !asks_for_partial(#[trigger] pieces@[k]),
        decreases pieces.len() - i,
    {
        let asks = match &pieces[i] {
            Piece::Partial => true,
            Piece::Block(first, second) => has_partial(first) || has_partial(second),
            Piece::Other => false,
        };
        if asks {
            assert(asks_for_partial(pieces@[i as int]));
            return true;
        }
        i += 1;
    }
    false
}

} // verus!
