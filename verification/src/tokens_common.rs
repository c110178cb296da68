//! Datatypes shared by fine-grained and coarse-grained tokens.

use vstd::prelude::*;
use crate::char_sequences::Charseq;

verus! {

/// Base (radix) of a numeric literal.
#[derive(Copy, Clone, PartialEq, Eq, Structural, Debug)]
pub enum NumericBase {
    Binary,
    Octal,
    Decimal,
    Hexadecimal,
}

/// Where a token came from.
pub enum Origin {
    /// The token was produced by lexical analysis.
    Natural {
        /// The input characters which make up the token.
        extent: Charseq,
    },
    /// The token was produced by doc-comment lowering.
    Synthetic {
        /// The extent of the natural token which was expanded to produce this one.
        lowered_from: Charseq,
        /// The characters a stringify-style rendering would return for the token.
        stringified: Charseq,
    },
}

/// The mathematical value of an [`Origin`].
pub enum OriginV {
    Natural { extent: Seq<char> },
    Synthetic { lowered_from: Seq<char>, stringified: Seq<char> },
}

impl View for Origin {
    type V = OriginV;

    open spec fn view(&self) -> OriginV {
        match self {
            Origin::Natural { extent } => OriginV::Natural { extent: extent@ },
            Origin::Synthetic { lowered_from, stringified } => OriginV::Synthetic {
                lowered_from: lowered_from@,
                stringified: stringified@,
            },
        }
    }
}

impl Clone for Origin {
    fn clone(&self) -> (r: Self)
        ensures
            r@ == self@,
    {
        match self {
            Origin::Natural { extent } => Origin::Natural { extent: extent.clone() },
            Origin::Synthetic { lowered_from, stringified } => Origin::Synthetic {
                lowered_from: lowered_from.clone(),
                stringified: stringified.clone(),
            },
        }
    }
}

} // verus!
