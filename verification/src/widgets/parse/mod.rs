use crate::error::ParseError;
use vstd::prelude::*;

pub mod attributes;
pub mod attrs;
pub mod conditional;
pub mod grammar;
pub mod match_arm;
pub mod properties;
pub mod returned;
pub mod view;
pub mod widget;
pub mod widget_func;

verus! {

/// What a result is to the contracts: the view of what was built.
pub open spec fn result_view<T: View>(r: Result<T, ParseError>) -> Result<T::V, ParseError> {
    match r {
        Ok(x) => Ok(x@),
        Err(e) => Err(e),
    }
}

/// What the result of reading a piece is to the contracts: the view of what
/// was built and the position behind the piece.
pub open spec fn parsed_view<T: View>(r: Result<(T, usize), ParseError>) -> Result<
    (T::V, int),
    ParseError,
> {
    match r {
        Ok((x, next)) => Ok((x@, next as int)),
        Err(e) => Err(e),
    }
}

} // verus!
