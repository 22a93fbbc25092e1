use vstd::prelude::*;

verus! {

/// The position in a listing of `n` cards that the number `indice` picks,
/// when cards are numbered from 1; `None` for 0 or a number past the end.
pub fn indice_escolhido(indice: usize, n: usize) -> (r: Option<usize>)
    ensures
        r == (if 1 <= indice <= n {
            Some((indice - 1) as usize)
        } else {
            None::<usize>
        }),
{
    if indice == 0 || indice > n {
        None
    } else {
        Some(indice - 1)
    }
}

} // verus!
