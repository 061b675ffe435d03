use vstd::prelude::*;

verus! {

/// The element on top of a stack whose elements, top first, are `s`; `None` when empty.
pub open spec fn top_of<T>(s: Seq<T>) -> Option<T> {
    if s.len() == 0 {
        None
    } else {
        Some(s[0])
    }
}

/// The elements below the top of `s`; an empty stack has none to drop and stays empty.
pub open spec fn rest_of<T>(s: Seq<T>) -> Seq<T> {
    if s.len() == 0 {
        s
    } else {
        s.drop_first()
    }
}

/// What is left of `s` after its top is removed `n` times over.
pub open spec fn rest_n<T>(s: Seq<T>, n: nat) -> Seq<T>
    decreases n,
{
    if n == 0 {
        s
    } else {
        rest_of(rest_n(s, (n - 1) as nat))
    }
}

} // verus!
