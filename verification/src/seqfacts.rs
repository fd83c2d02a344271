//! Small ambient facts about sequence concatenation, used when relating a
//! string built by successive appends to its one-expression specification.

use vstd::prelude::*;

verus! {

/// Concatenation of sequences is associative.
pub broadcast proof fn seq_add_assoc<A>(a: Seq<A>, b: Seq<A>, c: Seq<A>)
    ensures
        #[trigger] ((a + b) + c) == a + (b + c),
{
    assert((a + b) + c =~= a + (b + c));
}

/// The empty sequence is a left identity of concatenation.
pub broadcast proof fn seq_add_empty_left<A>(a: Seq<A>)
    ensures
        #[trigger] (Seq::<A>::empty() + a) == a,
{
    assert(Seq::<A>::empty() + a =~= a);
}

/// The empty sequence is a right identity of concatenation.
pub broadcast proof fn seq_add_empty_right<A>(a: Seq<A>)
    ensures
        #[trigger] (a + Seq::<A>::empty()) == a,
{
    assert(a + Seq::<A>::empty() =~= a);
}

/// Pushing one element is concatenating a singleton.
pub broadcast proof fn seq_push_as_add<A>(s: Seq<A>, x: A)
    ensures
        #[trigger] s.push(x) == s + seq![x],
{
    assert(s.push(x) =~= s + seq![x]);
}

} // verus!
