//! The cookies of a webview, read from the text that the Java side keeps them in.
use crate::outside::parse_cookie;
use crate::text::split;
use vstd::prelude::*;

verus! {

/// The values among a list of results, in their order.
pub open spec fn present<C>(results: Seq<Option<C>>) -> Seq<C>
    decreases results.len(),
{
    if results.len() == 0 {
        seq![]
    } else {
        match results.last() {
            Some(c) => present(results.drop_last()).push(c),
            None => present(results.drop_last()),
        }
    }
}

/// The cookies in `text`: one for each piece between `"; "` that is a cookie.
pub open spec fn cookies_in(text: Seq<char>) -> Seq<cookie::Cookie<'static>> {
    present(
        crate::text::split_from(text, "; "@, 0).map_values(
            |piece: Seq<char>| crate::outside::parsed_cookie(piece),
        ),
    )
}

/// Of one result, the value is kept if there is one.
pub proof fn present_of_one<C>(c: C)
    ensures
        present(seq![Some(c)]) == seq![c],
        present(seq![None::<C>]) == Seq::<C>::empty(),
        present(Seq::<Option<C>>::empty()) == Seq::<C>::empty(),
{
    assert(seq![Some(c)].drop_last() =~= Seq::<Option<C>>::empty());
    assert(seq![None::<C>].drop_last() =~= Seq::<Option<C>>::empty());
    assert(present(Seq::<Option<C>>::empty()) =~= Seq::<C>::empty());
    assert(present(seq![Some(c)]) =~= seq![c]);
}

/// Of two lists of results, first the values of the one are kept and then those of the other.
pub proof fn present_of_both<C>(a: Seq<Option<C>>, b: Seq<Option<C>>)
    ensures
        present(a + b) == present(a) + present(b),
    decreases b.len(),
{
    if b.len() == 0 {
        assert(a + b =~= a);
        assert(present(a) + present(b) =~= present(a));
    } else {
        present_of_both(a, b.drop_last());
        assert((a + b).drop_last() =~= a + b.drop_last());
        assert(present(a + b) =~= present(a) + present(b));
    }
}

/// The cookies of a text are those of its pieces between `"; "`: the pieces joined by it are the
/// text, none of them holds it, and each of them that is a cookie gives one, in their order.
pub proof fn cookies_are_those_of_the_pieces(text: Seq<char>)
    ensures
        exists|pieces: Seq<Seq<char>>|
            {
                &&& crate::text::joined(pieces, "; "@) == text
                &&& pieces.len() > 0
                &&& forall|i: int, at: int|
                    0 <= i < pieces.len() && 0 <= at && at + 2 <= pieces[i].len()
                        ==> #[trigger] pieces[i].subrange(at, at + 2) != "; "@
                &&& cookies_in(text) == #[trigger] cookies_of(pieces)
            },
{
    reveal_strlit("; ");
    let separator = "; "@;
    let pieces = crate::text::split_from(text, separator, 0);
    crate::text::split_then_join(text, separator, 0);
    assert(text.subrange(0, text.len() as int) =~= text);
    assert forall|i: int, at: int|
        0 <= i < pieces.len() && 0 <= at && at + 2 <= pieces[i].len() implies
        #[trigger] pieces[i].subrange(at, at + 2) != separator by {
        crate::text::split_pieces_hold_no_separator(text, separator, 0, i, at);
    }
    assert(pieces.map_values(|piece: Seq<char>| crate::outside::parsed_cookie(piece)) =~= Seq::new(
        pieces.len(),
        |i: int| crate::outside::parsed_cookie(pieces[i]),
    ));
    assert(cookies_in(text) == cookies_of(pieces));
}

/// The cookies among some pieces of text.
pub open spec fn cookies_of(pieces: Seq<Seq<char>>) -> Seq<cookie::Cookie<'static>> {
    present(Seq::new(pieces.len(), |i: int| crate::outside::parsed_cookie(pieces[i])))
}

/// Keeps the values among `results`, in their order.
pub fn keep_present<C>(results: Vec<Option<C>>) -> (r: Vec<C>)
    ensures
        r@ == present(results@),
{
    let mut kept: Vec<C> = Vec::new();
    for result in it: results
        invariant
            it.seq() == results@,
            kept@ == present(results@.take(it.index() as int)),
    {
        proof {
            let next = results@.take(it.index() + 1);
            assert(next.drop_last() =~= results@.take(it.index() as int));
            assert(next.last() == result);
        }
        match result {
            Some(c) => {
                kept.push(c);
            },
            None => {},
        }
    }
    assert(results@.take(results@.len() as int) =~= results@);
    kept
}

/// Reads the cookies in `text`: the pieces between `"; "`, without those that are no cookie.
pub fn parse_cookies(text: &str) -> (r: Vec<cookie::Cookie<'static>>)
    ensures
        r@ == cookies_in(text@),
{
    proof {
        reveal_strlit("; ");
    }
    let pieces = split(text, "; ");
    let mut results: Vec<Option<cookie::Cookie<'static>>> = Vec::new();
    let mut i: usize = 0;
    while i < pieces.len()
        invariant
            i <= pieces@.len(),
            results@.len() == i,
            forall|j: int|
                0 <= j < i ==> #[trigger] results@[j] == crate::outside::parsed_cookie(
                    pieces@[j]@,
                ),
        decreases pieces@.len() - i,
    {
        results.push(parse_cookie(pieces[i].clone()));
        i = i + 1;
    }
    assert(results@ =~= crate::text::texts(pieces@).map_values(
        |piece: Seq<char>| crate::outside::parsed_cookie(piece),
    ));
    keep_present(results)
}

} // verus!
