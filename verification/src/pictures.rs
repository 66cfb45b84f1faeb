//! Pictures: how the picture of a record reaches a caller, and what a cached
//! list shows where the cache holds everything of a record but its picture.

use vstd::prelude::*;
use crate::outside::{base64_text, encode_base64};
use crate::rows::{lemma_take_next, reversed};

verus! {

/// A picture as base64 text.
pub fn picture_text(image: &Vec<u8>) -> (text: String)
    ensures
        text@ == base64_text(image@),
{
    encode_base64(image)
}

/// A cached record together with its picture, where the store still has it.
pub struct Pictured<C> {
    pub entry: C,
    pub image: Option<Vec<u8>>,
}

/// A cached record together with its picture as base64 text.
pub struct Shown<C> {
    pub entry: C,
    pub image: String,
}

/// The cached records whose picture the store still has.
pub open spec fn with_picture<C>(cached: Seq<Pictured<C>>) -> Seq<Pictured<C>> {
    cached.filter(|hit: Pictured<C>| hit.image is Some)
}

/// Whether `shown` holds those among `cached` that have a picture, one for
/// one and in order, each with its picture as base64 text.
pub open spec fn shows_pictured<C>(shown: Seq<Shown<C>>, cached: Seq<Pictured<C>>) -> bool {
    let kept = with_picture(cached);
    &&& shown.len() == kept.len()
    &&& forall|i: int|
        0 <= i < shown.len() ==> (#[trigger] shown[i]).entry == kept[i].entry && shown[i].image@
            == base64_text(kept[i].image->0@)
}

/// What a list that the cache served shows: every cached record whose
/// picture the store still has, in the cached order, with that picture as
/// base64 text. Records whose picture is gone are left out.
pub fn show_pictured<C>(cached: Vec<Pictured<C>>) -> (shown: Vec<Shown<C>>)
    ensures
        shows_pictured(shown@, cached@),
{
    let ghost all = cached@;
    let ghost pictured = |hit: Pictured<C>| hit.image is Some;
    let mut stack = reversed(cached);
    assert(stack@.reverse() =~= all) by {
        assert(all.reverse().reverse() =~= all);
    }
    let mut shown: Vec<Shown<C>> = Vec::new();
    let ghost mut done: int = 0;
    proof {
        reveal(Seq::filter);
        assert(all.subrange(0, all.len() as int) =~= all);
        assert(all.subrange(0, 0) =~= Seq::<Pictured<C>>::empty());
    }
    while stack.len() > 0
        invariant
            0 <= done <= all.len(),
            pictured == |hit: Pictured<C>| hit.image is Some,
            stack@.reverse() == all.subrange(done, all.len() as int),
            shown@.len() == all.subrange(0, done).filter(pictured).len(),
            forall|i: int|
                0 <= i < shown@.len() ==> (#[trigger] shown@[i]).entry == all.subrange(
                    0,
                    done,
                ).filter(pictured)[i].entry && shown@[i].image@ == base64_text(
                    all.subrange(0, done).filter(pictured)[i].image->0@,
                ),
        decreases stack@.len(),
    {
        proof {
            lemma_take_next(all, done, stack@);
            reveal(Seq::filter);
            let before = all.subrange(0, done);
            let after = all.subrange(0, done + 1);
            assert(after.drop_last() =~= before);
            assert(after.last() == all[done]);
        }
        let hit = stack.pop().unwrap();
        match hit.image {
            Some(bytes) => {
                let image = encode_base64(&bytes);
                shown.push(Shown { entry: hit.entry, image });
            },
            None => {},
        }
        proof {
            done = done + 1;
        }
    }
    assert(all.subrange(0, done) =~= all);
    shown
}

} // verus!
