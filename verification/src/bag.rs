//! The bag of seven shapes from which pieces are drawn, and its shuffling.

use crate::tetromino::Shape;
use rand::seq::SliceRandom;
use vstd::prelude::*;

verus! {

/// One of each shape, in the order in which a bag is laid out before it is
/// shuffled.
pub open spec fn all_shapes() -> Seq<Shape> {
    seq![Shape::O, Shape::I, Shape::L, Shape::J, Shape::S, Shape::Z, Shape::T]
}

/// The bag holds each of the seven shapes exactly once.
pub open spec fn is_full_bag(bag: Seq<Shape>) -> bool {
    forall|shape: Shape| #[trigger] bag.to_multiset().count(shape) == 1
}

/// The unshuffled bag holds each shape once.
pub proof fn lemma_all_shapes_is_full_bag()
    ensures
        is_full_bag(all_shapes()),
{
    broadcast use vstd::seq_lib::group_to_multiset_ensures;

    let s0 = Seq::<Shape>::empty();
    let s1 = s0.push(Shape::O);
    let s2 = s1.push(Shape::I);
    let s3 = s2.push(Shape::L);
    let s4 = s3.push(Shape::J);
    let s5 = s4.push(Shape::S);
    let s6 = s5.push(Shape::Z);
    let s7 = s6.push(Shape::T);
    assert(s7 =~= all_shapes());
    assert(s0.to_multiset().len() == 0);
    assert forall|shape: Shape| #[trigger] all_shapes().to_multiset().count(shape) == 1 by {
        assert(s0.to_multiset().count(shape) == 0);
        assert(s1.to_multiset() =~= s0.to_multiset().insert(Shape::O));
        assert(s2.to_multiset() =~= s1.to_multiset().insert(Shape::I));
        assert(s3.to_multiset() =~= s2.to_multiset().insert(Shape::L));
        assert(s4.to_multiset() =~= s3.to_multiset().insert(Shape::J));
        assert(s5.to_multiset() =~= s4.to_multiset().insert(Shape::S));
        assert(s6.to_multiset() =~= s5.to_multiset().insert(Shape::Z));
        assert(s7.to_multiset() =~= s6.to_multiset().insert(Shape::T));
    }
}

/// A full bag is a rearrangement of the seven shapes: it has seven
/// entries, none of them twice, and every shape is among them.
pub proof fn lemma_full_bag(bag: Seq<Shape>)
    requires
        is_full_bag(bag),
    ensures
        bag.len() == 7,
        bag.no_duplicates(),
        forall|shape: Shape| #[trigger] bag.contains(shape),
{
    broadcast use vstd::seq_lib::group_to_multiset_ensures;

    lemma_all_shapes_is_full_bag();
    assert(bag.to_multiset() =~= all_shapes().to_multiset());
    assert(bag.len() == bag.to_multiset().len());
    assert(all_shapes().to_multiset().len() == all_shapes().len());
    bag.lemma_multiset_has_no_duplicates_conv();
    assert forall|shape: Shape| #[trigger] bag.contains(shape) by {
        assert(bag.to_multiset().count(shape) > 0);
    }
}

/// `rand::rngs::ThreadRng`: a handle to the calling thread's random number
/// generator. Nothing of its state is visible here.
#[verifier::external_type_specification]
#[verifier::external_body]
pub struct ExThreadRng(rand::rngs::ThreadRng);

/// `rand::thread_rng`: a handle to the calling thread's random number
/// generator, which the operating system seeds on first use. Nothing is
/// claimed of the generator. Where the operating system gives no seed the
/// call panics; no argument decides this, so no precondition can rule it
/// out.
pub assume_specification[ rand::thread_rng ]() -> (rng: rand::rngs::ThreadRng);

/// `rand::seq::SliceRandom::shuffle` on the bag's slice: it rearranges the
/// entries in place by swapping pairs of them, so the bag holds the same
/// shapes as before, each as often as before. Which order comes out is
/// left open.
#[verifier::external_body]
fn shuffle(bag: &mut Vec<Shape>, rng: &mut rand::rngs::ThreadRng)
    ensures
        final(bag)@.to_multiset() == old(bag)@.to_multiset(),
{
    bag.shuffle(rng);
}

/// A bag with one of each shape, laid out in a fixed order.
pub fn full_bag() -> (bag: Vec<Shape>)
    ensures
        bag@ == all_shapes(),
{
    vec![Shape::O, Shape::I, Shape::L, Shape::J, Shape::S, Shape::Z, Shape::T]
}

/// A bag with one of each shape, in random order.
pub fn shuffled_bag() -> (bag: Vec<Shape>)
    ensures
        is_full_bag(bag@),
{
    let mut bag = full_bag();
    let mut rng = rand::thread_rng();
    proof {
        lemma_all_shapes_is_full_bag();
    }
    shuffle(&mut bag, &mut rng);
    bag
}

} // verus!
