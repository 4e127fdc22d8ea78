//! Deterministic hashing: every value is written to the hasher as a fixed
//! sequence of byte strings, its feed, which depends on nothing but the value.
//!
//! A floating-point number is fed by its bit pattern. An optional value feeds
//! a one or a zero and then, where it is there, what it holds. A sequence
//! feeds its length and then its items in order; an array of fixed length
//! feeds its items only. A tagged value feeds the key of its kind and then
//! its payload.

use vstd::prelude::*;
use vstd::bytes::{
    lemma_auto_spec_u32_to_from_le_bytes, lemma_auto_spec_u64_to_from_le_bytes,
    spec_u32_from_le_bytes, spec_u32_to_le_bytes, spec_u64_to_le_bytes, u32_to_le_bytes, u64_to_le_bytes,
};
use std::collections::hash_map::DefaultHasher;
use std::hash::Hasher;

verus! {

/// What is written to a hasher: a sequence of byte strings, one for each
/// write.
pub type Feed = Seq<Seq<u8>>;

/// The feed of a 64-bit word: its eight bytes, least significant first.
pub open spec fn word(x: u64) -> Feed {
    seq![spec_u64_to_le_bytes(x)]
}

/// The feed of a 32-bit word: its four bytes, least significant first.
pub open spec fn half(x: u32) -> Feed {
    seq![spec_u32_to_le_bytes(x)]
}

/// The feed of a truth value: one byte, one for true and zero for false.
pub open spec fn flag(b: bool) -> Feed {
    seq![seq![if b { 1u8 } else { 0u8 }]]
}

/// The feed of a run of bytes: the bytes in one write.
pub open spec fn blob(bytes: Seq<u8>) -> Feed {
    seq![bytes]
}

/// A model whose values have a feed.
pub trait Feedable: Sized {
    /// The feed of the value.
    spec fn feed(self) -> Feed;

    /// Whether every sequence in the value has a length that fits in 64 bits.
    /// The model of a value in memory always fits.
    spec fn fits(self) -> bool;

    /// A feed tells where it ends and which value it is of: where the feeds
    /// of two values, each followed by more, are the same, the values are
    /// the same and so is what follows.
    proof fn lemma_feed_determines(a: Self, b: Self, after_a: Feed, after_b: Feed)
        requires
            a.fits(),
            b.fits(),
            a.feed() + after_a == b.feed() + after_b,
        ensures
            a == b,
            after_a == after_b,
    ;
}

/// The feeds of the items of a sequence, one after the other.
pub open spec fn items<M: Feedable>(s: Seq<M>) -> Feed
    decreases s.len(),
{
    if s.len() == 0 {
        Seq::empty()
    } else {
        s[0].feed() + items(s.skip(1))
    }
}

/// The feed of a sequence: its length, then its items.
pub open spec fn list<M: Feedable>(s: Seq<M>) -> Feed {
    word(s.len() as u64) + items(s)
}

/// The feed of an optional value.
pub open spec fn optional<M: Feedable>(o: Option<M>) -> Feed {
    match o {
        Some(x) => half(1) + x.feed(),
        None => half(0),
    }
}

/// The models of the items of a sequence.
pub open spec fn models<T: View>(s: Seq<T>) -> Seq<T::V> {
    s.map_values(|x: T| x@)
}

/// A value that can be written to a hasher, as the feed of its model.
pub trait ContentHash: View where Self::V: Feedable {
    /// Writes the value to the hasher.
    fn hash_into(&self, state: &mut DefaultHasher)
        ensures
            final(state)@ == old(state)@ + self@.feed(),
    ;

    /// The model of a value in memory fits.
    proof fn lemma_model_fits(&self)
        ensures
            self@.fits(),
    ;
}

/// Writes a 64-bit word to a hasher.
pub fn write_word(state: &mut DefaultHasher, x: u64)
    ensures
        final(state)@ == old(state)@ + word(x),
{
    let bytes = u64_to_le_bytes(x);
    state.write(bytes.as_slice());
    assert(state@ =~= old(state)@ + word(x));
}

/// Writes a 32-bit word to a hasher.
pub fn write_half(state: &mut DefaultHasher, x: u32)
    ensures
        final(state)@ == old(state)@ + half(x),
{
    let bytes = u32_to_le_bytes(x);
    state.write(bytes.as_slice());
    assert(state@ =~= old(state)@ + half(x));
}

/// Writes a truth value to a hasher.
pub fn write_flag(state: &mut DefaultHasher, b: bool)
    ensures
        final(state)@ == old(state)@ + flag(b),
{
    let bytes: [u8; 1] = [if b { 1 } else { 0 }];
    state.write(bytes.as_slice());
    assert(bytes@ =~= seq![if b { 1u8 } else { 0u8 }]);
    assert(state@ =~= old(state)@ + flag(b));
}

/// Writes a run of bytes to a hasher, in one write.
pub fn write_blob(state: &mut DefaultHasher, bytes: &[u8])
    ensures
        final(state)@ == old(state)@ + blob(bytes@),
{
    state.write(bytes);
    assert(state@ =~= old(state)@ + blob(bytes@));
}

/// The items of a longer beginning of a sequence are those of the shorter
/// one and then one item more.
pub proof fn lemma_items_step<M: Feedable>(s: Seq<M>, i: int)
    requires
        0 <= i < s.len(),
    ensures
        items(s.take(i + 1)) == items(s.take(i)) + s[i].feed(),
    decreases i,
{
    if i == 0 {
        assert(s.take(1).skip(1) =~= Seq::<M>::empty());
        assert(s.take(0) =~= Seq::<M>::empty());
        assert(items(s.take(1).skip(1)) =~= Seq::<Seq<u8>>::empty());
        assert(s.take(1)[0] == s[0]);
        assert(items(s.take(1)) =~= s[0].feed());
        assert(items(s.take(0)) + s[0].feed() =~= s[0].feed());
    } else {
        let rest = s.skip(1);
        lemma_items_step(rest, i - 1);
        assert(s.take(i + 1).skip(1) =~= rest.take(i));
        assert(s.take(i).skip(1) =~= rest.take(i - 1));
        assert(rest[i - 1] == s[i]);
        assert(items(s.take(i + 1)) =~= s[0].feed() + (items(rest.take(i - 1)) + s[i].feed()));
        assert(items(s.take(i)) =~= s[0].feed() + items(rest.take(i - 1)));
    }
}

/// Writes the items of a slice to a hasher, one after the other.
pub fn hash_items<T: ContentHash>(values: &[T], state: &mut DefaultHasher) where T::V: Feedable
    ensures
        final(state)@ == old(state)@ + items(models(values@)),
{
    let ghost all = models(values@);
    let mut i: usize = 0;
    assert(all.take(0) =~= Seq::<T::V>::empty());
    assert(state@ =~= old(state)@ + items(all.take(0)));
    while i < values.len()
        invariant
            i <= values.len(),
            all == models(values@),
            state@ == old(state)@ + items(all.take(i as int)),
        decreases values.len() - i,
    {
        let ghost before = state@;
        values[i].hash_into(state);
        proof {
            lemma_items_step(all, i as int);
            assert(all[i as int] == values@[i as int]@);
            assert(state@ =~= old(state)@ + items(all.take(i + 1)));
        }
        i = i + 1;
    }
    assert(all.take(values.len() as int) =~= all);
}

/// Writes a sequence to a hasher: its length, then its items.
pub fn hash_list<T: ContentHash>(values: &Vec<T>, state: &mut DefaultHasher) where T::V: Feedable
    ensures
        final(state)@ == old(state)@ + list(models(values@)),
{
    write_word(state, values.len() as u64);
    hash_items(values.as_slice(), state);
    assert(state@ =~= old(state)@ + list(models(values@)));
}

/// Writes an optional value to a hasher.
pub fn hash_optional<T: ContentHash>(value: &Option<T>, state: &mut DefaultHasher) where
    T::V: Feedable,

    ensures
        final(state)@ == old(state)@ + optional(
            match *value {
                Some(x) => Some(x@),
                None => None,
            },
        ),
{
    match value {
        Some(x) => {
            write_half(state, 1);
            x.hash_into(state);
            assert(state@ =~= old(state)@ + (half(1) + x@.feed()));
        },
        None => {
            write_half(state, 0);
        },
    }
}

/// Two sequences of the same length, each followed by more, that are the
/// same as a whole are the same, and so is what follows them.
pub proof fn lemma_cut<A>(a: Seq<A>, b: Seq<A>, after_a: Seq<A>, after_b: Seq<A>)
    requires
        a.len() == b.len(),
        a + after_a == b + after_b,
    ensures
        a == b,
        after_a == after_b,
{
    let n = a.len() as int;
    let whole_a = a + after_a;
    let whole_b = b + after_b;
    assert(whole_a.len() == whole_b.len());
    assert(a =~= whole_a.subrange(0, n));
    assert(b =~= whole_b.subrange(0, n));
    assert(after_a =~= whole_a.subrange(n, whole_a.len() as int));
    assert(after_b =~= whole_b.subrange(n, whole_b.len() as int));
}

/// Concatenation can be regrouped.
pub proof fn lemma_regroup<A>(a: Seq<A>, b: Seq<A>, c: Seq<A>)
    ensures
        (a + b) + c == a + (b + c),
{
    assert((a + b) + c =~= a + (b + c));
}

/// A 64-bit word is told by its feed.
pub proof fn lemma_word_determines(x: u64, y: u64, after_x: Feed, after_y: Feed)
    requires
        word(x) + after_x == word(y) + after_y,
    ensures
        x == y,
        after_x == after_y,
{
    lemma_cut(word(x), word(y), after_x, after_y);
    lemma_auto_spec_u64_to_from_le_bytes();
    assert(word(x)[0] == word(y)[0]);
}

/// A 32-bit word is told by its feed.
pub proof fn lemma_half_determines(x: u32, y: u32, after_x: Feed, after_y: Feed)
    requires
        half(x) + after_x == half(y) + after_y,
    ensures
        x == y,
        after_x == after_y,
{
    lemma_cut(half(x), half(y), after_x, after_y);
    lemma_auto_spec_u32_to_from_le_bytes();
    assert(half(x)[0] == half(y)[0]);
    assert(spec_u32_to_le_bytes(x).len() == 4 && spec_u32_from_le_bytes(spec_u32_to_le_bytes(x)) == x);
    assert(spec_u32_to_le_bytes(y).len() == 4 && spec_u32_from_le_bytes(spec_u32_to_le_bytes(y)) == y);
}

/// A truth value is told by its feed.
pub proof fn lemma_flag_determines(x: bool, y: bool, after_x: Feed, after_y: Feed)
    requires
        flag(x) + after_x == flag(y) + after_y,
    ensures
        x == y,
        after_x == after_y,
{
    lemma_cut(flag(x), flag(y), after_x, after_y);
    assert(flag(x)[0][0] == flag(y)[0][0]);
}

/// A run of bytes is told by its feed.
pub proof fn lemma_blob_determines(x: Seq<u8>, y: Seq<u8>, after_x: Feed, after_y: Feed)
    requires
        blob(x) + after_x == blob(y) + after_y,
    ensures
        x == y,
        after_x == after_y,
{
    lemma_cut(blob(x), blob(y), after_x, after_y);
    assert(blob(x)[0] == blob(y)[0]);
}

/// The items of two sequences of the same length are told by their feeds.
pub proof fn lemma_items_determine<M: Feedable>(
    s: Seq<M>,
    t: Seq<M>,
    after_s: Feed,
    after_t: Feed,
)
    requires
        s.len() == t.len(),
        forall|i: int| 0 <= i < s.len() ==> (#[trigger] s[i]).fits(),
        forall|i: int| 0 <= i < t.len() ==> (#[trigger] t[i]).fits(),
        items(s) + after_s == items(t) + after_t,
    ensures
        s == t,
        after_s == after_t,
    decreases s.len(),
{
    if s.len() == 0 {
        assert(items(s) + after_s =~= after_s);
        assert(items(t) + after_t =~= after_t);
        assert(s =~= t);
    } else {
        let rest_s = s.skip(1);
        let rest_t = t.skip(1);
        lemma_regroup(s[0].feed(), items(rest_s), after_s);
        lemma_regroup(t[0].feed(), items(rest_t), after_t);
        M::lemma_feed_determines(s[0], t[0], items(rest_s) + after_s, items(rest_t) + after_t);
        assert forall|i: int| 0 <= i < rest_s.len() implies (#[trigger] rest_s[i]).fits() by {
            assert(rest_s[i] == s[i + 1]);
        }
        assert forall|i: int| 0 <= i < rest_t.len() implies (#[trigger] rest_t[i]).fits() by {
            assert(rest_t[i] == t[i + 1]);
        }
        lemma_items_determine(rest_s, rest_t, after_s, after_t);
        assert(s =~= seq![s[0]] + rest_s);
        assert(t =~= seq![t[0]] + rest_t);
    }
}

/// Whether a sequence and its items fit.
pub open spec fn list_fits<M: Feedable>(s: Seq<M>) -> bool {
    s.len() <= u64::MAX && forall|i: int| 0 <= i < s.len() ==> (#[trigger] s[i]).fits()
}

/// A sequence is told by its feed.
pub proof fn lemma_list_determines<M: Feedable>(
    s: Seq<M>,
    t: Seq<M>,
    after_s: Feed,
    after_t: Feed,
)
    requires
        list_fits(s),
        list_fits(t),
        list(s) + after_s == list(t) + after_t,
    ensures
        s == t,
        after_s == after_t,
{
    lemma_regroup(word(s.len() as u64), items(s), after_s);
    lemma_regroup(word(t.len() as u64), items(t), after_t);
    lemma_word_determines(
        s.len() as u64,
        t.len() as u64,
        items(s) + after_s,
        items(t) + after_t,
    );
    lemma_items_determine(s, t, after_s, after_t);
}

/// Whether an optional value fits.
pub open spec fn optional_fits<M: Feedable>(o: Option<M>) -> bool {
    match o {
        Some(x) => x.fits(),
        None => true,
    }
}

/// An optional value is told by its feed.
pub proof fn lemma_optional_determines<M: Feedable>(
    a: Option<M>,
    b: Option<M>,
    after_a: Feed,
    after_b: Feed,
)
    requires
        optional_fits(a),
        optional_fits(b),
        optional(a) + after_a == optional(b) + after_b,
    ensures
        a == b,
        after_a == after_b,
{
    let rest_a: Feed = match a {
        Some(x) => x.feed(),
        None => Seq::empty(),
    };
    let rest_b: Feed = match b {
        Some(x) => x.feed(),
        None => Seq::empty(),
    };
    let tag_a: u32 = if a is Some { 1 } else { 0 };
    let tag_b: u32 = if b is Some { 1 } else { 0 };
    assert(optional(a) =~= half(tag_a) + rest_a);
    assert(optional(b) =~= half(tag_b) + rest_b);
    lemma_regroup(half(tag_a), rest_a, after_a);
    lemma_regroup(half(tag_b), rest_b, after_b);
    lemma_half_determines(tag_a, tag_b, rest_a + after_a, rest_b + after_b);
    match (a, b) {
        (Some(x), Some(y)) => {
            M::lemma_feed_determines(x, y, after_a, after_b);
        },
        _ => {
            assert(rest_a + after_a =~= after_a);
            assert(rest_b + after_b =~= after_b);
        },
    }
}

} // verus!
