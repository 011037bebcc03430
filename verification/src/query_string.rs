//! The query-string component: decodes a `key=value&key=value`
//! fragment and answers lookups, where a repeated key yields the
//! ordered sequence of its values.

use crate::text::find_first;
use crate::text::first_hit;
use crate::text::str_eq;
use vstd::prelude::*;
use vstd::string::StrSliceExecFns;

verus! {

/// The value a key maps to: one text when the key occurs once, the
/// ordered sequence of texts when it repeats.
#[derive(Debug, PartialEq)]
pub enum Value {
    Single(String),
    Multiple(Vec<String>),
}

impl View for Value {
    type V = Seq<Seq<char>>;

    closed spec fn view(&self) -> Seq<Seq<char>> {
        match self {
            Value::Single(s) => seq![s@],
            Value::Multiple(vs) => vs.deep_view(),
        }
    }
}

/// The key and value of one `&`-delimited piece: the piece splits at
/// its first `=`; without one, the whole piece is the key and the
/// value is empty.
pub open spec fn pair_of(piece: Seq<char>) -> (Seq<char>, Seq<char>) {
    let i = first_hit(piece, '=', '=');
    if 0 <= i && i < piece.len() {
        (piece.subrange(0, i), piece.subrange(i + 1, piece.len() as int))
    } else {
        (piece, Seq::<char>::empty())
    }
}

/// The key/value pairs of a query fragment, in order: one pair per
/// `&`-delimited piece (a fragment without `&` is a single piece).
pub open spec fn qs_pairs(t: Seq<char>) -> Seq<(Seq<char>, Seq<char>)>
    decreases t.len(),
    via qs_pairs_decreases
{
    let i = first_hit(t, '&', '&');
    if 0 <= i && i < t.len() {
        seq![pair_of(t.subrange(0, i))] + qs_pairs(t.subrange(i + 1, t.len() as int))
    } else {
        seq![pair_of(t)]
    }
}

#[via_fn]
proof fn qs_pairs_decreases(t: Seq<char>) {
    crate::text::lemma_first_hit_props(t, '&', '&');
}

/// The values of the pairs whose key is `key`, in order.
pub open spec fn vals_of(pairs: Seq<(Seq<char>, Seq<char>)>, key: Seq<char>) -> Seq<Seq<char>>
    decreases pairs.len(),
{
    if pairs.len() == 0 {
        Seq::<Seq<char>>::empty()
    } else {
        vals_of(pairs.drop_last(), key) + (if pairs.last().0 == key {
            seq![pairs.last().1]
        } else {
            Seq::<Seq<char>>::empty()
        })
    }
}

/// The ordered values that `key` maps to in the query fragment `t`.
pub open spec fn qs_vals(t: Seq<char>, key: Seq<char>) -> Seq<Seq<char>> {
    vals_of(qs_pairs(t), key)
}

/// A decoded query string. It holds the raw fragment; lookups scan it.
#[derive(Debug, PartialEq)]
pub struct QueryString {
    raw: String,
}

impl View for QueryString {
    type V = Seq<char>;

    closed spec fn view(&self) -> Seq<char> {
        self.raw@
    }
}

/// Appends to `vals` the value of `piece`'s pair when its key is
/// `key`, and leaves `vals` unchanged otherwise.
fn accum_piece(piece: &str, key: &str, vals: &mut Vec<String>)
    ensures
        final(vals).deep_view() == old(vals).deep_view() + (if pair_of(piece@).0 == key@ {
            seq![pair_of(piece@).1]
        } else {
            Seq::<Seq<char>>::empty()
        }),
{
    let n = piece.unicode_len();
    let j = find_first(piece, '=', '=');
    let ghost prior = vals.deep_view();
    if j < n {
        let k = piece.substring_char(0, j);
        let v = piece.substring_char(j + 1, n);
        if str_eq(k, key) {
            vals.push(v.to_owned());
        }
    } else {
        if str_eq(piece, key) {
            vals.push(String::new());
        }
    }
    proof {
        if pair_of(piece@).0 == key@ {
            assert(vals.deep_view() =~= prior + seq![pair_of(piece@).1]);
        } else {
            assert(vals.deep_view() =~= prior);
        }
    }
}

impl QueryString {
    /// Decodes a query fragment. Total: the fragment is kept whole and
    /// interpreted on lookup.
    pub fn decode(s: &str) -> (r: QueryString)
        ensures
            r@ == s@,
    {
        QueryString { raw: s.to_owned() }
    }

    /// The values `key` maps to: absent when the key never occurs, one
    /// text when it occurs once, the ordered sequence when it repeats.
    pub fn get(&self, key: &str) -> (r: Option<Value>)
        ensures
            ({
                let vs = qs_vals(self@, key@);
                match r {
                    None => vs.len() == 0,
                    Some(v) => vs.len() > 0 && v@ == vs && ((v is Single) <==> vs.len() == 1),
                }
            }),
    {
        let ghost t = self.raw@;
        let mut vals: Vec<String> = Vec::new();
        let mut rem: &str = self.raw.as_str();
        let mut more: bool = true;
        let ghost mut done: Seq<(Seq<char>, Seq<char>)> = Seq::empty();
        while more
            invariant
                more ==> qs_pairs(t) == done + qs_pairs(rem@),
                !more ==> qs_pairs(t) == done,
                vals.deep_view() == vals_of(done, key@),
            decreases rem@.len() + (if more {
                1int
            } else {
                0int
            }),
        {
            let n = rem.unicode_len();
            let i = find_first(rem, '&', '&');
            if i < n {
                let piece = rem.substring_char(0, i);
                let next = rem.substring_char(i + 1, n);
                accum_piece(piece, key, &mut vals);
                proof {
                    let p = pair_of(piece@);
                    assert(qs_pairs(rem@) == seq![p] + qs_pairs(next@));
                    assert(done.push(p).drop_last() =~= done);
                    assert(done.push(p).last() == p);
                    assert(done + qs_pairs(rem@) =~= done.push(p) + qs_pairs(next@));
                    done = done.push(p);
                }
                rem = next;
            } else {
                accum_piece(rem, key, &mut vals);
                proof {
                    let p = pair_of(rem@);
                    assert(qs_pairs(rem@) == seq![p]);
                    assert(done.push(p).drop_last() =~= done);
                    assert(done.push(p).last() == p);
                    assert(done + qs_pairs(rem@) =~= done.push(p));
                    done = done.push(p);
                }
                more = false;
            }
        }
        let ghost vs = qs_vals(t, key@);
        assert(vals.deep_view() == vs);
        if vals.len() == 0 {
            None
        } else if vals.len() == 1 {
            let s = vals.remove(0);
            proof {
                assert(seq![s@] =~= vs);
            }
            Some(Value::Single(s))
        } else {
            Some(Value::Multiple(vals))
        }
    }
}

} // verus!
