//! Assembly of engine command lines.

use vstd::prelude::*;
use crate::text::{dec_digits, u64_to_text};

verus! {

/// The texts of a list of strings.
pub open spec fn texts(v: Seq<String>) -> Seq<Seq<char>> {
    v.map_values(|s: String| s@)
}

/// `[flag, value]` when the value is present, nothing otherwise.
pub open spec fn opt_pair(flag: Seq<char>, v: Option<String>) -> Seq<Seq<char>> {
    match v {
        Some(x) => seq![flag, x@],
        None => Seq::empty(),
    }
}

/// `[flag, decimal value]` when the value is present, nothing otherwise.
pub open spec fn opt_num_pair(flag: Seq<char>, v: Option<u32>) -> Seq<Seq<char>> {
    match v {
        Some(x) => seq![flag, dec_digits(x as nat)],
        None => Seq::empty(),
    }
}

/// `[flag, value]` when the value is non-empty, nothing otherwise.
pub open spec fn nonempty_pair(flag: Seq<char>, v: Seq<char>) -> Seq<Seq<char>> {
    if v.len() > 0 {
        seq![flag, v]
    } else {
        Seq::empty()
    }
}

/// `[flag]` when the condition holds, nothing otherwise.
pub open spec fn flag_if(flag: Seq<char>, cond: bool) -> Seq<Seq<char>> {
    if cond {
        seq![flag]
    } else {
        Seq::empty()
    }
}

/// The non-empty extra arguments, in order.
pub open spec fn nonempty_texts(v: Seq<String>) -> Seq<Seq<char>>
    decreases v.len(),
{
    if v.len() == 0 {
        Seq::empty()
    } else if v.last()@.len() > 0 {
        nonempty_texts(v.drop_last()).push(v.last()@)
    } else {
        nonempty_texts(v.drop_last())
    }
}

/// `flag` stands in the command line immediately followed by `v`.
#[verifier::opaque]
pub open spec fn has_pair(args: Seq<Seq<char>>, flag: Seq<char>, v: Seq<char>) -> bool {
    exists|i: int| 0 <= i && i + 1 < args.len() && #[trigger] args[i] == flag && args[i + 1] == v
}

/// A flag and its value stand together.
pub proof fn lemma_flag_pair(f: Seq<char>, v: Seq<char>)
    ensures
        has_pair(seq![f, v], f, v),
{
    reveal(has_pair);
    let s = seq![f, v];
    assert(s[0] == f && s[1] == v);
}

/// A single argument stands in its one-argument line.
pub proof fn lemma_single(x: Seq<char>)
    ensures
        seq![x].contains(x),
{
    assert(seq![x][0] == x);
}

/// What a part of a command line holds, the whole line holds: a flag
/// followed by its value, or a single argument.
pub proof fn lemma_parts_of_line()
    ensures
        forall|a: Seq<Seq<char>>, b: Seq<Seq<char>>, f: Seq<char>, v: Seq<char>|
            (has_pair(a, f, v) || has_pair(b, f, v)) ==> #[trigger] has_pair(a + b, f, v),
        forall|a: Seq<Seq<char>>, b: Seq<Seq<char>>, x: Seq<char>|
            (a.contains(x) || b.contains(x)) ==> #[trigger] (a + b).contains(x),
{
    assert forall|a: Seq<Seq<char>>, b: Seq<Seq<char>>, f: Seq<char>, v: Seq<char>|
        (has_pair(a, f, v) || has_pair(b, f, v)) implies #[trigger] has_pair(a + b, f, v) by {
        reveal(has_pair);
        let ab = a + b;
        if has_pair(a, f, v) {
            let i = choose|i: int| 0 <= i && i + 1 < a.len() && #[trigger] a[i] == f && a[i + 1] == v;
            assert(ab[i] == a[i] && ab[i + 1] == a[i + 1]);
        } else {
            let i = choose|i: int| 0 <= i && i + 1 < b.len() && #[trigger] b[i] == f && b[i + 1] == v;
            let j = i + a.len();
            assert(ab[j] == b[i] && ab[j + 1] == b[i + 1]);
        }
    }
    assert forall|a: Seq<Seq<char>>, b: Seq<Seq<char>>, x: Seq<char>|
        (a.contains(x) || b.contains(x)) implies #[trigger] (a + b).contains(x) by {
        let ab = a + b;
        if a.contains(x) {
            let i = choose|i: int| 0 <= i < a.len() && a[i] == x;
            assert(ab[i] == x);
        } else {
            let i = choose|i: int| 0 <= i < b.len() && b[i] == x;
            assert(ab[i + a.len()] == x);
        }
    }
}

/// Every non-empty extra argument stays in the kept ones.
pub proof fn lemma_nonempty_texts_keep(v: Seq<String>)
    ensures
        forall|k: int| 0 <= k < v.len() && v[k]@.len() > 0 ==> nonempty_texts(v).contains(#[trigger] v[k]@),
    decreases v.len(),
{
    if v.len() > 0 {
        let rest = v.drop_last();
        lemma_nonempty_texts_keep(rest);
        assert forall|k: int| 0 <= k < v.len() && v[k]@.len() > 0 implies nonempty_texts(v).contains(#[trigger] v[k]@) by {
            if k < v.len() - 1 {
                assert(rest[k] == v[k]);
                let t = nonempty_texts(rest);
                let i = choose|i: int| 0 <= i < t.len() && t[i] == v[k]@;
                if v.last()@.len() > 0 {
                    assert(t.push(v.last()@)[i] == v[k]@);
                }
            } else {
                let t = nonempty_texts(rest);
                assert(t.push(v.last()@)[t.len() as int] == v[k]@);
            }
        }
    }
}

pub fn push_text(args: &mut Vec<String>, s: String)
    ensures
        texts(final(args)@) == texts(old(args)@).push(s@),
{
    args.push(s);
    assert(texts(final(args)@) =~= texts(old(args)@).push(s@));
}

pub fn push_literal(args: &mut Vec<String>, s: &str)
    ensures
        texts(final(args)@) == texts(old(args)@) + seq![s@],
{
    push_text(args, String::from_str(s));
    assert(texts(final(args)@) =~= texts(old(args)@) + seq![s@]);
}

pub fn push_number(args: &mut Vec<String>, n: u64)
    ensures
        texts(final(args)@) == texts(old(args)@) + seq![dec_digits(n as nat)],
{
    push_text(args, u64_to_text(n));
    assert(texts(final(args)@) =~= texts(old(args)@) + seq![dec_digits(n as nat)]);
}

pub fn push_opt_pair(args: &mut Vec<String>, flag: &str, v: &Option<String>)
    ensures
        texts(final(args)@) == texts(old(args)@) + opt_pair(flag@, *v),
{
    match v {
        Some(x) => {
            push_text(args, String::from_str(flag));
            push_text(args, x.clone());
            assert(texts(final(args)@) =~= texts(old(args)@) + opt_pair(flag@, *v));
        },
        None => {
            assert(texts(final(args)@) =~= texts(old(args)@) + opt_pair(flag@, *v));
        },
    }
}

pub fn push_opt_num_pair(args: &mut Vec<String>, flag: &str, v: Option<u32>)
    ensures
        texts(final(args)@) == texts(old(args)@) + opt_num_pair(flag@, v),
{
    match v {
        Some(x) => {
            push_text(args, String::from_str(flag));
            push_text(args, u64_to_text(x as u64));
            assert(texts(final(args)@) =~= texts(old(args)@) + opt_num_pair(flag@, v));
        },
        None => {
            assert(texts(final(args)@) =~= texts(old(args)@) + opt_num_pair(flag@, v));
        },
    }
}

pub fn push_nonempty_pair(args: &mut Vec<String>, flag: &str, v: &String)
    ensures
        texts(final(args)@) == texts(old(args)@) + nonempty_pair(flag@, v@),
{
    if !v.as_str().is_empty() {
        push_text(args, String::from_str(flag));
        push_text(args, v.clone());
    }
    assert(texts(final(args)@) =~= texts(old(args)@) + nonempty_pair(flag@, v@));
}

pub fn push_flag_if(args: &mut Vec<String>, flag: &str, cond: bool)
    ensures
        texts(final(args)@) == texts(old(args)@) + flag_if(flag@, cond),
{
    if cond {
        push_text(args, String::from_str(flag));
    }
    assert(texts(final(args)@) =~= texts(old(args)@) + flag_if(flag@, cond));
}

pub fn push_nonempty_texts(args: &mut Vec<String>, extra: &Vec<String>)
    ensures
        texts(final(args)@) == texts(old(args)@) + nonempty_texts(extra@),
{
    let ghost start = texts(args@);
    let mut i: usize = 0;
    while i < extra.len()
        invariant
            i <= extra@.len(),
            texts(args@) == start + nonempty_texts(extra@.subrange(0, i as int)),
        decreases extra.len() - i,
    {
        let ghost before = texts(args@);
        let e = &extra[i];
        if !e.as_str().is_empty() {
            push_text(args, e.clone());
        }
        proof {
            let next = extra@.subrange(0, i + 1);
            assert(next.drop_last() =~= extra@.subrange(0, i as int));
            assert(next.last() == extra@[i as int]);
            assert(texts(args@) =~= start + nonempty_texts(next));
        }
        i = i + 1;
    }
    assert(extra@.subrange(0, extra@.len() as int) =~= extra@);
}

} // verus!
