//! Building command-line argument vectors whose texts are known exactly.
use vstd::prelude::*;

use crate::text::owned;
use crate::text::spec_opt_str;
use crate::text::spec_strs;

verus! {

/// `flag value` when there is a value, nothing otherwise.
pub open spec fn spec_option(flag: Seq<char>, value: Option<Seq<char>>) -> Seq<Seq<char>> {
    match value {
        Some(v) => seq![flag, v],
        None => Seq::empty(),
    }
}

pub fn push_arg(args: &mut Vec<String>, a: &str)
    ensures
        spec_strs(final(args)@) == spec_strs(old(args)@).push(a@),
{
    let ghost before = args@;
    args.push(owned(a));
    assert(spec_strs(args@) =~= spec_strs(before).push(a@));
}

pub fn push_option(args: &mut Vec<String>, flag: &str, value: &Option<String>)
    ensures
        spec_strs(final(args)@) == spec_strs(old(args)@) + spec_option(flag@, spec_opt_str(*value)),
{
    match value {
        Some(v) => {
            push_arg(args, flag);
            push_arg(args, v.as_str());
            assert(spec_strs(args@) =~= spec_strs(old(args)@) + seq![flag@, v@]);
        },
        None => {
            assert(spec_strs(args@) =~= spec_strs(old(args)@) + Seq::<Seq<char>>::empty());
        },
    }
}

/// Appends `flag value`.
pub fn push_flag(args: &mut Vec<String>, flag: &str, value: &str)
    ensures
        spec_strs(final(args)@) == spec_strs(old(args)@) + seq![flag@, value@],
{
    push_arg(args, flag);
    push_arg(args, value);
    assert(spec_strs(args@) =~= spec_strs(old(args)@) + seq![flag@, value@]);
}

/// The parts joined with commas.
pub open spec fn spec_join_commas(parts: Seq<Seq<char>>) -> Seq<char>
    decreases parts.len(),
{
    if parts.len() == 0 {
        Seq::empty()
    } else if parts.len() == 1 {
        parts[0]
    } else {
        spec_join_commas(parts.drop_last()) + ","@ + parts.last()
    }
}

/// Joins texts with commas.
pub fn join_commas(parts: &Vec<String>) -> (r: String)
    ensures
        r@ == spec_join_commas(spec_strs(parts@)),
{
    let mut out = String::new();
    let mut i: usize = 0;
    proof {
        reveal_strlit("");
    }
    while i < parts.len()
        invariant
            i <= parts@.len(),
            out@ == spec_join_commas(spec_strs(parts@.take(i as int))),
        decreases parts.len() - i,
    {
        proof {
            assert(spec_strs(parts@.take(i + 1)).drop_last() =~= spec_strs(parts@.take(i as int)));
            assert(spec_strs(parts@.take(i + 1)).last() == parts@[i as int]@);
        }
        if i > 0 {
            crate::text::push_str(&mut out, ",");
        } else {
            assert(out@ =~= Seq::<char>::empty());
        }
        crate::text::push_str(&mut out, parts[i].as_str());
        i += 1;
    }
    proof {
        assert(parts@.take(parts@.len() as int) =~= parts@);
    }
    out
}

} // verus!
