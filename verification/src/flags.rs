//! Additional flags for the sync tool, given as one flat text of the form
//! `--name value --name2 value2`, taken apart into discrete arguments.
//!
//! The text is cut at every `--`. Each piece, with the white space around it
//! removed, yields nothing where it is empty; else it is cut at every single
//! space, and yields `--` followed by its first part and, where there is one,
//! its second part. Further parts are dropped.

use crate::text::{from_chars, rows, split, split_on, to_chars, trim, trimmed};
use vstd::prelude::*;

verus! {

/// The separator between two flags: `--`.
pub open spec fn dashes() -> Seq<char> {
    seq!['-', '-']
}

/// The separator between a flag's name and its value: one space.
pub open spec fn space() -> Seq<char> {
    seq![' ']
}

/// The arguments that one piece between two `--` yields.
pub open spec fn piece_args(piece: Seq<char>) -> Seq<Seq<char>> {
    let inner = trim(piece);
    if inner.len() == 0 {
        Seq::<Seq<char>>::empty()
    } else {
        let parts = split(inner, space());
        if parts.len() > 1 {
            seq![dashes() + parts[0], parts[1]]
        } else {
            seq![dashes() + parts[0]]
        }
    }
}

/// The arguments that the pieces yield, one piece after the other.
pub open spec fn pieces_args(pieces: Seq<Seq<char>>) -> Seq<Seq<char>>
    decreases pieces.len(),
{
    if pieces.len() == 0 {
        Seq::<Seq<char>>::empty()
    } else {
        pieces_args(pieces.drop_last()) + piece_args(pieces.last())
    }
}

/// The discrete arguments that a flat flag text stands for.
pub open spec fn flag_args(flags: Seq<char>) -> Seq<Seq<char>> {
    pieces_args(split(flags, dashes()))
}

/// Appends to `args` the arguments that one piece yields.
fn push_piece_args(args: &mut Vec<String>, piece: &[char])
    ensures
        final(args).deep_view() == old(args).deep_view() + piece_args(piece@),
{
    let ghost before = args.deep_view();
    let inner = trimmed(piece);
    if inner.len() == 0 {
        assert(before + Seq::<Seq<char>>::empty() =~= before);
        return ;
    }
    let separator: Vec<char> = vec![' '];
    assert(separator@ =~= space());
    let parts = split_on(inner.as_slice(), separator.as_slice());
    let ghost found = split(inner@, space());
    assert(rows(parts@) == found);
    assert(parts@.len() == found.len());
    let mut name: Vec<char> = vec!['-', '-'];
    assert(name@ =~= dashes());
    let mut k: usize = 0;
    while k < parts[0].len()
        invariant
            parts.len() >= 1,
            k <= parts[0].len(),
            name@ == dashes() + parts[0]@.take(k as int),
        decreases parts[0].len() - k,
    {
        name.push(parts[0][k]);
        assert(parts[0]@.take(k + 1) =~= parts[0]@.take(k as int).push(parts[0]@[k as int]));
        assert(name@ =~= dashes() + parts[0]@.take(k + 1));
        k += 1;
    }
    assert(parts[0]@.take(k as int) =~= parts[0]@);
    assert(rows(parts@)[0] == parts[0]@);
    let first = from_chars(name.as_slice());
    args.push(first);
    assert(args.deep_view() =~= before.push(dashes() + found[0]));
    if parts.len() > 1 {
        assert(rows(parts@)[1] == parts[1]@);
        let second = from_chars(parts[1].as_slice());
        args.push(second);
        assert(args.deep_view() =~= before + seq![dashes() + found[0], found[1]]);
    } else {
        assert(args.deep_view() =~= before + seq![dashes() + found[0]]);
    }
}

/// Takes a flat flag text apart into discrete arguments.
pub fn parse_flags(flags: &str) -> (args: Vec<String>)
    ensures
        args.deep_view() == flag_args(flags@),
{
    let text = to_chars(flags);
    let separator: Vec<char> = vec!['-', '-'];
    assert(separator@ =~= dashes());
    let pieces = split_on(text.as_slice(), separator.as_slice());
    let mut args: Vec<String> = Vec::new();
    assert(args.deep_view() =~= Seq::<Seq<char>>::empty());
    let mut i: usize = 0;
    while i < pieces.len()
        invariant
            i <= pieces.len(),
            args.deep_view() == pieces_args(rows(pieces@).take(i as int)),
        decreases pieces.len() - i,
    {
        proof {
            let seen = rows(pieces@).take(i + 1);
            assert(seen.drop_last() =~= rows(pieces@).take(i as int));
            assert(seen.last() == pieces[i as int]@);
        }
        push_piece_args(&mut args, pieces[i].as_slice());
        i += 1;
    }
    assert(rows(pieces@).take(i as int) =~= rows(pieces@));
    args
}

/// A text that holds no `--` and is neither empty nor blank is one flag: its
/// arguments are those of the text as a single piece.
pub proof fn lemma_single_piece(flags: Seq<char>)
    requires
        split(flags, dashes()) == seq![flags],
    ensures
        flag_args(flags) == piece_args(flags),
{
    let pieces = seq![flags];
    assert(pieces.drop_last() =~= Seq::<Seq<char>>::empty());
    assert(pieces_args(pieces.drop_last()) =~= Seq::<Seq<char>>::empty());
    assert(pieces_args(pieces) =~= piece_args(flags));
}

/// Every flag contributes one or two arguments, and an empty or blank piece
/// none: a flag text never yields more than two arguments for each piece.
pub proof fn lemma_at_most_two_per_piece(pieces: Seq<Seq<char>>)
    ensures
        pieces_args(pieces).len() <= 2 * pieces.len(),
    decreases pieces.len(),
{
    if pieces.len() > 0 {
        lemma_at_most_two_per_piece(pieces.drop_last());
    }
}

} // verus!
