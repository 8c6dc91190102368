//! The build/link metadata contract.
//!
//! The external runtime-build collaborator reports three colon-separated
//! lists: linker search directories, linker arguments selecting the fixed
//! memory layout, and static libraries to link. This crate only consumes
//! and forwards those values; it never produces them. The reading of the
//! lists and the emission of the resulting build directives happen at the
//! build edge outside the library; the parsing of a list into its entries
//! is here, with its contract: the entries are exactly the colon-free
//! pieces of the list, in order, and joining them back with colons yields
//! the list unchanged.

use vstd::prelude::*;

use vstd::string::StrSliceExecFns;

verus! {

/// The pieces joined into one list, with a colon between neighbours.
pub open spec fn spec_join_colon(pieces: Seq<Seq<char>>) -> Seq<char>
    decreases pieces.len(),
{
    if pieces.len() == 0 {
        Seq::empty()
    } else if pieces.len() == 1 {
        pieces[0]
    } else {
        pieces[0] + seq![':'] + spec_join_colon(pieces.drop_first())
    }
}

/// Appending one more piece appends a colon and the piece to the join.
proof fn lemma_join_colon_push(pieces: Seq<Seq<char>>, piece: Seq<char>)
    requires
        pieces.len() >= 1,
    ensures
        spec_join_colon(pieces.push(piece)) == spec_join_colon(pieces) + seq![':'] + piece,
    decreases pieces.len(),
{
    let appended = pieces.push(piece);
    assert(appended[0] == pieces[0]);
    if pieces.len() == 1 {
        assert(appended.drop_first() =~= seq![piece]);
        assert(spec_join_colon(seq![piece]) == piece);
        assert(spec_join_colon(appended) == pieces[0] + seq![':'] + piece);
        assert(spec_join_colon(pieces) == pieces[0]);
    } else {
        assert(appended.drop_first() =~= pieces.drop_first().push(piece));
        lemma_join_colon_push(pieces.drop_first(), piece);
        assert(spec_join_colon(appended) == pieces[0] + seq![':'] + (spec_join_colon(
            pieces.drop_first(),
        ) + seq![':'] + piece));
        assert(pieces[0] + seq![':'] + (spec_join_colon(pieces.drop_first()) + seq![':'] + piece)
            =~= (pieces[0] + seq![':'] + spec_join_colon(pieces.drop_first())) + seq![':']
            + piece);
        assert(spec_join_colon(pieces) == pieces[0] + seq![':'] + spec_join_colon(
            pieces.drop_first(),
        ));
    }
}

/// Extending the last piece by one character extends the join by exactly
/// that character.
proof fn lemma_join_colon_last_push(pieces: Seq<Seq<char>>, c: char)
    requires
        pieces.len() >= 1,
    ensures
        spec_join_colon(pieces.update(pieces.len() - 1, pieces.last().push(c)))
            == spec_join_colon(pieces).push(c),
    decreases pieces.len(),
{
    let updated = pieces.update(pieces.len() - 1, pieces.last().push(c));
    if pieces.len() == 1 {
        assert(updated =~= seq![pieces[0].push(c)]);
        assert(spec_join_colon(updated) == pieces[0].push(c));
        assert(spec_join_colon(pieces) == pieces[0]);
    } else {
        let rest = pieces.drop_first();
        assert(updated.drop_first() =~= rest.update(rest.len() - 1, rest.last().push(c)));
        lemma_join_colon_last_push(rest, c);
        assert(updated[0] == pieces[0]);
        assert(spec_join_colon(updated) == pieces[0] + seq![':'] + spec_join_colon(rest).push(c));
        assert(pieces[0] + seq![':'] + spec_join_colon(rest).push(c) =~= (pieces[0] + seq![':']
            + spec_join_colon(rest)).push(c));
        assert(spec_join_colon(pieces) == pieces[0] + seq![':'] + spec_join_colon(rest));
    }
}

/// Splits a colon-separated metadata list into its entries.
///
/// The entries are colon-free, keep the list's order, and joining them
/// back with colons gives the list unchanged; an empty list yields one
/// empty entry, matching the degenerate value an empty report produces.
pub fn split_link_list(list: &str) -> (r: Vec<String>)
    ensures
        r@.len() >= 1,
        forall|i: int| 0 <= i < r@.len() ==> !(#[trigger] r@[i])@.contains(':'),
        spec_join_colon(r@.map_values(|p: String| p@)) == list@,
{
    let len = list.unicode_len();
    let mut pieces: Vec<String> = Vec::new();
    let mut start: usize = 0;
    let mut k: usize = 0;
    proof {
        assert(pieces@.map_values(|p: String| p@).push(list@.subrange(0, 0)) =~= seq![
            list@.subrange(0, 0),
        ]);
    }
    while k < len
        invariant
            len == list@.len(),
            start <= k <= len,
            forall|j: int| start <= j < k ==> list@[j] != ':',
            forall|i: int| 0 <= i < pieces@.len() ==> !(#[trigger] pieces@[i])@.contains(':'),
            spec_join_colon(
                pieces@.map_values(|p: String| p@).push(
                    list@.subrange(start as int, k as int),
                ),
            ) == list@.subrange(0, k as int),
        decreases len - k,
    {
        let ghost prior = pieces@.map_values(|p: String| p@);
        let ghost pending = list@.subrange(start as int, k as int);
        if list.get_char(k) == ':' {
            let piece = list.substring_char(start, k);
            pieces.push(piece.to_owned());
            proof {
                assert(forall|t: int| 0 <= t < pending.len() ==> pending[t] != ':');
                assert(!pending.contains(':'));
                assert(pieces@.map_values(|p: String| p@) =~= prior.push(pending));
                lemma_join_colon_push(prior.push(pending), list@.subrange(k + 1, k + 1));
                assert(list@.subrange(start as int, k as int + 1) =~= pending.push(list@[k as int]));
                assert(list@.subrange(0, k as int) + seq![':'] + list@.subrange(k + 1, k + 1)
                    =~= list@.subrange(0, k as int + 1));
            }
            start = k + 1;
        } else {
            proof {
                let joined = prior.push(pending);
                lemma_join_colon_last_push(joined, list@[k as int]);
                assert(joined.update(joined.len() - 1, joined.last().push(list@[k as int]))
                    =~= prior.push(pending.push(list@[k as int])));
                assert(list@.subrange(start as int, k as int + 1) =~= pending.push(list@[k as int]));
                assert(list@.subrange(0, k as int + 1) =~= list@.subrange(0, k as int).push(
                    list@[k as int],
                ));
            }
        }
        k += 1;
    }
    let ghost prior = pieces@.map_values(|p: String| p@);
    let ghost pending = list@.subrange(start as int, len as int);
    let last_piece = list.substring_char(start, len);
    pieces.push(last_piece.to_owned());
    proof {
        assert(forall|t: int| 0 <= t < pending.len() ==> pending[t] != ':');
        assert(!pending.contains(':'));
        assert(pieces@.map_values(|p: String| p@) =~= prior.push(pending));
        assert(list@.subrange(0, len as int) =~= list@);
    }
    pieces
}

} // verus!
