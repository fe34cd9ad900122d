use vstd::prelude::*;
use vstd::string::*;

verus! {

/// The characters of a string slice, in order.
pub fn chars_of(s: &str) -> (v: Vec<char>)
    ensures
        v@ == s@,
{
    let mut v: Vec<char> = Vec::new();
    for c in it: s.chars()
        invariant
            v@ == it.seq().take(it.index() as int),
    {
        v.push(c);
    }
    v
}


/// Whether a character has Unicode's `White_Space` property, the property
/// that `char::is_whitespace` and `str::trim` go by.
pub open spec fn is_white_space(c: char) -> bool {
    let u: u32 = c as u32;
    ||| 0x9 <= u <= 0xD
    ||| u == 0x20
    ||| u == 0x85
    ||| u == 0xA0
    ||| u == 0x1680
    ||| 0x2000 <= u <= 0x200A
    ||| u == 0x2028
    ||| u == 0x2029
    ||| u == 0x202F
    ||| u == 0x205F
    ||| u == 0x3000
}

/// The 25 code points that Unicode gives the `White_Space` property: tab,
/// line feed, vertical tab, form feed, carriage return, space, next line,
/// no-break space, ogham space mark, the eleven spaces from en quad to hair
/// space, line and paragraph separator, narrow no-break space, medium
/// mathematical space and ideographic space.
pub open spec fn unicode_white_space_codes() -> Set<u32> {
    set![
        0x9u32, 0xAu32, 0xBu32, 0xCu32, 0xDu32, 0x20u32, 0x85u32, 0xA0u32, 0x1680u32,
        0x2000u32, 0x2001u32, 0x2002u32, 0x2003u32, 0x2004u32, 0x2005u32, 0x2006u32,
        0x2007u32, 0x2008u32, 0x2009u32, 0x200Au32, 0x2028u32, 0x2029u32, 0x202Fu32,
        0x205Fu32, 0x3000u32,
    ]
}

/// The white space characters are exactly those with Unicode's `White_Space`
/// property; carriage return among them.
pub proof fn lemma_white_space_is_unicode(c: char)
    ensures
        is_white_space(c) <==> unicode_white_space_codes().contains(c as u32),
        is_white_space('\t') && is_white_space('\n') && is_white_space('\r') && is_white_space(' '),
{
}

/// Whether a text is empty once trimmed: every character is white space.
pub open spec fn is_blank(s: Seq<char>) -> bool {
    forall|i: int| 0 <= i < s.len() ==> is_white_space(#[trigger] s[i])
}

/// Decides `is_white_space` for one character.
pub fn white_space(c: char) -> (b: bool)
    ensures
        b == is_white_space(c),
{
    let u: u32 = c as u32;
    (0x9 <= u && u <= 0xD) || u == 0x20 || u == 0x85 || u == 0xA0 || u == 0x1680 || (0x2000 <= u
        && u <= 0x200A) || u == 0x2028 || u == 0x2029 || u == 0x202F || u == 0x205F || u == 0x3000
}

/// The pieces of a text between occurrences of a separator, as `str::split`
/// with a character gives them: always at least one piece, empty pieces kept.
pub open spec fn split_on(s: Seq<char>, sep: char) -> Seq<Seq<char>>
    decreases s.len(),
{
    if s.len() == 0 {
        seq![Seq::<char>::empty()]
    } else {
        let pieces = split_on(s.drop_last(), sep);
        if s.last() == sep {
            pieces.push(Seq::<char>::empty())
        } else {
            pieces.update(pieces.len() - 1, pieces.last().push(s.last()))
        }
    }
}

/// Joins pieces with a separator between each two.
pub open spec fn join_with(pieces: Seq<Seq<char>>, sep: char) -> Seq<char>
    decreases pieces.len(),
{
    if pieces.len() == 0 {
        Seq::<char>::empty()
    } else if pieces.len() == 1 {
        pieces[0]
    } else {
        join_with(pieces.drop_last(), sep).push(sep) + pieces.last()
    }
}

/// The pieces that are not blank, in order.
pub open spec fn non_blank(pieces: Seq<Seq<char>>) -> Seq<Seq<char>>
    decreases pieces.len(),
{
    if pieces.len() == 0 {
        Seq::<Seq<char>>::empty()
    } else if is_blank(pieces.last()) {
        non_blank(pieces.drop_last())
    } else {
        non_blank(pieces.drop_last()).push(pieces.last())
    }
}

/// `split_on` never gives an empty list of pieces.
pub proof fn lemma_split_nonempty(s: Seq<char>, sep: char)
    ensures
        split_on(s, sep).len() >= 1,
    decreases s.len(),
{
    if s.len() > 0 {
        lemma_split_nonempty(s.drop_last(), sep);
    }
}

/// Splitting a text on a separator and joining the pieces with it gives the
/// text back.
pub proof fn lemma_split_join(s: Seq<char>, sep: char)
    ensures
        join_with(split_on(s, sep), sep) == s,
    decreases s.len(),
{
    if s.len() > 0 {
        let init = s.drop_last();
        lemma_split_join(init, sep);
        lemma_split_nonempty(init, sep);
        let pieces = split_on(init, sep);
        if s.last() == sep {
            assert(split_on(s, sep).drop_last() =~= pieces);
            assert(s =~= init.push(sep) + Seq::<char>::empty());
        } else {
            let grown = pieces.update(pieces.len() - 1, pieces.last().push(s.last()));
            assert(grown.drop_last() =~= pieces.drop_last());
            if pieces.len() == 1 {
                assert(s =~= pieces[0].push(s.last()));
            } else {
                let head = join_with(pieces.drop_last(), sep).push(sep);
                assert(init == head + pieces.last());
                assert(s =~= init.push(s.last()));
                assert(s =~= head + pieces.last().push(s.last()));
                assert(join_with(grown, sep) == join_with(grown.drop_last(), sep).push(sep)
                    + grown.last());
            }
        }
    }
}

/// No piece of `split_on` holds the separator.
pub proof fn lemma_split_pieces_free_of_sep(s: Seq<char>, sep: char)
    ensures
        forall|k: int, j: int|
            0 <= k < split_on(s, sep).len() && 0 <= j < split_on(s, sep)[k].len() ==> #[trigger] split_on(
                s,
                sep,
            )[k][j] != sep,
    decreases s.len(),
{
    if s.len() > 0 {
        lemma_split_pieces_free_of_sep(s.drop_last(), sep);
        lemma_split_nonempty(s.drop_last(), sep);
    }
}


/// Every piece that `non_blank` keeps is a piece of the input and not blank.
pub proof fn lemma_non_blank_kept(pieces: Seq<Seq<char>>)
    ensures
        forall|k: int|
            0 <= k < non_blank(pieces).len() ==> !is_blank(#[trigger] non_blank(pieces)[k])
                && pieces.contains(non_blank(pieces)[k]),
    decreases pieces.len(),
{
    if pieces.len() > 0 {
        let init = pieces.drop_last();
        lemma_non_blank_kept(init);
        assert forall|k: int| 0 <= k < non_blank(pieces).len() implies !is_blank(
            #[trigger] non_blank(pieces)[k],
        ) && pieces.contains(non_blank(pieces)[k]) by {
            if k < non_blank(init).len() {
                assert(non_blank(pieces)[k] == non_blank(init)[k]);
                let m: int = choose|m: int| 0 <= m < init.len() && init[m] == non_blank(init)[k];
                assert(pieces[m] == init[m]);
            } else {
                assert(pieces[pieces.len() - 1] == pieces.last());
            }
        }
    }
}

} // verus!
