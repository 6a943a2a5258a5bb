use vstd::prelude::*;

verus! {

/// Whether `c` has Unicode's White_Space property.
pub uninterp spec fn white_space(c: char) -> bool;

/// Relies on `char::is_whitespace`: true exactly for the characters with
/// Unicode's White_Space property, a fixed property of the character.
#[verifier::external_body]
fn is_white_space(c: char) -> (r: bool)
    ensures
        r == white_space(c),
{
    c.is_whitespace()
}

/// Tokens of level text are separated by white space and commas.
pub open spec fn is_separator(c: char) -> bool {
    white_space(c) || c == ','
}

/// The words of `s`, where `cur` is the word already begun before `s`:
/// maximal runs of characters that are not separators, in order.
pub open spec fn split_words(s: Seq<char>, cur: Seq<char>) -> Seq<Seq<char>>
    decreases s.len(),
{
    if s.len() == 0 {
        if cur.len() == 0 {
            seq![]
        } else {
            seq![cur]
        }
    } else if is_separator(s[0]) {
        (if cur.len() == 0 {
            seq![]
        } else {
            seq![cur]
        }) + split_words(s.drop_first(), seq![])
    } else {
        split_words(s.drop_first(), cur.push(s[0]))
    }
}

/// The non-empty tokens of `s`, split at white space and commas.
pub open spec fn tokens(s: Seq<char>) -> Seq<Seq<char>> {
    split_words(s, seq![])
}

/// The views of a sequence of character vectors.
pub open spec fn char_views(v: Seq<Vec<char>>) -> Seq<Seq<char>> {
    v.map_values(|w: Vec<char>| w@)
}

/// Splits `s` into its tokens.
pub fn split_tokens(s: &str) -> (r: Vec<Vec<char>>)
    ensures
        char_views(r@) == tokens(s@),
{
    let mut acc: Vec<Vec<char>> = Vec::new();
    let mut cur: Vec<char> = Vec::new();
    assert(s@.skip(0) =~= s@);
    assert(char_views(acc@) + tokens(s@) =~= tokens(s@));
    assert(cur@ =~= seq![]);
    for c in it: s.chars()
        invariant
            it.seq() == s@,
            tokens(s@) == char_views(acc@) + split_words(s@.skip(it.index() as int), cur@),
    {
        let ghost k = it.index() as int;
        let ghost rest = s@.skip(k);
        proof {
            assert(rest[0] == c);
            assert(rest.drop_first() =~= s@.skip(k + 1));
        }
        if is_white_space(c) || c == ',' {
            if cur.len() > 0 {
                let ghost a0 = acc@;
                let ghost w = cur@;
                acc.push(cur);
                proof {
                    assert(char_views(acc@) =~= char_views(a0).push(w));
                    assert(char_views(a0) + (seq![w] + split_words(s@.skip(k + 1), seq![]))
                        =~= char_views(acc@) + split_words(s@.skip(k + 1), seq![]));
                }
            } else {
                assert(seq![] + split_words(s@.skip(k + 1), seq![]) =~= split_words(s@.skip(k + 1), seq![]));
            }
            cur = Vec::new();
            assert(cur@ =~= seq![]);
        } else {
            cur.push(c);
        }
    }
    proof {
        assert(s@.skip(s@.len() as int) =~= seq![]);
    }
    if cur.len() > 0 {
        let ghost a0 = acc@;
        let ghost w = cur@;
        acc.push(cur);
        assert(char_views(acc@) =~= char_views(a0) + seq![w]);
    } else {
        assert(char_views(acc@) + seq![] =~= char_views(acc@));
    }
    acc
}

} // verus!
