//! Character-level helpers: comma splitting, language-tag prefixes and
//! decimal rendering.

use vstd::prelude::*;

verus! {

/// The texts of a sequence of strings.
pub open spec fn texts(strings: Seq<String>) -> Seq<Seq<char>> {
    strings.map_values(|s: String| s@)
}

/// The text of an optional string.
pub open spec fn opt_text(s: Option<String>) -> Option<Seq<char>> {
    match s {
        Some(t) => Some(t@),
        None => None,
    }
}

/// Appends one character to a string (std's `String::push`).
#[verifier::external_body]
pub(crate) fn push_char(s: &mut String, c: char)
    ensures
        final(s)@ == old(s)@.push(c),
{
    s.push(c);
}

/// The pieces between the commas of `s`, in the way `str::split(',')` yields
/// them: `n` commas give `n + 1` pieces, possibly empty.
pub open spec fn comma_pieces(s: Seq<char>) -> Seq<Seq<char>>
    decreases s.len(),
{
    if s.len() == 0 {
        seq![Seq::<char>::empty()]
    } else {
        let pieces = comma_pieces(s.drop_last());
        if s.last() == ',' {
            pieces.push(Seq::<char>::empty())
        } else {
            pieces.update(pieces.len() - 1, pieces.last().push(s.last()))
        }
    }
}

/// The pieces joined again, with a comma between each two.
pub open spec fn join_with_commas(pieces: Seq<Seq<char>>) -> Seq<char>
    decreases pieces.len(),
{
    if pieces.len() == 0 {
        Seq::<char>::empty()
    } else if pieces.len() == 1 {
        pieces[0]
    } else {
        join_with_commas(pieces.drop_last()).push(',') + pieces.last()
    }
}

proof fn lemma_comma_pieces_len(s: Seq<char>)
    ensures
        comma_pieces(s).len() >= 1,
    decreases s.len(),
{
    if s.len() > 0 {
        lemma_comma_pieces_len(s.drop_last());
    }
}

proof fn lemma_join_extend_last(pieces: Seq<Seq<char>>, c: char)
    requires
        pieces.len() >= 1,
    ensures
        join_with_commas(pieces.update(pieces.len() - 1, pieces.last().push(c)))
            == join_with_commas(pieces).push(c),
{
    let updated = pieces.update(pieces.len() - 1, pieces.last().push(c));
    if pieces.len() >= 2 {
        assert(updated.drop_last() =~= pieces.drop_last());
        let head = join_with_commas(pieces.drop_last()).push(',');
        assert(head + pieces.last().push(c) =~= (head + pieces.last()).push(c));
    }
}

/// Splitting at the commas loses nothing: joining the pieces with commas
/// gives back the text, and no piece holds a comma.
pub proof fn lemma_comma_pieces_join(s: Seq<char>)
    ensures
        join_with_commas(comma_pieces(s)) == s,
        forall|i: int| 0 <= i < comma_pieces(s).len() ==> !#[trigger] comma_pieces(s)[i].contains(','),
    decreases s.len(),
{
    if s.len() > 0 {
        let prefix = s.drop_last();
        lemma_comma_pieces_join(prefix);
        lemma_comma_pieces_len(prefix);
        let pieces = comma_pieces(prefix);
        if s.last() == ',' {
            let pushed = pieces.push(Seq::<char>::empty());
            assert(pushed.drop_last() =~= pieces);
            assert(join_with_commas(pushed) =~= prefix.push(','));
            assert(prefix.push(',') =~= s);
            assert forall|i: int| 0 <= i < pushed.len() implies !#[trigger] pushed[i].contains(',') by {
                if i < pieces.len() {
                    assert(pushed[i] == pieces[i]);
                } else {
                    assert(pushed[i] =~= Seq::<char>::empty());
                }
            }
        } else {
            lemma_join_extend_last(pieces, s.last());
            assert(prefix.push(s.last()) =~= s);
            let updated = pieces.update(pieces.len() - 1, pieces.last().push(s.last()));
            assert forall|i: int| 0 <= i < updated.len() implies !#[trigger] updated[i].contains(',') by {
                if i < pieces.len() - 1 {
                    assert(updated[i] == pieces[i]);
                } else {
                    let last = pieces.last();
                    assert(!pieces[pieces.len() - 1].contains(','));
                    if updated[i].contains(',') {
                        let k = choose|k: int| 0 <= k < updated[i].len() && updated[i][k] == ',';
                        if k < last.len() {
                            assert(last[k] == ',');
                            assert(last.contains(','));
                        }
                    }
                }
            }
        }
    }
}

/// Splits `s` at each comma, as `str::split(',')` does.
pub fn split_commas(s: &str) -> (pieces: Vec<String>)
    ensures
        pieces@.map_values(|p: String| p@) == comma_pieces(s@),
{
    let n = s.unicode_len();
    let mut pieces: Vec<String> = Vec::new();
    let mut current = String::new();
    let mut i: usize = 0;
    assert(s@.take(0) =~= Seq::<char>::empty());
    while i < n
        invariant
            n == s@.len(),
            i <= n,
            pieces@.map_values(|p: String| p@).push(current@) == comma_pieces(s@.take(i as int)),
        decreases n - i,
    {
        let c = s.get_char(i);
        let ghost before = pieces@.map_values(|p: String| p@).push(current@);
        assert(s@.take(i + 1).drop_last() =~= s@.take(i as int));
        assert(s@.take(i + 1).last() == c);
        if c == ',' {
            pieces.push(current);
            current = String::new();
            assert(pieces@.map_values(|p: String| p@).push(current@) =~= before.push(Seq::<char>::empty()));
        } else {
            let ghost old_current = current@;
            push_char(&mut current, c);
            assert(pieces@.map_values(|p: String| p@).push(current@) =~= before.update(
                before.len() - 1,
                before.last().push(c),
            ));
        }
        i = i + 1;
    }
    assert(s@.take(n as int) =~= s@);
    pieces.push(current);
    pieces
}

/// The characters of `s` before its first `-` (all of `s` when it has none),
/// which is what `s.split('-').next()` yields.
pub open spec fn before_dash(s: Seq<char>) -> Seq<char>
    decreases s.len(),
{
    if s.len() == 0 {
        s
    } else if s[0] == '-' {
        Seq::<char>::empty()
    } else {
        seq![s[0]] + before_dash(s.drop_first())
    }
}

proof fn lemma_before_dash_take(s: Seq<char>, i: int)
    requires
        0 <= i <= s.len(),
        forall|j: int| 0 <= j < i ==> s[j] != '-',
        i == s.len() || s[i] == '-',
    ensures
        before_dash(s) == s.take(i),
    decreases i,
{
    if i == 0 {
        assert(s.take(0) =~= Seq::<char>::empty());
        if s.len() == 0 {
            assert(s =~= Seq::<char>::empty());
        }
    } else {
        let rest = s.drop_first();
        assert forall|j: int| 0 <= j < i - 1 implies rest[j] != '-' by {
            assert(rest[j] == s[j + 1]);
        }
        lemma_before_dash_take(rest, i - 1);
        assert(seq![s[0]] + rest.take(i - 1) =~= s.take(i));
    }
}

/// The part of `s` before its first `-`.
pub fn prefix_before_dash(s: &str) -> (prefix: String)
    ensures
        prefix@ == before_dash(s@),
{
    let n = s.unicode_len();
    let mut i: usize = 0;
    while i < n && s.get_char(i) != '-'
        invariant
            n == s@.len(),
            i <= n,
            forall|j: int| 0 <= j < i ==> s@[j] != '-',
        decreases n - i,
    {
        i = i + 1;
    }
    proof {
        lemma_before_dash_take(s@, i as int);
    }
    let sub = s.substring_char(0, i);
    String::from_str(sub)
}

/// The decimal digit for `d`.
pub open spec fn digit_char(d: nat) -> char {
    (d + 48) as char
}

/// The decimal rendering of `n`, without leading zeros.
pub open spec fn decimal(n: nat) -> Seq<char>
    decreases n,
{
    if n < 10 {
        seq![digit_char(n)]
    } else {
        decimal(n / 10).push(digit_char(n % 10))
    }
}

/// Appends the decimal rendering of `n` to `s`.
pub fn push_decimal(s: &mut String, n: u16)
    ensures
        final(s)@ == old(s)@ + decimal(n as nat),
    decreases n,
{
    if n >= 10 {
        push_decimal(s, n / 10);
    }
    let d = (n % 10) as u8;
    let c = (d + 48) as char;
    assert(c == digit_char((n % 10) as nat));
    push_char(s, c);
    assert(final(s)@ =~= old(s)@ + decimal(n as nat));
}

} // verus!
