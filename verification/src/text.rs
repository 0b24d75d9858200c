//! Plain text operations: splitting, joining and decimal numbers.

use vstd::prelude::*;

verus! {

/// The contents of a list of strings.
pub open spec fn texts(parts: Seq<String>) -> Seq<Seq<char>> {
    parts.map_values(|part: String| part@)
}

/// `parts` in order, with `separator` between neighbours.
pub open spec fn joined(parts: Seq<Seq<char>>, separator: Seq<char>) -> Seq<char>
    decreases parts.len(),
{
    if parts.len() == 0 {
        seq![]
    } else if parts.len() == 1 {
        parts[0]
    } else {
        joined(parts.drop_last(), separator) + separator + parts.last()
    }
}

/// The pieces of `text` between the occurrences of `separator`.
pub open spec fn split_at(text: Seq<char>, separator: char) -> Seq<Seq<char>>
    decreases text.len(),
{
    if text.len() == 0 {
        seq![seq![]]
    } else {
        let pieces = split_at(text.drop_last(), separator);
        if text.last() == separator {
            pieces.push(seq![])
        } else {
            pieces.drop_last().push(pieces.last().push(text.last()))
        }
    }
}

/// Splitting gives at least one piece, and no piece holds the separator.
pub proof fn lemma_split_pieces(text: Seq<char>, separator: char)
    ensures
        split_at(text, separator).len() > 0,
        forall|i: int|
            0 <= i < split_at(text, separator).len() ==> !(#[trigger] split_at(
                text,
                separator,
            )[i]).contains(separator),
    decreases text.len(),
{
    if text.len() > 0 {
        let rest = text.drop_last();
        lemma_split_pieces(rest, separator);
        let pieces = split_at(rest, separator);
        assert forall|i: int| 0 <= i < split_at(text, separator).len() implies !(
        #[trigger] split_at(text, separator)[i]).contains(separator) by {
            if text.last() != separator && i == pieces.len() - 1 {
                let piece = pieces.last().push(text.last());
                assert(split_at(text, separator)[i] == piece);
                if piece.contains(separator) {
                    let k = choose|k: int| 0 <= k < piece.len() && piece[k] == separator;
                    assert(pieces.last()[k] == separator);
                    assert(pieces[pieces.len() - 1].contains(separator));
                }
            } else if i < pieces.len() {
                assert(split_at(text, separator)[i] == pieces[i]);
            }
        }
    }
}

/// Joining the pieces of a split text gives the text back.
pub proof fn law_join_undoes_split(text: Seq<char>, separator: char)
    ensures
        joined(split_at(text, separator), seq![separator]) == text,
    decreases text.len(),
{
    if text.len() > 0 {
        let rest = text.drop_last();
        law_join_undoes_split(rest, separator);
        lemma_split_pieces(rest, separator);
        let pieces = split_at(rest, separator);
        let all = split_at(text, separator);
        if text.last() == separator {
            assert(all.drop_last() =~= pieces);
            assert(joined(all, seq![separator]) =~= text);
        } else {
            assert(all.drop_last() =~= pieces.drop_last());
            assert(all.last() =~= pieces.last() + seq![text.last()]);
            assert(joined(all, seq![separator]) =~= rest + seq![text.last()]);
            assert(text =~= rest + seq![text.last()]);
        }
    }
}

/// A text without the separator only makes the last piece longer.
proof fn lemma_split_longer(text: Seq<char>, more: Seq<char>, separator: char)
    requires
        !more.contains(separator),
    ensures
        split_at(text + more, separator) == split_at(text, separator).drop_last().push(
            split_at(text, separator).last() + more,
        ),
    decreases more.len(),
{
    lemma_split_pieces(text, separator);
    let pieces = split_at(text, separator);
    if more.len() == 0 {
        assert(text + more =~= text);
        assert(pieces.last() + more =~= pieces.last());
        assert(pieces.drop_last().push(pieces.last()) =~= pieces);
    } else {
        let shorter = more.drop_last();
        assert(!shorter.contains(separator)) by {
            if shorter.contains(separator) {
                let k = choose|k: int| 0 <= k < shorter.len() && shorter[k] == separator;
                assert(more[k] == separator);
            }
        }
        lemma_split_longer(text, shorter, separator);
        assert((text + more).drop_last() =~= text + shorter);
        assert(more.contains(more[more.len() - 1]));
        let before = pieces.drop_last().push(pieces.last() + shorter);
        assert(before.drop_last() =~= pieces.drop_last());
        assert((pieces.last() + shorter).push(more.last()) =~= pieces.last() + more);
    }
}

/// Splitting a joined list gives the list back, where it is not empty and no item holds the
/// separator.
pub proof fn law_split_undoes_join(parts: Seq<Seq<char>>, separator: char)
    requires
        parts.len() > 0,
        forall|i: int| 0 <= i < parts.len() ==> !(#[trigger] parts[i]).contains(separator),
    ensures
        split_at(joined(parts, seq![separator]), separator) == parts,
    decreases parts.len(),
{
    let none: Seq<char> = seq![];
    assert(split_at(none, separator) =~= seq![none]);
    if parts.len() == 1 {
        lemma_split_longer(none, parts[0], separator);
        assert(none + parts[0] =~= parts[0]);
        assert(parts =~= seq![none].drop_last().push(parts[0]));
    } else {
        let fewer = parts.drop_last();
        assert forall|i: int| 0 <= i < fewer.len() implies !(#[trigger] fewer[i]).contains(
            separator,
        ) by {
            assert(!parts[i].contains(separator));
        }
        law_split_undoes_join(fewer, separator);
        let front = joined(fewer, seq![separator]);
        let ended = front + seq![separator];
        assert(ended.drop_last() =~= front);
        assert(split_at(ended, separator) == fewer.push(none));
        assert(!parts[parts.len() - 1].contains(separator));
        lemma_split_longer(ended, parts.last(), separator);
        assert(none + parts.last() =~= parts.last());
        assert(fewer.push(none).drop_last() =~= fewer);
        assert(fewer.push(parts.last()) =~= parts);
    }
}

/// Joining nothing gives nothing, joining one text gives the text, and every further text comes
/// behind a separator.
pub proof fn law_join_appends(parts: Seq<Seq<char>>, part: Seq<char>, separator: Seq<char>)
    ensures
        joined(Seq::<Seq<char>>::empty(), separator) == Seq::<char>::empty(),
        parts.len() == 0 ==> joined(parts.push(part), separator) == part,
        parts.len() > 0 ==> joined(parts.push(part), separator) == joined(parts, separator)
            + separator + part,
{
    assert(parts.push(part).drop_last() =~= parts);
}

/// The decimal digit of value `n`.
pub open spec fn digit(n: nat) -> char {
    (48 + n) as char
}

/// `n` in decimal, without leading zeros.
pub open spec fn decimal(n: nat) -> Seq<char>
    decreases n,
{
    if n < 10 {
        seq![digit(n)]
    } else {
        decimal(n / 10).push(digit(n % 10))
    }
}

/// The number that a text of decimal digits stands for.
pub open spec fn decimal_value(text: Seq<char>) -> int
    decreases text.len(),
{
    if text.len() == 0 {
        0
    } else {
        decimal_value(text.drop_last()) * 10 + (text.last() as int - '0' as int)
    }
}

/// A number in decimal stands for the number, is made of the digits `0` to `9`, and begins
/// with `0` only where it is zero.
pub proof fn law_decimal_stands_for_the_number(n: nat)
    ensures
        decimal_value(decimal(n)) == n,
        decimal(n).len() > 0,
        forall|i: int| 0 <= i < decimal(n).len() ==> '0' <= #[trigger] decimal(n)[i] <= '9',
        decimal(n)[0] == '0' ==> n == 0 && decimal(n).len() == 1,
    decreases n,
{
    if n < 10 {
        let text = decimal(n);
        assert(text.drop_last() =~= Seq::<char>::empty());
        assert(decimal_value(text.drop_last()) == 0);
    } else {
        law_decimal_stands_for_the_number(n / 10);
        let front = decimal(n / 10);
        let text = decimal(n);
        assert(text.drop_last() =~= front);
        assert(text[0] == front[0]);
    }
}

/// Whether two texts are equal.
pub fn same_text(left: &str, right: &str) -> (same: bool)
    ensures
        same == (left@ == right@),
{
    left.to_owned() == right.to_owned()
}

/// The pieces of `text` between the occurrences of `separator`.
pub fn split_text(text: &str, separator: char) -> (pieces: Vec<String>)
    ensures
        texts(pieces@) == split_at(text@, separator),
{
    let length = text.unicode_len();
    let mut pieces: Vec<String> = Vec::new();
    let mut start: usize = 0;
    let mut at: usize = 0;
    assert(text@.take(0) =~= seq![]);
    assert(texts(pieces@).push(text@.subrange(0, 0)) =~= seq![seq![]]);
    while at < length
        invariant
            length == text@.len(),
            start <= at <= length,
            split_at(text@.take(at as int), separator) == texts(pieces@).push(
                text@.subrange(start as int, at as int),
            ),
        decreases length - at,
    {
        let ghost before = texts(pieces@);
        assert(text@.take(at + 1).drop_last() =~= text@.take(at as int));
        if text.get_char(at) == separator {
            pieces.push(text.substring_char(start, at).to_owned());
            start = at + 1;
            assert(texts(pieces@) =~= before.push(pieces@.last()@));
            assert(text@.subrange(start as int, at + 1) =~= seq![]);
        } else {
            assert(text@.subrange(start as int, at + 1) =~= text@.subrange(
                start as int,
                at as int,
            ).push(text@[at as int]));
            assert(before.push(text@.subrange(start as int, at as int)).drop_last() =~= before);
        }
        at = at + 1;
    }
    let ghost before = texts(pieces@);
    pieces.push(text.substring_char(start, length).to_owned());
    assert(texts(pieces@) =~= before.push(text@.subrange(start as int, length as int)));
    assert(text@.take(length as int) =~= text@);
    pieces
}

/// The text of one decimal digit.
fn digit_text(n: usize) -> (text: &'static str)
    requires
        n < 10,
    ensures
        text@ == seq![digit(n as nat)],
{
    proof {
        reveal_strlit("0");
        reveal_strlit("1");
        reveal_strlit("2");
        reveal_strlit("3");
        reveal_strlit("4");
        reveal_strlit("5");
        reveal_strlit("6");
        reveal_strlit("7");
        reveal_strlit("8");
        reveal_strlit("9");
    }
    match n {
        0 => "0",
        1 => "1",
        2 => "2",
        3 => "3",
        4 => "4",
        5 => "5",
        6 => "6",
        7 => "7",
        8 => "8",
        _ => "9",
    }
}

/// `n` in decimal, without leading zeros.
pub fn decimal_text(n: usize) -> (text: String)
    ensures
        text@ == decimal(n as nat),
    decreases n,
{
    if n < 10 {
        digit_text(n).to_owned()
    } else {
        let mut text = decimal_text(n / 10);
        text.append(digit_text(n % 10));
        assert(decimal(n as nat) =~= decimal((n / 10) as nat) + seq![digit((n % 10) as nat)]);
        text
    }
}

/// The items of `parts` in order, with `separator` between neighbours.
///
/// This is `itertools::join`, which writes every item with its `Display` form, for a
/// string the string itself, and `separator` before each item but the first.
#[verifier::external_body]
pub(crate) fn join(parts: &Vec<String>, separator: &str) -> (text: String)
    ensures
        text@ == joined(texts(parts@), separator@),
{
    itertools::join(parts, separator)
}

} // verus!
