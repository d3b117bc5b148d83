//! Normalisation of `|`-separated tables such as those a language model
//! returns: counting columns and padding or cutting rows to a common width.

use vstd::prelude::*;

use crate::text::{
    lemma_split_at_sep,
    all_blank, chars_of, count_char, count_in, is_blank, join_chars, join_with,
    lemma_char_vec_deep_view, lemma_count_concat, lemma_count_repeat, lemma_join_split,
    lemma_split_join, lemma_split_pieces_clean, repeat_char, split_chars, split_on,
    string_from_chars,
};

verus! {

/// Number of columns of `row` when columns are separated by `delim`.
pub open spec fn column_count(row: Seq<char>, delim: char) -> nat {
    count_char(row, delim) + 1
}

/// The largest number of delimiters found in any of `rows` (0 for none).
pub open spec fn max_delims(rows: Seq<Seq<char>>, delim: char) -> nat
    decreases rows.len(),
{
    if rows.len() == 0 {
        0
    } else {
        let m = max_delims(rows.drop_last(), delim);
        let c = count_char(rows.last(), delim);
        if c > m {
            c
        } else {
            m
        }
    }
}

/// The column count of the widest line of `data`.
pub open spec fn spec_max_column_count(data: Seq<char>, delim: char) -> nat {
    max_delims(split_on(data, '\n'), delim) + 1
}

/// One line of `ensure_columns`: blank lines stay as they are, short rows
/// get empty columns appended, long rows keep their first `target` columns.
pub open spec fn fixed_row(row: Seq<char>, delim: char, target: nat) -> Seq<char> {
    if is_blank(row) {
        row
    } else if column_count(row, delim) < target {
        row + repeat_char(delim, (target - column_count(row, delim)) as nat)
    } else if column_count(row, delim) > target {
        join_with(split_on(row, delim).take(target as int), seq![delim])
    } else {
        row
    }
}

/// The whole of `ensure_columns`: every line fixed, lines joined again.
pub open spec fn spec_ensure_columns(data: Seq<char>, delim: char, target: nat) -> Seq<char> {
    join_with(
        split_on(data, '\n').map_values(|row: Seq<char>| fixed_row(row, delim, target)),
        seq!['\n'],
    )
}

/// Largest delimiter count over `rows`.
fn max_delim_count(rows: &Vec<Vec<char>>, delim: char) -> (res: usize)
    ensures
        res == max_delims(rows.deep_view(), delim),
{
    let mut m: usize = 0;
    let mut i: usize = 0;
    while i < rows.len()
        invariant
            i <= rows@.len(),
            m == max_delims(rows.deep_view().take(i as int), delim),
        decreases rows@.len() - i,
    {
        proof {
            lemma_char_vec_deep_view(&rows@[i as int]);
        }
        assert(rows.deep_view().take(i + 1).drop_last() =~= rows.deep_view().take(i as int));
        let c = count_in(&rows[i], delim);
        if c > m {
            m = c;
        }
        i = i + 1;
    }
    assert(rows.deep_view().take(rows@.len() as int) =~= rows.deep_view());
    m
}

/// Determines the size of the csv row with the most columns.
pub fn max_column_count(csv_data: &str, delim: char) -> (res: usize)
    requires
        csv_data@.len() < usize::MAX,
    ensures
        res == spec_max_column_count(csv_data@, delim),
{
    let chars = chars_of(csv_data);
    let rows = split_chars(&chars, '\n');
    proof {
        lemma_max_delims_bounded(chars@, '\n', delim);
    }
    let m = max_delim_count(&rows, delim);
    m + 1
}

/// No line holds more delimiters than the whole text has characters.
pub proof fn lemma_max_delims_bounded(s: Seq<char>, sep: char, delim: char)
    ensures
        max_delims(split_on(s, sep), delim) <= s.len(),
{
    let rows = split_on(s, sep);
    assert forall|i: int| 0 <= i < rows.len() implies count_char(#[trigger] rows[i], delim)
        <= s.len() by {
        lemma_split_pieces_short(s, sep);
        lemma_count_le_len(rows[i], delim);
    }
    lemma_max_delims_le(rows, delim, s.len());
}

/// A character occurs at most as often as the text is long.
pub proof fn lemma_count_le_len(s: Seq<char>, c: char)
    ensures
        count_char(s, c) <= s.len(),
    decreases s.len(),
{
    if s.len() > 0 {
        lemma_count_le_len(s.drop_last(), c);
    }
}

/// Every piece of a split is at most as long as the text.
pub proof fn lemma_split_pieces_short(s: Seq<char>, sep: char)
    ensures
        split_on(s, sep).len() >= 1,
        forall|i: int|
            0 <= i < split_on(s, sep).len() ==> #[trigger] split_on(s, sep)[i].len() <= s.len(),
    decreases s.len(),
{
    if s.len() > 0 {
        lemma_split_pieces_short(s.drop_last(), sep);
    }
}

/// A bound on every line's delimiter count bounds their maximum.
pub proof fn lemma_max_delims_le(rows: Seq<Seq<char>>, delim: char, bound: nat)
    requires
        forall|i: int| 0 <= i < rows.len() ==> count_char(#[trigger] rows[i], delim) <= bound,
    ensures
        max_delims(rows, delim) <= bound,
    decreases rows.len(),
{
    if rows.len() > 0 {
        assert forall|i: int| 0 <= i < rows.drop_last().len() implies count_char(
            #[trigger] rows.drop_last()[i],
            delim,
        ) <= bound by {
            assert(rows.drop_last()[i] == rows[i]);
        }
        lemma_max_delims_le(rows.drop_last(), delim, bound);
        assert(count_char(rows[rows.len() - 1], delim) <= bound);
    }
}

} // verus!

verus! {

/// A split yields one more piece than there are separators.
pub proof fn lemma_split_len(s: Seq<char>, sep: char)
    ensures
        split_on(s, sep).len() == count_char(s, sep) + 1,
    decreases s.len(),
{
    if s.len() > 0 {
        lemma_split_len(s.drop_last(), sep);
    }
}

/// A copy of `v`.
fn copy_chars(v: &Vec<char>) -> (res: Vec<char>)
    ensures
        res@ == v@,
{
    let res = v.clone();
    assert(res@ =~= v@);
    res
}

/// One line brought to `target` columns.
fn fix_row(row: &Vec<char>, delim: char, target: usize) -> (res: Vec<char>)
    requires
        row@.len() < usize::MAX,
    ensures
        res@ == fixed_row(row@, delim, target as nat),
{
    if all_blank(row) {
        return copy_chars(row);
    }
    let count = count_in(row, delim) + 1;
    if count < target {
        let mut out = copy_chars(row);
        let mut k: usize = count;
        while k < target
            invariant
                count <= k <= target,
                out@ == row@ + repeat_char(delim, (k - count) as nat),
            decreases target - k,
        {
            out.push(delim);
            k = k + 1;
            assert(out@ =~= row@ + repeat_char(delim, (k - count) as nat));
        }
        out
    } else if count > target {
        let mut pieces = split_chars(row, delim);
        proof {
            lemma_split_len(row@, delim);
        }
        let ghost all = pieces.deep_view();
        pieces.truncate(target);
        assert(pieces.deep_view() =~= all.take(target as int));
        join_chars(&pieces, delim)
    } else {
        copy_chars(row)
    }
}

/// Given csv data, make sure all rows have the same number of columns.
/// Rows with too few columns get empty columns appended; rows with too many
/// keep their first `target` columns. Blank lines are kept as they are.
/// Without a target the width of the widest row is used.
pub fn ensure_columns(csv_data: &str, delim: char, target_column_count: Option<usize>) -> (res:
    String)
    requires
        csv_data@.len() < usize::MAX,
    ensures
        res@ == spec_ensure_columns(
            csv_data@,
            delim,
            match target_column_count {
                Some(t) => t as nat,
                None => spec_max_column_count(csv_data@, delim),
            },
        ),
{
    let target = match target_column_count {
        Some(t) => t,
        None => max_column_count(csv_data, delim),
    };
    let chars = chars_of(csv_data);
    let rows = split_chars(&chars, '\n');
    proof {
        lemma_split_pieces_short(chars@, '\n');
    }
    let ghost spec_rows = rows.deep_view();
    let mut fixed: Vec<Vec<char>> = Vec::new();
    let mut i: usize = 0;
    while i < rows.len()
        invariant
            i <= rows@.len(),
            spec_rows == rows.deep_view(),
            spec_rows == split_on(chars@, '\n'),
            chars@.len() < usize::MAX,
            forall|j: int| 0 <= j < spec_rows.len() ==> #[trigger] spec_rows[j].len() <= chars@.len(),
            fixed.deep_view() =~= spec_rows.take(i as int).map_values(
                |row: Seq<char>| fixed_row(row, delim, target as nat),
            ),
        decreases rows@.len() - i,
    {
        proof {
            lemma_char_vec_deep_view(&rows@[i as int]);
        }
        assert(spec_rows[i as int] == rows@[i as int]@);
        let r = fix_row(&rows[i], delim, target);
        let ghost old_dv = fixed.deep_view();
        let ghost rv = r@;
        proof {
            lemma_char_vec_deep_view(&r);
        }
        fixed.push(r);
        assert(fixed.deep_view() =~= old_dv.push(rv));
        i = i + 1;
    }
    assert(spec_rows.take(rows@.len() as int) =~= spec_rows);
    let out = join_chars(&fixed, '\n');
    string_from_chars(&out)
}

} // verus!

verus! {

/// Every line's delimiter count is at most the maximum, which is attained.
pub proof fn lemma_max_delims_ge(rows: Seq<Seq<char>>, delim: char)
    ensures
        forall|i: int|
            0 <= i < rows.len() ==> count_char(#[trigger] rows[i], delim) <= max_delims(rows, delim),
        rows.len() > 0 ==> exists|i: int|
            0 <= i < rows.len() && count_char(#[trigger] rows[i], delim) == max_delims(rows, delim),
    decreases rows.len(),
{
    if rows.len() > 0 {
        let init = rows.drop_last();
        lemma_max_delims_ge(init, delim);
        assert forall|i: int| 0 <= i < rows.len() implies count_char(#[trigger] rows[i], delim)
            <= max_delims(rows, delim) by {
            if i < rows.len() - 1 {
                assert(init[i] == rows[i]);
            }
        }
        if count_char(rows.last(), delim) > max_delims(init, delim) || init.len() == 0 {
            assert(count_char(rows[rows.len() - 1], delim) == max_delims(rows, delim));
        } else {
            let k = choose|i: int|
                0 <= i < init.len() && count_char(#[trigger] init[i], delim) == max_delims(
                    init,
                    delim,
                );
            assert(init[k] == rows[k]);
            assert(count_char(rows[k], delim) == max_delims(rows, delim));
        }
    }
}

/// The widest line: `max_column_count` is at least one, no line of the data
/// has more columns, and some line has exactly that many.
pub proof fn law_max_column_count_is_widest_line(data: Seq<char>, delim: char)
    ensures
        spec_max_column_count(data, delim) >= 1,
        forall|i: int|
            0 <= i < split_on(data, '\n').len() ==> column_count(
                #[trigger] split_on(data, '\n')[i],
                delim,
            ) <= spec_max_column_count(data, delim),
        exists|i: int|
            0 <= i < split_on(data, '\n').len() && column_count(
                #[trigger] split_on(data, '\n')[i],
                delim,
            ) == spec_max_column_count(data, delim),
{
    lemma_split_pieces_short(data, '\n');
    lemma_max_delims_ge(split_on(data, '\n'), delim);
}

/// A row that already has `target` columns, or is blank, is left alone.
proof fn lemma_fixed_row_identity(row: Seq<char>, delim: char, target: nat)
    requires
        is_blank(row) || column_count(row, delim) == target,
    ensures
        fixed_row(row, delim, target) == row,
{
}

/// Data whose lines all have `target` columns (or are blank) comes back
/// from `ensure_columns` unchanged.
pub proof fn law_ensure_columns_keeps_conforming_data(data: Seq<char>, delim: char, target: nat)
    requires
        forall|i: int|
            0 <= i < split_on(data, '\n').len() ==> is_blank(#[trigger] split_on(data, '\n')[i])
                || column_count(split_on(data, '\n')[i], delim) == target,
    ensures
        spec_ensure_columns(data, delim, target) == data,
{
    let lines = split_on(data, '\n');
    let fixed = lines.map_values(|row: Seq<char>| fixed_row(row, delim, target));
    assert forall|i: int| 0 <= i < lines.len() implies #[trigger] fixed[i] == lines[i] by {
        lemma_fixed_row_identity(lines[i], delim, target);
    }
    assert(fixed =~= lines);
    lemma_join_split(data, '\n');
}

/// Column `j` of `row`: the `j`-th piece between delimiters, empty when the
/// row has fewer columns.
pub open spec fn column(row: Seq<char>, delim: char, j: int) -> Seq<char> {
    if 0 <= j < split_on(row, delim).len() {
        split_on(row, delim)[j]
    } else {
        Seq::<char>::empty()
    }
}

/// Appending `n` separators appends `n` empty pieces.
proof fn lemma_split_padded(s: Seq<char>, sep: char, n: nat)
    ensures
        split_on(s + repeat_char(sep, n), sep) == split_on(s, sep) + Seq::new(
            n,
            |i: int| Seq::<char>::empty(),
        ),
    decreases n,
{
    if n == 0 {
        assert(s + repeat_char(sep, n) =~= s);
        assert(split_on(s, sep) + Seq::new(n, |i: int| Seq::<char>::empty()) =~= split_on(s, sep));
    } else {
        lemma_split_padded(s, sep, (n - 1) as nat);
        let x = s + repeat_char(sep, (n - 1) as nat);
        assert((s + repeat_char(sep, n)).drop_last() =~= x);
        assert((s + repeat_char(sep, n)).last() == sep);
        assert(split_on(s, sep) + Seq::new(n, |i: int| Seq::<char>::empty()) =~= (split_on(s, sep)
            + Seq::new((n - 1) as nat, |i: int| Seq::<char>::empty())).push(Seq::<char>::empty()));
    }
}

/// The pieces of a text without `c` hold no `c`.
proof fn lemma_split_pieces_avoid(s: Seq<char>, sep: char, c: char)
    requires
        count_char(s, c) == 0,
    ensures
        forall|i: int|
            0 <= i < split_on(s, sep).len() ==> count_char(#[trigger] split_on(s, sep)[i], c) == 0,
    decreases s.len(),
{
    if s.len() > 0 {
        lemma_split_pieces_avoid(s.drop_last(), sep, c);
        let init = split_on(s.drop_last(), sep);
        lemma_split_pieces_short(s.drop_last(), sep);
        if s.last() != sep {
            let p = init.last();
            assert(p.push(s.last()).drop_last() =~= p);
            assert(count_char(init[init.len() - 1], c) == 0);
        }
    }
}

/// Pieces without `c`, joined by a separator other than `c`, hold no `c`.
proof fn lemma_join_avoids(pieces: Seq<Seq<char>>, sep: char, c: char)
    requires
        sep != c,
        forall|i: int| 0 <= i < pieces.len() ==> count_char(#[trigger] pieces[i], c) == 0,
    ensures
        count_char(join_with(pieces, seq![sep]), c) == 0,
    decreases pieces.len(),
{
    if pieces.len() == 0 {
        assert(count_char(Seq::<char>::empty(), c) == 0);
    } else if pieces.len() == 1 {
        assert(count_char(pieces[0], c) == 0);
    } else if pieces.len() > 1 {
        let init = pieces.drop_last();
        assert forall|i: int| 0 <= i < init.len() implies count_char(#[trigger] init[i], c) == 0 by {
            assert(init[i] == pieces[i]);
        }
        lemma_join_avoids(init, sep, c);
        let j = join_with(init, seq![sep]);
        lemma_count_concat(j, seq![sep], c);
        lemma_count_concat(j + seq![sep], pieces.last(), c);
        assert(seq![sep].drop_last() =~= Seq::<char>::empty());
        assert(count_char(seq![sep].drop_last(), c) == 0);
        assert(count_char(seq![sep], c) == 0);
        assert(count_char(pieces[pieces.len() - 1], c) == 0);
        assert(join_with(pieces, seq![sep]) == j + seq![sep] + pieces.last());
    }
}

/// A non-blank line without line breaks becomes a line without line
/// breaks whose columns are the first `target` columns of the line, padded
/// with empty ones.
proof fn lemma_fixed_row_width(row: Seq<char>, delim: char, target: nat)
    requires
        delim != '\n',
        target >= 1,
        count_char(row, '\n') == 0,
    ensures
        count_char(fixed_row(row, delim, target), '\n') == 0,
        is_blank(row) ==> fixed_row(row, delim, target) == row,
        !is_blank(row) ==> split_on(fixed_row(row, delim, target), delim).len() == target,
        !is_blank(row) ==> forall|j: int|
            0 <= j < target ==> #[trigger] split_on(fixed_row(row, delim, target), delim)[j]
                == column(row, delim, j),
{
    let pieces = split_on(row, delim);
    lemma_split_len(row, delim);
    if !is_blank(row) && column_count(row, delim) < target {
        let n = (target - column_count(row, delim)) as nat;
        let pad = repeat_char(delim, n);
        lemma_count_concat(row, pad, '\n');
        lemma_count_repeat(delim, n, '\n');
        lemma_split_padded(row, delim, n);
    } else if !is_blank(row) && column_count(row, delim) > target {
        let kept = pieces.take(target as int);
        lemma_split_pieces_clean(row, delim);
        lemma_split_pieces_avoid(row, delim, '\n');
        assert forall|i: int| 0 <= i < kept.len() implies count_char(#[trigger] kept[i], delim)
            == 0 && count_char(kept[i], '\n') == 0 by {
            assert(kept[i] == pieces[i]);
        }
        lemma_split_join(kept, delim);
        lemma_join_avoids(kept, delim, '\n');
    }
}

/// With a target of at least one column, every line keeps its place: blank
/// lines are unchanged, and every other line gets exactly `target` columns,
/// which are its own first columns, padded with empty ones.
pub proof fn law_ensure_columns_uniform_width(data: Seq<char>, delim: char, target: nat)
    requires
        delim != '\n',
        target >= 1,
    ensures
        split_on(spec_ensure_columns(data, delim, target), '\n').len() == split_on(
            data,
            '\n',
        ).len(),
        forall|i: int|
            0 <= i < split_on(data, '\n').len() ==> {
                let line = #[trigger] split_on(spec_ensure_columns(data, delim, target), '\n')[i];
                &&& is_blank(split_on(data, '\n')[i]) ==> line == split_on(data, '\n')[i]
                &&& !is_blank(split_on(data, '\n')[i]) ==> column_count(line, delim) == target
            },
        forall|i: int, j: int|
            #![trigger split_on(split_on(spec_ensure_columns(data, delim, target), '\n')[i], delim)[j]]
            0 <= i < split_on(data, '\n').len() && 0 <= j < target && !is_blank(
                split_on(data, '\n')[i],
            ) ==> split_on(split_on(spec_ensure_columns(data, delim, target), '\n')[i], delim)[j]
                == column(split_on(data, '\n')[i], delim, j),
{
    let lines = split_on(data, '\n');
    let fixed = lines.map_values(|row: Seq<char>| fixed_row(row, delim, target));
    lemma_split_pieces_clean(data, '\n');
    lemma_split_pieces_short(data, '\n');
    assert forall|i: int| 0 <= i < fixed.len() implies count_char(#[trigger] fixed[i], '\n')
        == 0 by {
        lemma_fixed_row_width(lines[i], delim, target);
    }
    lemma_split_join(fixed, '\n');
    assert forall|i: int| 0 <= i < lines.len() implies {
        let line = #[trigger] split_on(spec_ensure_columns(data, delim, target), '\n')[i];
        &&& is_blank(lines[i]) ==> line == lines[i]
        &&& !is_blank(lines[i]) ==> column_count(line, delim) == target
    } by {
        lemma_fixed_row_width(lines[i], delim, target);
        lemma_split_len(fixed[i], delim);
    }
    assert forall|i: int, j: int|
        0 <= i < lines.len() && 0 <= j < target && !is_blank(lines[i]) implies #[trigger] split_on(
        split_on(spec_ensure_columns(data, delim, target), '\n')[i],
        delim,
    )[j] == column(lines[i], delim, j) by {
        lemma_fixed_row_width(lines[i], delim, target);
    }
}

/// Without a target every non-blank line of the result is as wide as the
/// widest line of the data; blank lines are kept.
pub proof fn law_ensure_columns_to_widest(data: Seq<char>, delim: char)
    requires
        delim != '\n',
    ensures
        split_on(spec_ensure_columns(data, delim, spec_max_column_count(data, delim)), '\n').len()
            == split_on(data, '\n').len(),
        forall|i: int|
            0 <= i < split_on(data, '\n').len() ==> {
                let line = #[trigger] split_on(
                    spec_ensure_columns(data, delim, spec_max_column_count(data, delim)),
                    '\n',
                )[i];
                &&& is_blank(split_on(data, '\n')[i]) ==> line == split_on(data, '\n')[i]
                &&& !is_blank(split_on(data, '\n')[i]) ==> column_count(line, delim)
                    == spec_max_column_count(data, delim)
            },
{
    law_max_column_count_is_widest_line(data, delim);
    law_ensure_columns_uniform_width(data, delim, spec_max_column_count(data, delim));
}

/// Normalising twice to the same width changes nothing the second time.
pub proof fn law_ensure_columns_idempotent(data: Seq<char>, delim: char, target: nat)
    requires
        delim != '\n',
        target >= 1,
    ensures
        spec_ensure_columns(spec_ensure_columns(data, delim, target), delim, target)
            == spec_ensure_columns(data, delim, target),
{
    let out = spec_ensure_columns(data, delim, target);
    law_ensure_columns_uniform_width(data, delim, target);
    let lines = split_on(data, '\n');
    assert forall|i: int| 0 <= i < split_on(out, '\n').len() implies is_blank(
        #[trigger] split_on(out, '\n')[i],
    ) || column_count(split_on(out, '\n')[i], delim) == target by {
        assert(0 <= i < lines.len());
    }
    law_ensure_columns_keeps_conforming_data(out, delim, target);
}

/// The widest line over rows put one after the other is the wider of the
/// two widest lines.
proof fn lemma_max_delims_concat(x: Seq<Seq<char>>, y: Seq<Seq<char>>, delim: char)
    ensures
        max_delims(x + y, delim) == if max_delims(x, delim) >= max_delims(y, delim) {
            max_delims(x, delim)
        } else {
            max_delims(y, delim)
        },
    decreases y.len(),
{
    if y.len() == 0 {
        assert(x + y =~= x);
    } else {
        lemma_max_delims_concat(x, y.drop_last(), delim);
        assert((x + y).drop_last() =~= x + y.drop_last());
        assert((x + y).last() == y.last());
    }
}

/// The widest line of two texts joined by a line break is the wider of
/// their widest lines.
pub proof fn law_max_column_count_of_joined(a: Seq<char>, b: Seq<char>, delim: char)
    ensures
        spec_max_column_count(a + seq!['\n'] + b, delim) == if spec_max_column_count(a, delim)
            >= spec_max_column_count(b, delim) {
            spec_max_column_count(a, delim)
        } else {
            spec_max_column_count(b, delim)
        },
{
    assert(a + seq!['\n'] + b =~= a.push('\n') + b);
    lemma_split_at_sep(a, b, '\n');
    lemma_max_delims_concat(split_on(a, '\n'), split_on(b, '\n'), delim);
}

} // verus!
