//! The font list the font-embedding macro is given: a folder and file
//! names, separated by commas, each possibly quoted, e.g.
//! `"/usr/share/fonts/TTF", "Vera.ttf", "VeraBd.ttf",`.

use vstd::prelude::*;

verus! {

/// Unicode white space, as `char::is_whitespace` tells it.
pub open spec fn is_white(c: char) -> bool {
    let n = c as int;
    ||| 9 <= n <= 13
    ||| n == 32
    ||| n == 0x85
    ||| n == 0xA0
    ||| n == 0x1680
    ||| 0x2000 <= n <= 0x200A
    ||| n == 0x2028
    ||| n == 0x2029
    ||| n == 0x202F
    ||| n == 0x205F
    ||| n == 0x3000
}

/// The characters a piece is trimmed of: white space, or double quotes.
pub open spec fn is_trimmed(c: char, quotes: bool) -> bool {
    if quotes {
        c == '"'
    } else {
        is_white(c)
    }
}

/// The text without the trimmed characters at its start.
pub open spec fn trim_start(s: Seq<char>, quotes: bool) -> Seq<char>
    decreases s.len(),
{
    if s.len() > 0 && is_trimmed(s[0], quotes) {
        trim_start(s.drop_first(), quotes)
    } else {
        s
    }
}

/// The text without the trimmed characters at its end.
pub open spec fn trim_end(s: Seq<char>, quotes: bool) -> Seq<char>
    decreases s.len(),
{
    if s.len() > 0 && is_trimmed(s.last(), quotes) {
        trim_end(s.drop_last(), quotes)
    } else {
        s
    }
}

/// A piece of the list with surrounding white space removed, then
/// surrounding double quotes.
pub open spec fn clean(s: Seq<char>) -> Seq<char> {
    trim_end(trim_start(trim_end(trim_start(s, false), false), true), true)
}

/// The pieces of a text between commas: a comma starts a new piece, any
/// other character extends the last one. There is always at least one
/// piece.
pub open spec fn split_commas(s: Seq<char>) -> Seq<Seq<char>>
    decreases s.len(),
{
    if s.len() == 0 {
        seq![Seq::empty()]
    } else {
        let prev = split_commas(s.drop_last());
        if s.last() == ',' {
            prev.push(Seq::empty())
        } else {
            prev.update(prev.len() - 1, prev.last().push(s.last()))
        }
    }
}

/// The paths named by the later pieces, in order: the folder, a slash and
/// the cleaned piece, for each piece that is not empty once cleaned.
pub open spec fn joined_paths(folder: Seq<char>, pieces: Seq<Seq<char>>) -> Seq<Seq<char>>
    decreases pieces.len(),
{
    if pieces.len() == 0 {
        Seq::empty()
    } else {
        let prev = joined_paths(folder, pieces.drop_last());
        let name = clean(pieces.last());
        if name.len() > 0 {
            prev.push(folder + seq!['/'] + name)
        } else {
            prev
        }
    }
}

/// The font paths the list names: the folder (the first piece, cleaned)
/// joined by a slash to each later piece that is not empty once cleaned.
pub open spec fn font_paths_spec(s: Seq<char>) -> Seq<Seq<char>> {
    let pieces = split_commas(s);
    joined_paths(clean(pieces[0]), pieces.skip(1))
}

proof fn lemma_split_nonempty(s: Seq<char>)
    ensures
        split_commas(s).len() >= 1,
    decreases s.len(),
{
    if s.len() > 0 {
        lemma_split_nonempty(s.drop_last());
    }
}

fn white(c: char) -> (r: bool)
    ensures
        r == is_white(c),
{
    let n = c as u32;
    (9 <= n && n <= 13) || n == 32 || n == 0x85 || n == 0xA0 || n == 0x1680 || (0x2000 <= n && n
        <= 0x200A) || n == 0x2028 || n == 0x2029 || n == 0x202F || n == 0x205F || n == 0x3000
}

fn trimmed(c: char, quotes: bool) -> (r: bool)
    ensures
        r == is_trimmed(c, quotes),
{
    if quotes {
        c == '"'
    } else {
        white(c)
    }
}

proof fn lemma_trim_start_skip(s: Seq<char>, quotes: bool, i: int)
    requires
        0 <= i <= s.len(),
        forall|j: int| 0 <= j < i ==> is_trimmed(#[trigger] s[j], quotes),
        i == s.len() || !is_trimmed(s[i], quotes),
    ensures
        trim_start(s, quotes) == s.skip(i),
    decreases i,
{
    if i == 0 {
        assert(s.skip(0) =~= s);
    } else {
        let t = s.drop_first();
        assert forall|j: int| 0 <= j < i - 1 implies is_trimmed(#[trigger] t[j], quotes) by {
            assert(t[j] == s[j + 1]);
        }
        lemma_trim_start_skip(t, quotes, i - 1);
        assert(t.skip(i - 1) =~= s.skip(i));
    }
}

proof fn lemma_trim_end_take(s: Seq<char>, quotes: bool, k: int)
    requires
        0 <= k <= s.len(),
        forall|j: int| k <= j < s.len() ==> is_trimmed(#[trigger] s[j], quotes),
        k == 0 || !is_trimmed(s[k - 1], quotes),
    ensures
        trim_end(s, quotes) == s.take(k),
    decreases s.len() - k,
{
    if k == s.len() {
        assert(s.take(k) =~= s);
    } else {
        let t = s.drop_last();
        assert forall|j: int| k <= j < t.len() implies is_trimmed(#[trigger] t[j], quotes) by {
            assert(t[j] == s[j]);
        }
        if k > 0 {
            assert(t[k - 1] == s[k - 1]);
        }
        lemma_trim_end_take(t, quotes, k);
        assert(t.take(k) =~= s.take(k));
    }
}

fn trim(s: &Vec<char>, quotes: bool) -> (r: Vec<char>)
    ensures
        r@ == trim_end(trim_start(s@, quotes), quotes),
{
    let mut i: usize = 0;
    while i < s.len() && trimmed(s[i], quotes)
        invariant
            i <= s@.len(),
            forall|j: int| 0 <= j < i ==> is_trimmed(#[trigger] s@[j], quotes),
        decreases s@.len() - i,
    {
        i += 1;
    }
    proof {
        lemma_trim_start_skip(s@, quotes, i as int);
    }
    let ghost t = s@.skip(i as int);
    let mut k: usize = s.len();
    while k > i && trimmed(s[k - 1], quotes)
        invariant
            i <= k <= s@.len(),
            t == s@.skip(i as int),
            forall|j: int| k <= j < s@.len() ==> is_trimmed(#[trigger] s@[j], quotes),
        decreases k,
    {
        k -= 1;
    }
    proof {
        assert forall|j: int| k - i <= j < t.len() implies is_trimmed(#[trigger] t[j], quotes) by {
            assert(t[j] == s@[j + i]);
        }
        if k > i {
            assert(t[k - i - 1] == s@[k - 1]);
        }
        lemma_trim_end_take(t, quotes, k - i);
    }
    let mut r: Vec<char> = Vec::new();
    let mut j: usize = i;
    while j < k
        invariant
            i <= j <= k <= s@.len(),
            r@ == s@.subrange(i as int, j as int),
        decreases k - j,
    {
        r.push(s[j]);
        j += 1;
        assert(r@ =~= s@.subrange(i as int, j as int));
    }
    assert(r@ =~= t.take(k - i));
    r
}

fn clean_piece(s: &Vec<char>) -> (r: Vec<char>)
    ensures
        r@ == clean(s@),
{
    let w = trim(s, false);
    trim(&w, true)
}

fn split_on_commas(s: &Vec<char>) -> (pieces: Vec<Vec<char>>)
    ensures
        pieces@.len() == split_commas(s@).len(),
        forall|i: int| 0 <= i < pieces@.len() ==> #[trigger] pieces@[i]@ == split_commas(s@)[i],
{
    let mut pieces: Vec<Vec<char>> = Vec::new();
    let mut current: Vec<char> = Vec::new();
    let mut i: usize = 0;
    while i < s.len()
        invariant
            i <= s@.len(),
            pieces@.len() + 1 == split_commas(s@.take(i as int)).len(),
            forall|j: int| 0 <= j < pieces@.len() ==> #[trigger] pieces@[j]@ == split_commas(
                s@.take(i as int),
            )[j],
            current@ == split_commas(s@.take(i as int)).last(),
        decreases s@.len() - i,
    {
        let ghost before = s@.take(i as int);
        let ghost after = s@.take(i + 1);
        assert(after.drop_last() =~= before);
        assert(after.last() == s@[i as int]);
        proof {
            lemma_split_nonempty(before);
        }
        let c = s[i];
        if c == ',' {
            pieces.push(current);
            current = Vec::new();
        } else {
            current.push(c);
        }
        i += 1;
    }
    assert(s@.take(s@.len() as int) =~= s@);
    pieces.push(current);
    pieces
}

/// The font paths the list names: the folder (the first piece) joined by
/// a slash to each later piece that is not empty once white space and
/// quotes are trimmed from it.
pub fn font_paths(list: &Vec<char>) -> (paths: Vec<Vec<char>>)
    ensures
        paths@.len() == font_paths_spec(list@).len(),
        forall|i: int| 0 <= i < paths@.len() ==> #[trigger] paths@[i]@ == font_paths_spec(list@)[i],
{
    let pieces = split_on_commas(list);
    proof {
        lemma_split_nonempty(list@);
    }
    let folder = clean_piece(&pieces[0]);
    let ghost all = split_commas(list@);
    let mut paths: Vec<Vec<char>> = Vec::new();
    let mut i: usize = 1;
    while i < pieces.len()
        invariant
            1 <= i <= pieces@.len(),
            pieces@.len() == all.len(),
            forall|j: int| 0 <= j < pieces@.len() ==> #[trigger] pieces@[j]@ == all[j],
            folder@ == clean(all[0]),
            paths@.len() == joined_paths(folder@, all.subrange(1, i as int)).len(),
            forall|j: int|
                0 <= j < paths@.len() ==> #[trigger] paths@[j]@ == joined_paths(
                    folder@,
                    all.subrange(1, i as int),
                )[j],
        decreases pieces@.len() - i,
    {
        assert(all.subrange(1, i + 1).drop_last() =~= all.subrange(1, i as int));
        let piece = clean_piece(&pieces[i]);
        if piece.len() > 0 {
            let mut path: Vec<char> = Vec::new();
            let mut j: usize = 0;
            while j < folder.len()
                invariant
                    j <= folder@.len(),
                    path@ == folder@.take(j as int),
                decreases folder@.len() - j,
            {
                path.push(folder[j]);
                j += 1;
                assert(path@ =~= folder@.take(j as int));
            }
            path.push('/');
            let mut j: usize = 0;
            while j < piece.len()
                invariant
                    j <= piece@.len(),
                    path@ == folder@ + seq!['/'] + piece@.take(j as int),
                decreases piece@.len() - j,
            {
                path.push(piece[j]);
                j += 1;
                assert(path@ =~= folder@ + seq!['/'] + piece@.take(j as int));
            }
            assert(piece@.take(piece@.len() as int) =~= piece@);
            assert(folder@.take(folder@.len() as int) =~= folder@);
            paths.push(path);
        }
        i += 1;
    }
    assert(all.subrange(1, all.len() as int) =~= all.skip(1));
    paths
}

} // verus!
