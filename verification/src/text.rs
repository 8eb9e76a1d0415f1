//! Text assembly for generated code: concatenation and joining of pieces.
use vstd::prelude::*;

verus! {

/// All pieces one after another.
pub open spec fn concat_all(parts: Seq<Seq<char>>) -> Seq<char>
    decreases parts.len(),
{
    if parts.len() == 0 {
        Seq::empty()
    } else {
        concat_all(parts.drop_last()) + parts.last()
    }
}

/// The pieces one after another with `sep` between each two neighbours.
pub open spec fn join(parts: Seq<Seq<char>>, sep: Seq<char>) -> Seq<char>
    decreases parts.len(),
{
    if parts.len() == 0 {
        Seq::empty()
    } else if parts.len() == 1 {
        parts[0]
    } else {
        join(parts.drop_last(), sep) + sep + parts.last()
    }
}

/// The texts of a sequence of strings.
pub open spec fn texts(items: Seq<String>) -> Seq<Seq<char>> {
    items.map_values(|s: String| s@)
}

/// Joins the strings with `sep` between each two neighbours.
pub fn join_strings(items: &Vec<String>, sep: &str) -> (r: String)
    ensures
        r@ == join(texts(items@), sep@),
{
    let mut r = String::new();
    let n = items.len();
    let mut i: usize = 0;
    while i < n
        invariant
            n == items@.len(),
            i <= n,
            r@ == join(texts(items@).take(i as int), sep@),
        decreases n - i,
    {
        if i != 0 {
            r.append(sep);
        }
        r.append(items[i].as_str());
        assert(texts(items@).take(i + 1).drop_last() =~= texts(items@).take(i as int));
        i = i + 1;
    }
    assert(texts(items@).take(n as int) =~= texts(items@));
    r
}

/// Appends, for each string, `before`, the string and `after`.
pub fn wrap_each(items: &Vec<String>, before: &str, after: &str) -> (r: String)
    ensures
        r@ == concat_all(items@.map_values(|s: String| before@ + s@ + after@)),
{
    let ghost parts = items@.map_values(|s: String| before@ + s@ + after@);
    let mut r = String::new();
    let n = items.len();
    let mut i: usize = 0;
    while i < n
        invariant
            n == items@.len(),
            i <= n,
            parts == items@.map_values(|s: String| before@ + s@ + after@),
            r@ == concat_all(parts.take(i as int)),
        decreases n - i,
    {
        r.append(before);
        r.append(items[i].as_str());
        r.append(after);
        assert(parts.take(i + 1).drop_last() =~= parts.take(i as int));
        i = i + 1;
    }
    assert(parts.take(n as int) =~= parts);
    r
}

} // verus!
