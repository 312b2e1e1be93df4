//! Reading the query parameters off a request target.
//!
//! The query is what stands between the first `?` and the fragment, if any.
//! It is cut at each `&`, and each piece at its first `=`. A piece without `=`
//! is dropped. Names and values are kept as they were written: nothing is
//! decoded here. Where a name occurs twice, the later value stands.

use vstd::prelude::*;
use vstd::hash_map::StringHashMap;
use vstd::string::*;

verus! {

/// The index of the first `c` in `s`, or the length of `s` where it holds none.
pub open spec fn first_index(s: Seq<char>, c: char) -> int
    decreases s.len(),
{
    if s.len() == 0 {
        0
    } else if s[0] == c {
        0
    } else {
        1 + first_index(s.drop_first(), c)
    }
}

/// `first_index` is in range, nothing before it is `c`, and what stands at it
/// is `c` unless it is the length.
pub proof fn lemma_first_index(s: Seq<char>, c: char)
    ensures
        0 <= first_index(s, c) <= s.len(),
        forall|j: int| 0 <= j < first_index(s, c) ==> s[j] != c,
        first_index(s, c) < s.len() ==> s[first_index(s, c)] == c,
    decreases s.len(),
{
    if s.len() > 0 && s[0] != c {
        let rest = s.drop_first();
        lemma_first_index(rest, c);
        assert forall|j: int| 0 <= j < first_index(s, c) implies s[j] != c by {
            if j > 0 {
                assert(s[j] == rest[j - 1]);
            }
        }
    }
}

/// An index with nothing equal to `c` before it, and `c` at it unless it is
/// the length, is the first index of `c`.
proof fn lemma_first_index_is(s: Seq<char>, c: char, i: int)
    requires
        0 <= i <= s.len(),
        forall|j: int| 0 <= j < i ==> s[j] != c,
        i < s.len() ==> s[i] == c,
    ensures
        first_index(s, c) == i,
    decreases s.len(),
{
    if s.len() > 0 && i > 0 {
        let rest = s.drop_first();
        lemma_first_index_is(rest, c, i - 1);
    }
}

/// The query of a request target: what follows the first `?`, up to the
/// fragment. `None` where the target has no `?` before its fragment.
pub open spec fn query_string(target: Seq<char>) -> Option<Seq<char>> {
    let end = first_index(target, '#');
    let mark = first_index(target.take(end), '?');
    if mark < end {
        Some(target.subrange(mark + 1, end))
    } else {
        None
    }
}

/// The pieces of `s` between occurrences of `separator`, in order.
pub open spec fn split(s: Seq<char>, separator: char) -> Seq<Seq<char>>
    decreases s.len(),
{
    let i = first_index(s, separator);
    if 0 <= i < s.len() {
        seq![s.take(i)] + split(s.skip(i + 1), separator)
    } else {
        seq![s]
    }
}

/// Name and value of one piece of a query: what stands before its first `=`,
/// and what stands after. `None` where the piece holds no `=`.
pub open spec fn pair_of(piece: Seq<char>) -> Option<(Seq<char>, Seq<char>)> {
    let i = first_index(piece, '=');
    if 0 <= i < piece.len() {
        Some((piece.take(i), piece.skip(i + 1)))
    } else {
        None
    }
}

/// The mapping that the pieces of a query make, a later piece overwriting an
/// earlier one of the same name.
pub open spec fn collect(pieces: Seq<Seq<char>>) -> Map<Seq<char>, Seq<char>>
    decreases pieces.len(),
{
    if pieces.len() == 0 {
        Map::empty()
    } else {
        let earlier = collect(pieces.drop_last());
        match pair_of(pieces.last()) {
            Some((name, value)) => earlier.insert(name, value),
            None => earlier,
        }
    }
}

/// Whether piece `i` of `pieces` is a pair under `name`.
pub open spec fn names(pieces: Seq<Seq<char>>, i: int, name: Seq<char>) -> bool {
    &&& 0 <= i < pieces.len()
    &&& pair_of(pieces[i]) matches Some(pair)
    &&& pair.0 == name
}

/// A name that no piece gives is not in the mapping: a piece without `=`
/// adds nothing, under any name.
pub proof fn lemma_unnamed_is_absent(pieces: Seq<Seq<char>>, name: Seq<char>)
    requires
        forall|j: int| 0 <= j < pieces.len() ==> !names(pieces, j, name),
    ensures
        !collect(pieces).contains_key(name),
    decreases pieces.len(),
{
    if pieces.len() > 0 {
        let earlier = pieces.drop_last();
        assert forall|j: int| 0 <= j < earlier.len() implies !names(earlier, j, name) by {
            assert(!names(pieces, j, name));
        }
        lemma_unnamed_is_absent(earlier, name);
        assert(!names(pieces, pieces.len() - 1, name));
    }
}

/// Where several pieces give the same name, the value of the last one stands.
pub proof fn lemma_later_value_stands(pieces: Seq<Seq<char>>, i: int, name: Seq<char>)
    requires
        names(pieces, i, name),
        forall|j: int| i < j < pieces.len() ==> !names(pieces, j, name),
    ensures
        collect(pieces).contains_key(name),
        collect(pieces)[name] == pair_of(pieces[i])->Some_0.1,
    decreases pieces.len(),
{
    let earlier = pieces.drop_last();
    if i < pieces.len() - 1 {
        assert forall|j: int| i < j < earlier.len() implies !names(earlier, j, name) by {
            assert(!names(pieces, j, name));
        }
        lemma_later_value_stands(earlier, i, name);
        assert(!names(pieces, pieces.len() - 1, name));
    }
}

/// The query parameters of a request target.
pub open spec fn query_params(target: Seq<char>) -> Map<Seq<char>, Seq<char>> {
    match query_string(target) {
        Some(query) => collect(split(query, '&')),
        None => Map::empty(),
    }
}

/// The mapping that `params` holds, each value by its view.
pub open spec fn param_values(params: Map<Seq<char>, String>) -> Map<Seq<char>, Seq<char>> {
    Map::new(|name: Seq<char>| params.contains_key(name), |name: Seq<char>| params[name]@)
}

/// The characters of `text`, one by one.
fn chars_of(text: &str) -> (chars: Vec<char>)
    ensures
        chars@ == text@,
{
    let mut chars: Vec<char> = Vec::new();
    for c in it: text.chars()
        invariant
            it.seq() == text@,
            chars@ == it.seq().take(it.index() as int),
    {
        chars.push(c);
    }
    chars
}

/// Looks for the first `c` in `chars[from..to]`.
fn find(chars: &Vec<char>, from: usize, to: usize, c: char) -> (at: usize)
    requires
        from <= to <= chars.len(),
    ensures
        from <= at <= to,
        at - from == first_index(chars@.subrange(from as int, to as int), c),
{
    let mut at = from;
    while at < to && chars[at] != c
        invariant
            from <= at <= to <= chars.len(),
            forall|j: int| from <= j < at ==> chars@[j] != c,
        decreases to - at,
    {
        at += 1;
    }
    proof {
        lemma_first_index_is(chars@.subrange(from as int, to as int), c, at - from);
    }
    at
}

/// Parses the query parameters of a request target.
///
/// Never fails: a target without a query, and pieces that are no pairs, give
/// fewer parameters, down to none.
pub fn extract_query_params(uri: &str) -> (params: StringHashMap<String>)
    ensures
        param_values(params@) == query_params(uri@),
{
    let chars = chars_of(uri);
    let end = find(&chars, 0, chars.len(), '#');
    let mark = find(&chars, 0, end, '?');
    let mut params: StringHashMap<String> = StringHashMap::new();
    assert(chars@.subrange(0, chars.len() as int) =~= uri@);
    if mark < end {
        let ghost query = uri@.subrange(mark + 1, end as int);
        let ghost mut done: Seq<Seq<char>> = Seq::empty();
        let mut start = mark + 1;
        let mut more = true;
        while more
            invariant
                chars@ == uri@,
                mark < start <= end <= chars.len(),
                query == uri@.subrange(mark + 1, end as int),
                more ==> split(query, '&') == done + split(
                    uri@.subrange(start as int, end as int),
                    '&',
                ),
                !more ==> split(query, '&') == done,
                param_values(params@) == collect(done),
            decreases
                    (if more {
                        end - start + 1
                    } else {
                        0
                    }),
        {
            let stop = find(&chars, start, end, '&');
            let equals = find(&chars, start, stop, '=');
            let ghost rest = uri@.subrange(start as int, end as int);
            let ghost piece = uri@.subrange(start as int, stop as int);
            if equals < stop {
                let name = uri.substring_char(start, equals).to_owned();
                let value = uri.substring_char(equals + 1, stop).to_owned();
                params.insert(name, value);
                assert(pair_of(piece) == Some((name@, value@)));
            }
            proof {
                // The piece just read is the last of those done, and the
                // first of what `split` makes of the rest.
                assert(done.push(piece).drop_last() =~= done);
                if stop < end {
                    assert(rest.take(stop - start) =~= piece);
                    assert(rest.skip(stop - start + 1) =~= uri@.subrange(stop + 1, end as int));
                }
                done = done.push(piece);
            }
            if stop < end {
                start = stop + 1;
            } else {
                more = false;
            }
        }
    }
    params
}

} // verus!
