//! Conversions of nested configuration fields into the plain strings that a
//! command line can carry.
use std::collections::HashMap;

use vstd::prelude::*;

verus! {

/// The text of one pair: its name, a colon, its value.
pub open spec fn pair_text(k: Seq<char>, v: Seq<char>) -> Seq<char> {
    k + seq![':'] + v
}

/// The pairs of `s` as text, separated by single spaces.
pub open spec fn joined_pairs(s: Seq<(String, String)>) -> Seq<char>
    decreases s.len(),
{
    if s.len() == 0 {
        Seq::empty()
    } else if s.len() == 1 {
        pair_text(s[0].0@, s[0].1@)
    } else {
        joined_pairs(s.drop_last()) + seq![' '] + pair_text(s.last().0@, s.last().1@)
    }
}

/// `s` lists each entry of `m` exactly once, in some order.
pub open spec fn lists_entries(s: Seq<(String, String)>, m: Map<String, String>) -> bool {
    &&& forall|i: int| 0 <= i < s.len() ==> #[trigger] m.contains_key(s[i].0) && m[s[i].0] == s[i].1
    &&& forall|i: int, j: int| 0 <= i < j < s.len() ==> s[i].0 != s[j].0
    &&& forall|k: String| #[trigger] m.contains_key(k) ==> exists|i: int| 0 <= i < s.len() && s[i].0 == k
}

/// Relies on `HashMap::iter`: it visits every entry of the map once, in an
/// order that the map does not fix.
#[verifier::external_body]
fn map_entries(m: &HashMap<String, String>) -> (r: Vec<(String, String)>)
    ensures
        lists_entries(r@, m@),
{
    m.iter().map(|(k, v)| (k.clone(), v.clone())).collect()
}

/// The pairs of `pairs` as text, separated by single spaces.
pub fn join_pairs(pairs: &Vec<(String, String)>) -> (r: String)
    ensures
        r@ == joined_pairs(pairs@),
{
    let mut out = String::new();
    let mut i: usize = 0;
    while i < pairs.len()
        invariant
            i <= pairs@.len(),
            out@ == joined_pairs(pairs@.subrange(0, i as int)),
        decreases pairs@.len() - i,
    {
        proof {
            reveal_strlit(" ");
            reveal_strlit(":");
        }
        if i > 0 {
            out.append(" ");
        }
        out.append(pairs[i].0.as_str());
        out.append(":");
        out.append(pairs[i].1.as_str());
        proof {
            let s = pairs@.subrange(0, i + 1);
            assert(s.drop_last() =~= pairs@.subrange(0, i as int));
            if i == 0 {
                assert(out@ =~= pair_text(s[0].0@, s[0].1@));
            } else {
                assert(out@ =~= joined_pairs(s.drop_last()) + seq![' '] + pair_text(
                    s.last().0@,
                    s.last().1@,
                ));
            }
        }
        i += 1;
    }
    assert(pairs@.subrange(0, i as int) =~= pairs@);
    out
}

/// Serializes a map to the "k1:v1 k2:v2" form; no map is the empty string.
/// The pairs come in the order in which the map hands them out.
pub fn serialize_optional_map(optional_map: &Option<HashMap<String, String>>) -> (r: String)
    ensures
        match optional_map {
            None => r@ == Seq::<char>::empty(),
            Some(m) => exists|s: Seq<(String, String)>| lists_entries(s, m@) && r@ == joined_pairs(s),
        },
{
    match optional_map {
        None => String::new(),
        Some(map) => {
            let pairs = map_entries(map);
            join_pairs(&pairs)
        },
    }
}

/// The pieces of `s` between the occurrences of `sep`, as `str::split` gives
/// them: one more piece than there are separators, empty pieces kept.
pub open spec fn split_on(s: Seq<char>, sep: char) -> Seq<Seq<char>>
    decreases s.len(),
{
    if s.len() == 0 {
        seq![Seq::<char>::empty()]
    } else {
        let init = split_on(s.drop_last(), sep);
        if s.last() == sep {
            init.push(Seq::empty())
        } else {
            init.update(init.len() - 1, init.last().push(s.last()))
        }
    }
}

/// The views of a sequence of strings.
pub open spec fn views(v: Seq<String>) -> Seq<Seq<char>> {
    v.map_values(|x: String| x@)
}

/// The pieces of `s` between the occurrences of `sep`.
pub fn split_str(s: &str, sep: char) -> (r: Vec<String>)
    ensures
        views(r@) == split_on(s@, sep),
{
    let n = s.unicode_len();
    let mut pieces: Vec<String> = Vec::new();
    let mut start: usize = 0;
    let mut i: usize = 0;
    assert(s@.subrange(0, 0) =~= Seq::<char>::empty());
    assert(views(pieces@).push(s@.subrange(0, 0)) =~= seq![Seq::<char>::empty()]);
    while i < n
        invariant
            n == s@.len(),
            start <= i <= n,
            split_on(s@.subrange(0, i as int), sep) == views(pieces@).push(
                s@.subrange(start as int, i as int),
            ),
        decreases n - i,
    {
        let c = s.get_char(i);
        let ghost before = views(pieces@);
        assert(s@.subrange(0, i + 1).drop_last() =~= s@.subrange(0, i as int));
        if c == sep {
            let piece = s.substring_char(start, i).to_owned();
            let ghost old_start = start;
            pieces.push(piece);
            start = i + 1;
            assert(views(pieces@) =~= before.push(s@.subrange(old_start as int, i as int)));
            assert(s@.subrange(start as int, i + 1) =~= Seq::<char>::empty());
        } else {
            assert(s@.subrange(start as int, i + 1) =~= s@.subrange(start as int, i as int).push(
                c,
            ));
        }
        i += 1;
        assert(split_on(s@.subrange(0, i as int), sep) =~= views(pieces@).push(
            s@.subrange(start as int, i as int),
        ));
    }
    let last = s.substring_char(start, n).to_owned();
    pieces.push(last);
    assert(s@.subrange(0, n as int) =~= s@);
    assert(views(pieces@) =~= split_on(s@, sep));
    pieces
}

/// Every piece is a name and a value around a single colon.
pub open spec fn all_pairs_valid(pieces: Seq<Seq<char>>) -> bool {
    forall|i: int| 0 <= i < pieces.len() ==> #[trigger] split_on(pieces[i], ':').len() == 2
}

/// Parses the "k1:v1 k2:v2" form into its pairs, in the order of the text;
/// the empty string is no map. A piece between spaces that is not a name and
/// a value around a single colon is refused: the first such piece is returned
/// as the error.
pub fn parse_optional_map(raw: &str) -> (r: Result<Option<Vec<(String, String)>>, String>)
    ensures
        raw@.len() == 0 ==> r matches Ok(None),
        raw@.len() > 0 ==> ({
            let pieces = split_on(raw@, ' ');
            &&& r is Ok <==> all_pairs_valid(pieces)
            &&& r matches Ok(Some(v)) ==> v@.len() == pieces.len() && forall|i: int|
                0 <= i < v@.len() ==> v@[i].0@ == split_on(pieces[i], ':')[0] && v@[i].1@
                    == split_on(pieces[i], ':')[1]
            &&& r matches Err(p) ==> exists|i: int|
                0 <= i < pieces.len() && p@ == pieces[i] && split_on(pieces[i], ':').len() != 2
                    && all_pairs_valid(pieces.take(i))
            &&& !(r matches Ok(None))
        }),
{
    if raw.unicode_len() == 0 {
        return Ok(None);
    }
    let pieces = split_str(raw, ' ');
    let ghost ps = split_on(raw@, ' ');
    let mut out: Vec<(String, String)> = Vec::new();
    let mut i: usize = 0;
    while i < pieces.len()
        invariant
            raw@.len() > 0,
            ps == split_on(raw@, ' '),
            views(pieces@) == ps,
            i <= pieces@.len(),
            out@.len() == i,
            all_pairs_valid(ps.take(i as int)),
            forall|j: int|
                0 <= j < i ==> out@[j].0@ == split_on(ps[j], ':')[0] && out@[j].1@ == split_on(
                    ps[j],
                    ':',
                )[1],
        decreases pieces@.len() - i,
    {
        let parts = split_str(pieces[i].as_str(), ':');
        assert(ps[i as int] == pieces@[i as int]@);
        if parts.len() != 2 {
            let bad = pieces[i].clone();
            proof {
                assert(views(parts@).len() == parts@.len());
                assert(split_on(ps[i as int], ':').len() != 2);
                assert(!all_pairs_valid(ps));
                assert(bad@ == ps[i as int]);
            }
            return Err(bad);
        }
        assert(views(parts@)[0] == parts@[0]@ && views(parts@)[1] == parts@[1]@);
        out.push((parts[0].clone(), parts[1].clone()));
        assert(ps.take(i + 1) =~= ps.take(i as int).push(ps[i as int]));
        i += 1;
    }
    assert(ps.take(i as int) =~= ps);
    Ok(Some(out))
}

} // verus!
