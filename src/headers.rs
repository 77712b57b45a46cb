//! Response headers as plain values, and the two ways they are read.
use vstd::prelude::*;

verus! {

/// A response header as received: its name, and its value where that value is text.
pub type RawHeader = (String, Option<String>);

/// A character with ASCII upper case letters taken to lower case.
pub open spec fn lower_char(c: char) -> char {
    if 65 <= c as u32 <= 90 {
        ((c as u32) + 32) as char
    } else {
        c
    }
}

/// A name as header lookups see it: ASCII letters compared without case.
pub open spec fn folded(s: Seq<char>) -> Seq<char> {
    s.map_values(|c: char| lower_char(c))
}

/// Relies on str::eq_ignore_ascii_case: the two texts are equal once each
/// ASCII letter is taken to lower case, other characters compared as they are.
#[verifier::external_body]
fn same_name(a: &str, b: &str) -> (r: bool)
    ensures
        r == (folded(a@) == folded(b@)),
{
    a.eq_ignore_ascii_case(b)
}

pub open spec fn text_view(v: Option<String>) -> Option<Seq<char>> {
    match v {
        Some(s) => Some(s@),
        None => None,
    }
}

/// What a lookup of `name` yields, starting at position `i`: the value of the
/// first header of that name (in any ASCII case), absent where that value is
/// not text.
pub open spec fn value_from(hs: Seq<RawHeader>, name: Seq<char>, i: int) -> Option<Seq<char>>
    decreases hs.len() - i,
{
    if 0 <= i < hs.len() {
        if folded(hs[i].0@) == folded(name) {
            text_view(hs[i].1)
        } else {
            value_from(hs, name, i + 1)
        }
    } else {
        None
    }
}

pub open spec fn first_value(hs: Seq<RawHeader>, name: Seq<char>) -> Option<Seq<char>> {
    value_from(hs, name, 0)
}

/// Looks `name` up among the headers, without regard to ASCII case; the first
/// header of that name decides.
pub fn header_value(hs: &Vec<RawHeader>, name: &str) -> (r: Option<String>)
    ensures
        text_view(r) == first_value(hs@, name@),
{
    let mut i: usize = 0;
    while i < hs.len()
        invariant
            0 <= i <= hs.len(),
            value_from(hs@, name@, i as int) == first_value(hs@, name@),
        decreases hs.len() - i,
    {
        if same_name(hs[i].0.as_str(), name) {
            return match &hs[i].1 {
                Some(v) => Some(v.clone()),
                None => None,
            };
        }
        i = i + 1;
    }
    None
}

/// The mapping that a sequence of headers gives when each text header is
/// written in turn: a later value of a name (in any ASCII case) replaces an
/// earlier one, and a
/// header whose value is not text leaves the mapping as it was.
pub open spec fn header_map(hs: Seq<RawHeader>) -> Map<Seq<char>, Seq<char>>
    decreases hs.len(),
{
    if hs.len() == 0 {
        Map::empty()
    } else {
        let m = header_map(hs.drop_last());
        match hs.last().1 {
            Some(v) => m.insert(folded(hs.last().0@), v@),
            None => m,
        }
    }
}

/// The mapping that a list of name/value pairs stands for, by folded name.
pub open spec fn pairs_map(ps: Seq<(String, String)>) -> Map<Seq<char>, Seq<char>>
    decreases ps.len(),
{
    if ps.len() == 0 {
        Map::empty()
    } else {
        pairs_map(ps.drop_last()).insert(folded(ps.last().0@), ps.last().1@)
    }
}

pub open spec fn names_unique(ps: Seq<(String, String)>) -> bool {
    forall|i: int, j: int| 0 <= i < j < ps.len() ==> folded(ps[i].0@) != folded(ps[j].0@)
}

proof fn lemma_pairs_map_update(ps: Seq<(String, String)>, j: int, p: (String, String))
    requires
        names_unique(ps),
        0 <= j < ps.len(),
        folded(ps[j].0@) == folded(p.0@),
    ensures
        pairs_map(ps.update(j, p)) == pairs_map(ps).insert(folded(p.0@), p.1@),
    decreases ps.len(),
{
    let qs = ps.update(j, p);
    assert(qs.drop_last() =~= if j == ps.len() - 1 {
        ps.drop_last()
    } else {
        ps.drop_last().update(j, p)
    });
    if j == ps.len() - 1 {
        assert(pairs_map(qs) =~= pairs_map(ps).insert(folded(p.0@), p.1@));
    } else {
        lemma_pairs_map_update(ps.drop_last(), j, p);
        assert(folded(ps.last().0@) != folded(p.0@));
        assert(pairs_map(qs) =~= pairs_map(ps).insert(folded(p.0@), p.1@));
    }
}

/// The position of the pair named `name` (in any ASCII case), or the length
/// where there is none.
fn position_of(ps: &Vec<(String, String)>, name: &String) -> (r: usize)
    ensures
        r <= ps.len(),
        r < ps.len() ==> folded(ps@[r as int].0@) == folded(name@),
        r == ps.len() ==> forall|k: int| 0 <= k < ps.len() ==> folded(ps@[k].0@) != folded(name@),
{
    let mut j: usize = 0;
    while j < ps.len()
        invariant
            0 <= j <= ps.len(),
            forall|k: int| 0 <= k < j ==> folded(ps@[k].0@) != folded(name@),
        decreases ps.len() - j,
    {
        if same_name(ps[j].0.as_str(), name.as_str()) {
            return j;
        }
        j = j + 1;
    }
    j
}

/// Collects the text headers of a response into name/value pairs: each name
/// (without regard to ASCII case) at most once, as last received, with the
/// last text value of that name.
pub fn collect_headers(hs: &Vec<RawHeader>) -> (r: Vec<(String, String)>)
    ensures
        names_unique(r@),
        pairs_map(r@) == header_map(hs@),
{
    let mut out: Vec<(String, String)> = Vec::new();
    let mut i: usize = 0;
    while i < hs.len()
        invariant
            0 <= i <= hs.len(),
            names_unique(out@),
            pairs_map(out@) == header_map(hs@.take(i as int)),
        decreases hs.len() - i,
    {
        assert(hs@.take(i + 1).drop_last() =~= hs@.take(i as int));
        match &hs[i].1 {
            Some(v) => {
                let name = hs[i].0.clone();
                let j = position_of(&out, &name);
                let p = (name, v.clone());
                if j < out.len() {
                    proof {
                        lemma_pairs_map_update(out@, j as int, p);
                    }
                    out.set(j, p);
                    assert(names_unique(out@));
                } else {
                    assert(out@.push(p).drop_last() =~= out@);
                    out.push(p);
                }
            },
            None => {},
        }
        i = i + 1;
    }
    assert(hs@.take(hs.len() as int) =~= hs@);
    out
}

} // verus!
