//! Names that the compressor must keep at the top level.

use crate::text::{chars_of, is_white_space, lemma_trimmed_is_stretch, trim_bounds, trimmed};
use vstd::prelude::*;
use vstd::string::StrSliceExecFns;

verus! {

/// `top_retain`: names in one text, separated by commas, or a list of names.
#[derive(Debug, Clone, PartialEq, Eq)]
pub enum TerserTopRetainOption {
    Str(String),
    List(Vec<String>),
}

/// Where the first comma of a text stands; its length where it has none.
pub open spec fn first_comma(s: Seq<char>) -> nat
    decreases s.len(),
{
    if s.len() == 0 || s[0] == ',' {
        0
    } else {
        1 + first_comma(s.drop_first())
    }
}

/// A name as a list: of that name, or of nothing where the name is empty.
pub open spec fn kept(name: Seq<char>) -> Seq<Seq<char>> {
    if name.len() > 0 {
        seq![name]
    } else {
        Seq::empty()
    }
}

/// The names that a text lists: the text is cut at each comma, each piece
/// is trimmed, and the pieces of which nothing is left are dropped.
pub open spec fn retained(s: Seq<char>) -> Seq<Seq<char>>
    decreases s.len(),
{
    let k = first_comma(s);
    let here = kept(trimmed(s.take(k as int)));
    if k >= s.len() {
        here
    } else {
        here + retained(s.skip(k as int + 1))
    }
}

/// A list of names as the list of their characters.
pub open spec fn names_view(names: Seq<String>) -> Seq<Seq<char>> {
    names.map_values(|name: String| name@)
}

impl TerserTopRetainOption {
    /// The names meant. Those of a list are taken as they stand: they are
    /// not trimmed, and an empty one stays.
    pub open spec fn names(self) -> Seq<Seq<char>> {
        match self {
            TerserTopRetainOption::Str(s) => retained(s@),
            TerserTopRetainOption::List(v) => names_view(v@),
        }
    }

    /// Turns the option into the list of names it means.
    pub fn into_names(self) -> (r: Vec<String>)
        ensures
            names_view(r@) == self.names(),
            self matches TerserTopRetainOption::List(v) ==> r == v,
    {
        match self {
            TerserTopRetainOption::Str(s) => retain_names(s.as_str()),
            TerserTopRetainOption::List(v) => v,
        }
    }
}

/// The names to keep of a configuration: none where the option is left open.
pub open spec fn top_retain_of(explicit: Option<TerserTopRetainOption>) -> Seq<Seq<char>> {
    match explicit {
        Some(o) => o.names(),
        None => Seq::empty(),
    }
}

/// The first comma stands where a comma follows a run without one.
pub proof fn lemma_first_comma(s: Seq<char>, k: int)
    requires
        0 <= k <= s.len(),
        forall|j: int| 0 <= j < k ==> s[j] != ',',
        k == s.len() || s[k] == ',',
    ensures
        first_comma(s) == k,
    decreases k,
{
    if k > 0 {
        lemma_first_comma(s.drop_first(), k - 1);
    }
}

/// Before the first comma there is no comma, and it is a comma.
pub proof fn lemma_first_comma_bounds(s: Seq<char>)
    ensures
        first_comma(s) <= s.len(),
        forall|j: int| 0 <= j < first_comma(s) ==> s[j] != ',',
        first_comma(s) < s.len() ==> s[first_comma(s) as int] == ',',
    decreases s.len(),
{
    if !(s.len() == 0 || s[0] == ',') {
        let rest = s.drop_first();
        lemma_first_comma_bounds(rest);
        assert forall|j: int| 0 <= j < first_comma(s) implies s[j] != ',' by {
            if j > 0 {
                assert(s[j] == rest[j - 1]);
            }
        }
    }
}

/// Each name that a text lists has a character, none of its characters
/// is a comma, and it neither starts nor ends with white space.
pub proof fn law_retained_names(s: Seq<char>, i: int)
    requires
        0 <= i < retained(s).len(),
    ensures
        retained(s)[i].len() > 0,
        !is_white_space(retained(s)[i].first()),
        !is_white_space(retained(s)[i].last()),
        forall|j: int| 0 <= j < retained(s)[i].len() ==> retained(s)[i][j] != ',',
    decreases s.len(),
{
    lemma_first_comma_bounds(s);
    let k = first_comma(s) as int;
    let piece = s.take(k);
    let here = kept(trimmed(piece));
    if i < here.len() {
        let (a, b) = lemma_trimmed_is_stretch(piece);
        assert forall|j: int| 0 <= j < retained(s)[i].len() implies retained(s)[i][j] != ',' by {
            assert(trimmed(piece)[j] == s[a + j]);
        }
    } else {
        law_retained_names(s.skip(k + 1), i - here.len());
    }
}

/// A text without a comma lists one name, what trimming leaves of it, or
/// none where that is nothing.
pub proof fn law_retained_one(s: Seq<char>)
    requires
        forall|j: int| 0 <= j < s.len() ==> s[j] != ',',
    ensures
        retained(s) == kept(trimmed(s)),
{
    lemma_first_comma(s, s.len() as int);
    assert(s.take(s.len() as int) =~= s);
}

/// The names of two texts joined by a comma are those of the first, which
/// has no comma, and then those of the second.
pub proof fn law_retained_joined(a: Seq<char>, b: Seq<char>)
    requires
        forall|j: int| 0 <= j < a.len() ==> a[j] != ',',
    ensures
        retained(a + seq![','] + b) == kept(trimmed(a)) + retained(b),
{
    let s = a + seq![','] + b;
    lemma_first_comma(s, a.len() as int);
    assert(s.take(a.len() as int) =~= a);
    assert(s.skip(a.len() as int + 1) =~= b);
}

/// The pieces that the commas cut a text into. A text without a comma is
/// one piece, and so is the empty text.
pub open spec fn pieces(s: Seq<char>) -> Seq<Seq<char>>
    decreases s.len(),
{
    let k = first_comma(s);
    if k >= s.len() {
        seq![s]
    } else {
        seq![s.take(k as int)] + pieces(s.skip(k as int + 1))
    }
}

/// The names that a text lists are its pieces, each trimmed, without
/// those of which nothing is left.
pub proof fn law_retained_is_cut_trimmed_cleared(s: Seq<char>)
    ensures
        retained(s) == pieces(s).map_values(|p: Seq<char>| trimmed(p)).filter(
            |p: Seq<char>| p.len() > 0,
        ),
    decreases s.len(),
{
    let trim = |p: Seq<char>| trimmed(p);
    let full = |p: Seq<char>| p.len() > 0;
    let k = first_comma(s);
    lemma_first_comma_bounds(s);
    let head = s.take(k as int);
    let one = seq![head];
    assert(one.map_values(trim) =~= seq![trimmed(head)]);
    assert(seq![trimmed(head)].filter(full) =~= kept(trimmed(head))) by {
        reveal_with_fuel(Seq::filter, 2);
        assert(seq![trimmed(head)].drop_last() =~= Seq::<Seq<char>>::empty());
    }
    if k >= s.len() {
        assert(head =~= s);
    } else {
        let rest = s.skip(k as int + 1);
        law_retained_is_cut_trimmed_cleared(rest);
        assert((one + pieces(rest)).map_values(trim) =~= one.map_values(trim) + pieces(
            rest,
        ).map_values(trim));
        Seq::filter_distributes_over_add(
            one.map_values(trim),
            pieces(rest).map_values(trim),
            full,
        );
    }
}

/// Reads the names that a text lists.
pub fn retain_names(s: &str) -> (names: Vec<String>)
    ensures
        names_view(names@) == retained(s@),
{
    let v = chars_of(s);
    let n: usize = v.len();
    let mut names: Vec<String> = Vec::new();
    let mut pos: usize = 0;
    assert(v@.skip(0) =~= v@);
    assert(names_view(names@) =~= Seq::<Seq<char>>::empty());
    loop
        invariant_except_break
            pos <= n,
            n == v.len(),
            v@ == s@,
            retained(s@) == names_view(names@) + retained(v@.skip(pos as int)),
        ensures
            names_view(names@) == retained(s@),
        decreases n - pos,
    {
        let mut k: usize = pos;
        while k < n && v[k] != ','
            invariant
                pos <= k <= n,
                n == v.len(),
                forall|j: int| pos <= j < k ==> v@[j] != ',',
            decreases n - k,
        {
            k = k + 1;
        }
        let ghost rest = v@.skip(pos as int);
        proof {
            lemma_first_comma(rest, k - pos);
            assert(rest.take(k - pos) =~= v@.subrange(pos as int, k as int));
            if k < n {
                assert(rest.skip(k - pos + 1) =~= v@.skip(k + 1));
            }
        }
        let (a, b) = trim_bounds(&v, pos, k);
        let ghost before = names_view(names@);
        if a < b {
            let name: String = s.substring_char(a, b).to_owned();
            names.push(name);
            assert(names_view(names@) =~= before + kept(trimmed(rest.take(k - pos))));
        } else {
            assert(v@.subrange(a as int, b as int) =~= Seq::<char>::empty());
            assert(names_view(names@) =~= before + kept(trimmed(rest.take(k - pos))));
        }
        if k == n {
            break ;
        }
        pos = k + 1;
    }
    names
}

/// Resolves `top_retain`.
pub fn resolve_top_retain(explicit: Option<TerserTopRetainOption>) -> (r: Vec<String>)
    ensures
        names_view(r@) == top_retain_of(explicit),
        explicit matches Some(TerserTopRetainOption::List(v)) ==> r == v,
{
    match explicit {
        Some(o) => o.into_names(),
        None => {
            let r: Vec<String> = Vec::new();
            assert(names_view(r@) =~= Seq::<Seq<char>>::empty());
            r
        },
    }
}

} // verus!
