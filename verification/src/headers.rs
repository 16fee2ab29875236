//! The header table of a client configuration.
//!
//! Header names are case-insensitive and the last write for a name
//! wins; the table is modelled as a map keyed by the lower-cased name.
//! Writes validate the name against the HTTP token characters and the
//! value against the characters legal in an HTTP header value.

use crate::error::{Error, ErrorModel};
use vstd::prelude::*;

verus! {

/// A letter folded to lower case; every other character stands as it is.
pub open spec fn spec_lower_char(c: char) -> char {
    if 65 <= c as int && c as int <= 90 {
        ((c as u8) + 32) as char
    } else {
        c
    }
}

/// A whole name folded to lower case, character by character.
pub open spec fn lower_seq(s: Seq<char>) -> Seq<char> {
    s.map_values(|c: char| spec_lower_char(c))
}

/// True of the characters legal in an HTTP header name: digits, letters,
/// and the token punctuation.
pub open spec fn is_tchar_code(n: int) -> bool {
    (48 <= n && n <= 57) || (65 <= n && n <= 90) || (97 <= n && n <= 122) || n == 33 || n == 35
        || n == 36 || n == 37 || n == 38 || n == 39 || n == 42 || n == 43 || n == 45 || n == 46
        || n == 94 || n == 95 || n == 96 || n == 124 || n == 126
}

/// A legal HTTP header name: non-empty, token characters only.
pub open spec fn valid_header_name(s: Seq<char>) -> bool {
    0 < s.len() && forall|i: int| 0 <= i < s.len() ==> is_tchar_code(#[trigger] s[i] as int)
}

/// True of the characters legal in an HTTP header value: horizontal tab,
/// and everything visible or beyond ASCII, but no other control character.
pub open spec fn is_value_code(n: int) -> bool {
    n == 9 || (32 <= n && n != 127)
}

/// A legal HTTP header value; the empty value is legal.
pub open spec fn valid_header_value(s: Seq<char>) -> bool {
    forall|i: int| 0 <= i < s.len() ==> is_value_code(#[trigger] s[i] as int)
}

/// Checks a header name against the token characters.
pub fn check_header_name(s: &str) -> (r: bool)
    ensures
        r == valid_header_name(s@),
{
    let n = s.unicode_len();
    if n == 0 {
        return false;
    }
    let mut i: usize = 0;
    while i < n
        invariant
            n == s@.len(),
            0 <= i <= n,
            forall|j: int| 0 <= j < i ==> is_tchar_code(#[trigger] s@[j] as int),
        decreases n - i,
    {
        let c = s.get_char(i);
        let code = c as u32;
        let ok = (48 <= code && code <= 57) || (65 <= code && code <= 90) || (97 <= code && code
            <= 122) || code == 33 || code == 35 || code == 36 || code == 37 || code == 38 || code
            == 39 || code == 42 || code == 43 || code == 45 || code == 46 || code == 94 || code
            == 95 || code == 96 || code == 124 || code == 126;
        if !ok {
            return false;
        }
        i = i + 1;
    }
    true
}

/// Checks a header value against the legal value characters.
pub fn check_header_value(s: &str) -> (r: bool)
    ensures
        r == valid_header_value(s@),
{
    let n = s.unicode_len();
    let mut i: usize = 0;
    while i < n
        invariant
            n == s@.len(),
            0 <= i <= n,
            forall|j: int| 0 <= j < i ==> is_value_code(#[trigger] s@[j] as int),
        decreases n - i,
    {
        let c = s.get_char(i);
        let code = c as u32;
        if !(code == 9 || (32 <= code && code != 127)) {
            return false;
        }
        i = i + 1;
    }
    true
}

/// Compares two names for equality up to letter case.
pub fn names_equal_ci(a: &str, b: &str) -> (r: bool)
    ensures
        r == (lower_seq(a@) == lower_seq(b@)),
{
    let na = a.unicode_len();
    let nb = b.unicode_len();
    if na != nb {
        proof {
            assert(lower_seq(a@).len() != lower_seq(b@).len());
        }
        return false;
    }
    let mut i: usize = 0;
    while i < na
        invariant
            na == a@.len(),
            na == b@.len(),
            0 <= i <= na,
            forall|j: int| 0 <= j < i ==> lower_seq(a@)[j] == lower_seq(b@)[j],
        decreases na - i,
    {
        let ca = a.get_char(i) as u32;
        let cb = b.get_char(i) as u32;
        let la = if 65 <= ca && ca <= 90 {
            ca + 32
        } else {
            ca
        };
        let lb = if 65 <= cb && cb <= 90 {
            cb + 32
        } else {
            cb
        };
        if la != lb {
            proof {
                assert(lower_seq(a@)[i as int] != lower_seq(b@)[i as int]);
            }
            return false;
        }
        proof {
            assert(spec_lower_char(a@[i as int]) as u32 == la);
            assert(spec_lower_char(b@[i as int]) as u32 == lb);
            assert(lower_seq(a@)[i as int] == lower_seq(b@)[i as int]);
        }
        i = i + 1;
    }
    proof {
        assert(lower_seq(a@) =~= lower_seq(b@));
    }
    true
}

/// Inserting under a name folds the name to lower case and lets the new
/// value win.
pub open spec fn spec_insert(
    m: Map<Seq<char>, Seq<char>>,
    name: Seq<char>,
    value: Seq<char>,
) -> Map<Seq<char>, Seq<char>> {
    m.insert(lower_seq(name), value)
}

/// The map a list of entries stands for: later entries win.
pub open spec fn entries_map(s: Seq<(String, String)>) -> Map<Seq<char>, Seq<char>>
    decreases s.len(),
{
    if s.len() == 0 {
        Map::empty()
    } else {
        entries_map(s.drop_last()).insert(lower_seq(s.last().0@), s.last().1@)
    }
}

/// An ordered table of HTTP headers with case-insensitive names.
#[derive(Debug)]
pub struct Headers {
    entries: Vec<(String, String)>,
}

impl View for Headers {
    type V = Map<Seq<char>, Seq<char>>;

    closed spec fn view(&self) -> Map<Seq<char>, Seq<char>> {
        entries_map(self.entries@)
    }
}

impl Headers {
    /// The number of entries the table holds.
    pub closed spec fn spec_len(self) -> nat {
        self.entries@.len()
    }

    /// Well-formed: no two entries share a name, up to letter case.
    pub closed spec fn wf(self) -> bool {
        forall|i: int, j: int|
            0 <= i < j < self.entries@.len() ==> lower_seq(#[trigger] self.entries@[i].0@)
                != lower_seq(#[trigger] self.entries@[j].0@)
    }

    /// An empty header table.
    pub fn empty() -> (r: Headers)
        ensures
            r@ == Map::<Seq<char>, Seq<char>>::empty(),
            r.wf(),
            r.spec_len() == 0,
    {
        Headers { entries: Vec::new() }
    }

    /// The number of entries.
    pub fn len(&self) -> (r: usize)
        ensures
            r == self.spec_len(),
    {
        self.entries.len()
    }

    /// An exact copy of the table.
    pub fn duplicate(&self) -> (r: Headers)
        ensures
            r@ == self@,
            r.spec_len() == self.spec_len(),
            self.wf() ==> r.wf(),
    {
        let mut out: Vec<(String, String)> = Vec::new();
        let mut i: usize = 0;
        while i < self.entries.len()
            invariant
                0 <= i <= self.entries@.len(),
                out@.len() == i,
                forall|j: int|
                    0 <= j < i ==> #[trigger] out@[j].0@ == self.entries@[j].0@ && out@[j].1@
                        == self.entries@[j].1@,
            decreases self.entries@.len() - i,
        {
            let pair = &self.entries[i];
            out.push((pair.0.clone(), pair.1.clone()));
            i = i + 1;
        }
        let r = Headers { entries: out };
        proof {
            lemma_entries_map_congruent(r.entries@, self.entries@);
        }
        r
    }

    /// The entries as name/value pairs, in insertion order.
    pub fn entry_pairs(&self) -> (r: Vec<(String, String)>)
        ensures
            r@.len() == self.spec_len(),
            entries_map(r@) == self@,
    {
        let copy = self.duplicate();
        let Headers { entries } = copy;
        entries
    }

    /// Looks a name up, case-insensitively.
    pub fn get(&self, name: &str) -> (r: Option<&String>)
        requires
            self.wf(),
        ensures
            match r {
                Some(v) => self@.contains_key(lower_seq(name@)) && self@[lower_seq(name@)] == v@,
                None => !self@.contains_key(lower_seq(name@)),
            },
    {
        let n = self.entries.len();
        let mut i: usize = 0;
        while i < n
            invariant
                self.wf(),
                n == self.entries@.len(),
                0 <= i <= n,
                forall|j: int|
                    0 <= j < i ==> lower_seq(#[trigger] self.entries@[j].0@) != lower_seq(name@),
            decreases n - i,
        {
            if names_equal_ci(self.entries[i].0.as_str(), name) {
                proof {
                    lemma_entries_map_key(self.entries@, i as int);
                }
                return Some(&self.entries[i].1);
            }
            i = i + 1;
        }
        proof {
            lemma_entries_map_absent(self.entries@, lower_seq(name@));
        }
        None
    }

    /// Inserts without validating; the validating operations and the
    /// constructors with constant names come through here.
    pub(crate) fn insert_raw(&mut self, name: &str, value: &str)
        requires
            old(self).wf(),
        ensures
            final(self).wf(),
            final(self)@ == spec_insert(old(self)@, name@, value@),
            final(self).spec_len() == old(self).spec_len() + (if old(self)@.contains_key(
                lower_seq(name@),
            ) {
                0int
            } else {
                1int
            }),
    {
        let n = self.entries.len();
        let mut i: usize = 0;
        while i < n
            invariant
                *self == *old(self),
                self.wf(),
                n == self.entries@.len(),
                0 <= i <= n,
                forall|j: int|
                    0 <= j < i ==> lower_seq(#[trigger] self.entries@[j].0@) != lower_seq(name@),
            decreases n - i,
        {
            if names_equal_ci(self.entries[i].0.as_str(), name) {
                proof {
                    lemma_entries_map_key(self.entries@, i as int);
                }
                let ghost old_entries = self.entries@;
                let pair = self.entries.remove(i);
                self.entries.insert(i, (pair.0, String::from_str(value)));
                proof {
                    assert(self.entries@ =~= old_entries.update(
                        i as int,
                        (old_entries[i as int].0, self.entries@[i as int].1),
                    ));
                    assert(self.entries@[i as int].1@ == value@);
                    lemma_entries_map_update(old_entries, i as int, self.entries@[i as int]);
                    assert(lower_seq(self.entries@[i as int].0@) == lower_seq(name@));
                }
                return ;
            }
            i = i + 1;
        }
        proof {
            lemma_entries_map_absent(self.entries@, lower_seq(name@));
        }
        let ghost old_entries = self.entries@;
        self.entries.push((String::from_str(name), String::from_str(value)));
        proof {
            assert(self.entries@.drop_last() =~= old_entries);
            assert(self.entries@.last() == self.entries@[old_entries.len() as int]);
            assert(entries_map(self.entries@) == entries_map(old_entries).insert(
                lower_seq(name@),
                value@,
            ));
        }
    }

    /// Sets a header, validating name and value first: an illegal name
    /// or value is rejected with a `HeaderError` and the table is left
    /// unchanged; otherwise the write goes through, case-insensitively,
    /// last write winning.
    pub fn insert(&mut self, name: &str, value: &str) -> (r: Result<(), Error>)
        requires
            old(self).wf(),
        ensures
            final(self).wf(),
            valid_header_name(name@) && valid_header_value(value@) ==> r is Ok && final(self)@
                == spec_insert(old(self)@, name@, value@) && final(self).spec_len() == old(
                self,
            ).spec_len() + (if old(self)@.contains_key(lower_seq(name@)) {
                0int
            } else {
                1int
            }),
            !valid_header_name(name@) ==> (r matches Err(e) && e@ == ErrorModel::HeaderError(
                "invalid header name"@,
            ) && *final(self) == *old(self)),
            valid_header_name(name@) && !valid_header_value(value@) ==> (r matches Err(e) && e@
                == ErrorModel::HeaderError("invalid header value"@) && *final(self) == *old(self)),
    {
        if !check_header_name(name) {
            return Err(Error::HeaderError(String::from_str("invalid header name")));
        }
        if !check_header_value(value) {
            return Err(Error::HeaderError(String::from_str("invalid header value")));
        }
        self.insert_raw(name, value);
        Ok(())
    }

    /// The union of two tables: on a name collision the other table's
    /// value wins.
    pub fn merged_with(&self, overrides: &Headers) -> (r: Headers)
        requires
            self.wf(),
            overrides.wf(),
        ensures
            r.wf(),
            r@ == self@.union_prefer_right(overrides@),
    {
        let mut out = self.duplicate();
        let n = overrides.entries.len();
        let mut i: usize = 0;
        proof {
            assert(entries_map(overrides.entries@.take(0)) =~= Map::<Seq<char>, Seq<char>>::empty());
            assert(out@ =~= self@.union_prefer_right(entries_map(overrides.entries@.take(0))));
        }
        while i < n
            invariant
                out.wf(),
                self.wf(),
                overrides.wf(),
                n == overrides.entries@.len(),
                0 <= i <= n,
                out@ == self@.union_prefer_right(entries_map(overrides.entries@.take(i as int))),
            decreases n - i,
        {
            let pair = &overrides.entries[i];
            out.insert_raw(pair.0.as_str(), pair.1.as_str());
            proof {
                let taken = overrides.entries@.take(i as int);
                let taken1 = overrides.entries@.take(i as int + 1);
                assert(taken1.drop_last() =~= taken);
                assert(taken1.last() == overrides.entries@[i as int]);
                assert(entries_map(taken1) == entries_map(taken).insert(
                    lower_seq(overrides.entries@[i as int].0@),
                    overrides.entries@[i as int].1@,
                ));
                assert(out@ =~= self@.union_prefer_right(entries_map(taken1)));
            }
            i = i + 1;
        }
        proof {
            assert(overrides.entries@.take(n as int) =~= overrides.entries@);
        }
        out
    }
}

/// Entry lists equal name-by-name and value-by-value stand for the same
/// map.
proof fn lemma_entries_map_congruent(a: Seq<(String, String)>, b: Seq<(String, String)>)
    requires
        a.len() == b.len(),
        forall|j: int| 0 <= j < a.len() ==> #[trigger] a[j].0@ == b[j].0@ && a[j].1@ == b[j].1@,
    ensures
        entries_map(a) == entries_map(b),
    decreases a.len(),
{
    if a.len() == 0 {
        assert(entries_map(a) =~= entries_map(b));
    } else {
        assert(forall|j: int|
            0 <= j < a.len() - 1 ==> #[trigger] a.drop_last()[j].0@ == b.drop_last()[j].0@
                && a.drop_last()[j].1@ == b.drop_last()[j].1@);
        lemma_entries_map_congruent(a.drop_last(), b.drop_last());
        assert(a.last().0@ == b.last().0@ && a.last().1@ == b.last().1@) by {
            assert(a[a.len() - 1].0@ == b[a.len() - 1].0@ && a[a.len() - 1].1@ == b[a.len()
                - 1].1@);
        }
        assert(entries_map(a) =~= entries_map(b));
    }
}

/// The map holds each entry of a well-formed list under its folded name.
proof fn lemma_entries_map_key(s: Seq<(String, String)>, i: int)
    requires
        0 <= i < s.len(),
        forall|p: int, q: int|
            0 <= p < q < s.len() ==> lower_seq(#[trigger] s[p].0@) != lower_seq(#[trigger] s[q].0@),
    ensures
        entries_map(s).contains_key(lower_seq(s[i].0@)),
        entries_map(s)[lower_seq(s[i].0@)] == s[i].1@,
    decreases s.len(),
{
    if i == s.len() - 1 {
        assert(s.last() == s[i]);
    } else {
        assert(forall|j: int| 0 <= j < s.len() - 1 ==> #[trigger] s.drop_last()[j] == s[j]);
        lemma_entries_map_key(s.drop_last(), i);
        assert(lower_seq(s[i].0@) != lower_seq(s.last().0@)) by {
            assert(s.last() == s[s.len() - 1]);
        }
    }
}

/// A name no entry carries is not in the map.
proof fn lemma_entries_map_absent(s: Seq<(String, String)>, k: Seq<char>)
    requires
        forall|j: int| 0 <= j < s.len() ==> lower_seq(#[trigger] s[j].0@) != k,
    ensures
        !entries_map(s).contains_key(k),
    decreases s.len(),
{
    if s.len() > 0 {
        assert(forall|j: int| 0 <= j < s.len() - 1 ==> #[trigger] s.drop_last()[j] == s[j]);
        lemma_entries_map_absent(s.drop_last(), k);
        assert(lower_seq(s.last().0@) != k) by {
            assert(s.last() == s[s.len() - 1]);
        }
    }
}

/// Replacing the value of one entry of a well-formed list updates the
/// map at that entry's folded name.
proof fn lemma_entries_map_update(s: Seq<(String, String)>, i: int, p: (String, String))
    requires
        0 <= i < s.len(),
        lower_seq(p.0@) == lower_seq(s[i].0@),
        forall|x: int, y: int|
            0 <= x < y < s.len() ==> lower_seq(#[trigger] s[x].0@) != lower_seq(#[trigger] s[y].0@),
    ensures
        entries_map(s.update(i, p)) == entries_map(s).insert(lower_seq(s[i].0@), p.1@),
    decreases s.len(),
{
    if i == s.len() - 1 {
        assert(s.update(i, p).drop_last() =~= s.drop_last());
        assert(s.update(i, p).last() == p);
        assert(s.last() == s[i]);
        assert(entries_map(s.update(i, p)) =~= entries_map(s).insert(lower_seq(s[i].0@), p.1@));
    } else {
        assert(forall|j: int| 0 <= j < s.len() - 1 ==> #[trigger] s.drop_last()[j] == s[j]);
        assert(s.update(i, p).drop_last() =~= s.drop_last().update(i, p));
        assert(s.update(i, p).last() == s.last());
        lemma_entries_map_update(s.drop_last(), i, p);
        assert(lower_seq(s[i].0@) != lower_seq(s.last().0@)) by {
            assert(s.last() == s[s.len() - 1]);
        }
        assert(entries_map(s.update(i, p)) =~= entries_map(s).insert(lower_seq(s[i].0@), p.1@));
    }
}

/// Writing a header twice under names equal up to case leaves exactly
/// the one, later value: the earlier write is overwritten whatever the
/// letter case of either name.
pub proof fn lemma_insert_case_insensitive(
    m: Map<Seq<char>, Seq<char>>,
    n1: Seq<char>,
    v1: Seq<char>,
    n2: Seq<char>,
    v2: Seq<char>,
)
    requires
        lower_seq(n1) == lower_seq(n2),
    ensures
        spec_insert(spec_insert(m, n1, v1), n2, v2) == spec_insert(m, n2, v2),
{
    assert(spec_insert(spec_insert(m, n1, v1), n2, v2) =~= spec_insert(m, n2, v2));
}

} // verus!
