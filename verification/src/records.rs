//! The record model: one key-like entity from the external engine,
//! with its identifier, field groups and detail level, and the
//! projection of a field group at a given detail level.

use vstd::prelude::*;
use vstd::string::*;

use crate::strutil::{contains_seq, contains_sub, join_strings, join_with, lower_case, lower_of, clone_strings, views_of};

verus! {

/// How much of a record's field groups is projected.
#[derive(Clone, Copy, PartialEq, Eq, Structural, Debug)]
pub enum DetailLevel {
    Minimum,
    Standard,
    Full,
}

impl DetailLevel {
    /// The ordinal of the level.
    pub open spec fn ord(self) -> nat {
        match self {
            DetailLevel::Minimum => 0,
            DetailLevel::Standard => 1,
            DetailLevel::Full => 2,
        }
    }

    /// The next level up, saturating at `Full`.
    pub open spec fn next_up(self) -> DetailLevel {
        match self {
            DetailLevel::Minimum => DetailLevel::Standard,
            DetailLevel::Standard => DetailLevel::Full,
            DetailLevel::Full => DetailLevel::Full,
        }
    }

    /// Moves one level up, saturating at `Full`.
    pub fn increase(&mut self)
        ensures
            *final(self) == old(self).next_up(),
    {
        *self = match *self {
            DetailLevel::Minimum => DetailLevel::Standard,
            DetailLevel::Standard => DetailLevel::Full,
            DetailLevel::Full => DetailLevel::Full,
        };
    }

    /// How many fields of a group of `len` fields this level projects:
    /// the first field at `Minimum`, one more at `Standard`, all of
    /// them at `Full`.
    pub open spec fn shown_count(self, len: nat) -> nat {
        match self {
            DetailLevel::Minimum => if len < 1 {
                len
            } else {
                1
            },
            DetailLevel::Standard => if len < 2 {
                len
            } else {
                2
            },
            DetailLevel::Full => len,
        }
    }

    /// The level's name.
    pub fn label(&self) -> (r: String)
        ensures
            r@ == self.label_spec(),
    {
        match *self {
            DetailLevel::Minimum => "minimum".to_owned(),
            DetailLevel::Standard => "standard".to_owned(),
            DetailLevel::Full => "full".to_owned(),
        }
    }

    /// The name of each level.
    pub open spec fn label_spec(self) -> Seq<char> {
        match self {
            DetailLevel::Minimum => "minimum"@,
            DetailLevel::Standard => "standard"@,
            DetailLevel::Full => "full"@,
        }
    }

    /// Parses a level name; `None` for anything else.
    pub fn parse(s: &str) -> (r: Option<DetailLevel>)
        ensures
            r == Some(DetailLevel::Minimum) <==> s@ == "minimum"@,
            r == Some(DetailLevel::Standard) <==> s@ == "standard"@,
            r == Some(DetailLevel::Full) <==> s@ == "full"@,
            r is None <==> (s@ != "minimum"@ && s@ != "standard"@ && s@ != "full"@),
    {
        proof {
            reveal_strlit("minimum");
            reveal_strlit("standard");
            reveal_strlit("full");
            assert("minimum"@.len() == 7);
            assert("standard"@.len() == 8);
            assert("full"@.len() == 4);
        }
        if crate::strutil::str_eq(s, "minimum") {
            Some(DetailLevel::Minimum)
        } else if crate::strutil::str_eq(s, "standard") {
            Some(DetailLevel::Standard)
        } else if crate::strutil::str_eq(s, "full") {
            Some(DetailLevel::Full)
        } else {
            None
        }
    }
}

/// Raising the detail level never lowers it, and once the maximum
/// ordinal is reached a further raise changes nothing.
pub proof fn lemma_detail_saturation(d: DetailLevel)
    ensures
        d.next_up().ord() >= d.ord(),
        d.ord() == 2 ==> d.next_up() == d,
        d.next_up().next_up().next_up() == DetailLevel::Full,
{
}

/// The position right after the first token of `s`: the index of the
/// first space, or the length when there is none.
pub open spec fn token_end(s: Seq<char>, i: nat) -> nat
    decreases s.len() - i,
{
    if i >= s.len() || s[i as int] == ' ' {
        i
    } else {
        token_end(s, i + 1)
    }
}

/// The first token of `s`.
pub open spec fn first_token_spec(s: Seq<char>) -> Seq<char> {
    s.subrange(0, token_end(s, 0) as int)
}

proof fn lemma_token_end_bounds(s: Seq<char>, i: nat)
    requires
        i <= s.len(),
    ensures
        i <= token_end(s, i) <= s.len(),
    decreases s.len() - i,
{
    if !(i >= s.len() || s[i as int] == ' ') {
        lemma_token_end_bounds(s, i + 1);
    }
}

/// The first token of `s`: everything before the first space.
pub fn first_token(s: &str) -> (r: String)
    ensures
        r@ == first_token_spec(s@),
{
    let n = s.unicode_len();
    let mut i: usize = 0;
    while i < n && s.get_char(i) != ' '
        invariant
            n == s@.len(),
            i <= n,
            token_end(s@, 0) == token_end(s@, i as nat),
        decreases n - i,
    {
        proof {
            assert(token_end(s@, i as nat) == token_end(s@, (i + 1) as nat));
        }
        i += 1;
    }
    proof {
        assert(token_end(s@, i as nat) == i);
        lemma_token_end_bounds(s@, 0);
    }
    let t = s.substring_char(0, i);
    t.to_owned()
}

/// One record as the engine reports it: a stable identifier, a
/// fingerprint, a user identity, and two ordered groups of text
/// fields, with the level of detail currently shown for it.
pub struct Record {
    pub id: String,
    pub fingerprint: String,
    pub user_id: String,
    pub primary: Vec<String>,
    pub secondary: Vec<String>,
    pub detail: DetailLevel,
}

/// The mathematical value of a [`Record`].
#[verifier::ext_equal]
pub struct RecordData {
    pub id: Seq<char>,
    pub fingerprint: Seq<char>,
    pub user_id: Seq<char>,
    pub primary: Seq<Seq<char>>,
    pub secondary: Seq<Seq<char>>,
    pub detail: DetailLevel,
}

impl View for Record {
    type V = RecordData;

    open spec fn view(&self) -> RecordData {
        RecordData {
            id: self.id@,
            fingerprint: self.fingerprint@,
            user_id: self.user_id@,
            primary: views_of(self.primary@),
            secondary: views_of(self.secondary@),
            detail: self.detail,
        }
    }
}

/// The values of a sequence of records.
pub open spec fn recs_of(v: Seq<Record>) -> Seq<RecordData> {
    v.map_values(|r: Record| r@)
}

/// Appending a record appends its value.
pub proof fn lemma_recs_push(v: Seq<Record>, x: Record)
    ensures
        recs_of(v.push(x)) == recs_of(v).push(x@),
{
    assert(recs_of(v.push(x)) =~= recs_of(v).push(x@));
}

/// Indexing the values indexes the records.
pub proof fn lemma_recs_index(v: Seq<Record>, i: int)
    requires
        0 <= i < v.len(),
    ensures
        recs_of(v)[i] == v[i]@,
{
}

/// The projection of a field group at a detail level: the shown prefix
/// of the group, each field cut to its first token when minimized.
pub open spec fn project_group_spec(group: Seq<Seq<char>>, d: DetailLevel, minimized: bool) -> Seq<
    Seq<char>,
> {
    let shown = group.take(d.shown_count(group.len()) as int);
    if minimized {
        shown.map_values(|f: Seq<char>| first_token_spec(f))
    } else {
        shown
    }
}

/// Projects a field group at a detail level.
pub fn project_group(group: &Vec<String>, d: DetailLevel, minimized: bool) -> (r: Vec<String>)
    ensures
        views_of(r@) == project_group_spec(views_of(group@), d, minimized),
{
    let count: usize = match d {
        DetailLevel::Minimum => if group.len() < 1 {
            group.len()
        } else {
            1
        },
        DetailLevel::Standard => if group.len() < 2 {
            group.len()
        } else {
            2
        },
        DetailLevel::Full => group.len(),
    };
    proof {
        assert(count == d.shown_count(views_of(group@).len()));
    }
    let mut r: Vec<String> = Vec::new();
    let mut i: usize = 0;
    while i < count
        invariant
            count <= group@.len(),
            i <= count,
            r@.len() == i,
            views_of(r@) =~= project_group_spec(views_of(group@), d, minimized).take(i as int),
            count == d.shown_count(views_of(group@).len()),
        decreases count - i,
    {
        if minimized {
            r.push(first_token(group[i].as_str()));
        } else {
            r.push(group[i].clone());
        }
        proof {
            let gv = views_of(group@);
            let spec_all = project_group_spec(gv, d, minimized);
            assert(gv.take(count as int)[i as int] == gv[i as int]);
            assert(gv[i as int] == group@[i as int]@);
            if minimized {
                assert(spec_all[i as int] == first_token_spec(gv[i as int]));
            } else {
                assert(spec_all[i as int] == gv[i as int]);
            }
            assert(r@.len() == i + 1);
            assert(views_of(r@)[i as int] == r@[i as int]@);
            assert(views_of(r@) =~= spec_all.take(i + 1));
        }
        i += 1;
    }
    proof {
        assert(project_group_spec(views_of(group@), d, minimized).take(count as int)
            =~= project_group_spec(views_of(group@), d, minimized));
        assert(views_of(r@) =~= project_group_spec(views_of(group@), d, minimized));
    }
    r
}

/// True iff the record's projected text, folded to lower case,
/// contains the folded query in either field group.
pub open spec fn record_matches(r: RecordData, minimized: bool, q: Seq<char>) -> bool {
    ||| contains_seq(
        lower_of(join_with(project_group_spec(r.primary, r.detail, minimized), "\n"@)),
        lower_of(q),
    )
    ||| contains_seq(
        lower_of(join_with(project_group_spec(r.secondary, r.detail, minimized), "\n"@)),
        lower_of(q),
    )
}

impl Record {
    /// The projected lines of the primary field group.
    pub fn primary_lines(&self, minimized: bool) -> (r: Vec<String>)
        ensures
            views_of(r@) == project_group_spec(self@.primary, self.detail, minimized),
    {
        project_group(&self.primary, self.detail, minimized)
    }

    /// The projected lines of the secondary field group.
    pub fn secondary_lines(&self, minimized: bool) -> (r: Vec<String>)
        ensures
            views_of(r@) == project_group_spec(self@.secondary, self.detail, minimized),
    {
        project_group(&self.secondary, self.detail, minimized)
    }

    /// Whether this record is visible under the search query `q`.
    pub fn matches_query(&self, minimized: bool, q: &str) -> (r: bool)
        ensures
            r == record_matches(self@, minimized, q@),
    {
        let q_lower = lower_case(q);
        let primary_text = lower_case(join_strings(&self.primary_lines(minimized), "\n").as_str());
        if contains_sub(primary_text.as_str(), q_lower.as_str()) {
            return true;
        }
        let secondary_text = lower_case(
            join_strings(&self.secondary_lines(minimized), "\n").as_str(),
        );
        contains_sub(secondary_text.as_str(), q_lower.as_str())
    }
}

impl Clone for Record {
    /// Clones the record, value for value.
    fn clone(&self) -> (r: Self)
        ensures
            r@ == self@,
    {
        let r = Record {
            id: self.id.clone(),
            fingerprint: self.fingerprint.clone(),
            user_id: self.user_id.clone(),
            primary: clone_strings(&self.primary),
            secondary: clone_strings(&self.secondary),
            detail: self.detail,
        };
        proof {
            assert(r@ =~= self@);
        }
        r
    }
}

/// Clones a vector of records, value for value.
pub fn clone_records(v: &Vec<Record>) -> (r: Vec<Record>)
    ensures
        recs_of(r@) == recs_of(v@),
        r@.len() == v@.len(),
{
    let mut r: Vec<Record> = Vec::new();
    let mut i: usize = 0;
    while i < v.len()
        invariant
            i <= v@.len(),
            r@.len() == i,
            recs_of(r@) =~= recs_of(v@).take(i as int),
        decreases v@.len() - i,
    {
        r.push(v[i].clone());
        proof {
            assert(recs_of(r@) =~= recs_of(v@).take(i + 1));
        }
        i += 1;
    }
    proof {
        assert(recs_of(r@) =~= recs_of(v@));
    }
    r
}

} // verus!
