use vstd::prelude::*;

use crate::error::{EnumKind, ReadError};

verus! {

/// Compares two strings character by character.
pub fn text_equals(s: &str, t: &str) -> (r: bool)
    ensures
        r == (s@ == t@),
{
    let n = s.unicode_len();
    if n != t.unicode_len() {
        return false;
    }
    let mut i: usize = 0;
    while i < n
        invariant
            n == s@.len(),
            n == t@.len(),
            i <= n,
            forall|j: int| 0 <= j < i ==> s@[j] == t@[j],
        decreases n - i,
    {
        if s.get_char(i) != t.get_char(i) {
            return false;
        }
        i = i + 1;
    }
    assert(s@ =~= t@);
    true
}

/// Scope of a feed query.
#[derive(Clone, Copy, Debug, PartialEq, Eq, Structural)]
pub enum ListingType {
    All,
    Local,
    Subscribed,
    Community,
}

impl ListingType {
    /// The exact text that names the variant in a request.
    pub open spec fn spec_name(self) -> Seq<char> {
        match self {
            ListingType::All => seq!['A', 'l', 'l'],
            ListingType::Local => seq!['L', 'o', 'c', 'a', 'l'],
            ListingType::Subscribed => seq!['S', 'u', 'b', 's', 'c', 'r', 'i', 'b', 'e', 'd'],
            ListingType::Community => seq!['C', 'o', 'm', 'm', 'u', 'n', 'i', 't', 'y'],
        }
    }
}

/// Distinct variants have distinct names.
pub proof fn listing_names_distinct(a: ListingType, b: ListingType)
    ensures
        a.spec_name() == b.spec_name() ==> a == b,
{
    if a.spec_name() == b.spec_name() && a != b {
        assert(a.spec_name()[0] == b.spec_name()[0]);
        assert(a.spec_name().len() == b.spec_name().len());
    }
}

impl ListingType {
    /// The text that names the variant.
    pub fn name(&self) -> (r: &'static str)
        ensures
            r@ == self.spec_name(),
    {
        match self {
            ListingType::All => {
                proof { reveal_strlit("All"); }
                "All"
            },
            ListingType::Local => {
                proof { reveal_strlit("Local"); }
                "Local"
            },
            ListingType::Subscribed => {
                proof { reveal_strlit("Subscribed"); }
                "Subscribed"
            },
            ListingType::Community => {
                proof { reveal_strlit("Community"); }
                "Community"
            },
        }
    }

    /// Reads a listing type from its exact, case-sensitive name.
    pub fn parse(s: &str) -> (r: Result<ListingType, ReadError>)
        ensures
            forall|t: ListingType| t.spec_name() == s@ ==> r == Ok::<ListingType, ReadError>(t),
            (forall|t: ListingType| t.spec_name() != s@) ==> r is Err
                && r->Err_0.is_invalid_enum(EnumKind::ListingType, s@),
    {
        proof {
            assert forall|a: ListingType, b: ListingType| a.spec_name() == b.spec_name() implies a == b by {
                listing_names_distinct(a, b);
            }
        }
        let all = [ListingType::All, ListingType::Local, ListingType::Subscribed, ListingType::Community];
        let mut i: usize = 0;
        while i < 4
            invariant
                i <= 4,
                all@ == seq![ListingType::All, ListingType::Local, ListingType::Subscribed, ListingType::Community],
                forall|j: int| 0 <= j < i ==> all@[j].spec_name() != s@,
            decreases 4 - i,
        {
            let t = all[i];
            if text_equals(s, t.name()) {
                return Ok(t);
            }
            i = i + 1;
        }
        proof {
            assert forall|t: ListingType| t.spec_name() != s@ by {
                match t {
                    ListingType::All => assert(all@[0] == t),
                    ListingType::Local => assert(all@[1] == t),
                    ListingType::Subscribed => assert(all@[2] == t),
                    ListingType::Community => assert(all@[3] == t),
                }
            }
        }
        Err(ReadError::InvalidEnum(EnumKind::ListingType, s.to_string()))
    }
}

/// Ranking strategy of a feed query.
#[derive(Clone, Copy, Debug, PartialEq, Eq, Structural)]
pub enum SortType {
    Active,
    Hot,
    New,
    TopDay,
    TopWeek,
    TopMonth,
    TopYear,
    TopAll,
    MostComments,
    NewComments,
}

impl SortType {
    /// The exact text that names the variant in a request.
    pub open spec fn spec_name(self) -> Seq<char> {
        match self {
            SortType::Active => seq!['A', 'c', 't', 'i', 'v', 'e'],
            SortType::Hot => seq!['H', 'o', 't'],
            SortType::New => seq!['N', 'e', 'w'],
            SortType::TopDay => seq!['T', 'o', 'p', 'D', 'a', 'y'],
            SortType::TopWeek => seq!['T', 'o', 'p', 'W', 'e', 'e', 'k'],
            SortType::TopMonth => seq!['T', 'o', 'p', 'M', 'o', 'n', 't', 'h'],
            SortType::TopYear => seq!['T', 'o', 'p', 'Y', 'e', 'a', 'r'],
            SortType::TopAll => seq!['T', 'o', 'p', 'A', 'l', 'l'],
            SortType::MostComments => seq!['M', 'o', 's', 't', 'C', 'o', 'm', 'm', 'e', 'n', 't', 's'],
            SortType::NewComments => seq!['N', 'e', 'w', 'C', 'o', 'm', 'm', 'e', 'n', 't', 's'],
        }
    }

    /// The text that names the variant.
    pub fn name(&self) -> (r: &'static str)
        ensures
            r@ == self.spec_name(),
    {
        match self {
            SortType::Active => {
                proof { reveal_strlit("Active"); }
                "Active"
            },
            SortType::Hot => {
                proof { reveal_strlit("Hot"); }
                "Hot"
            },
            SortType::New => {
                proof { reveal_strlit("New"); }
                "New"
            },
            SortType::TopDay => {
                proof { reveal_strlit("TopDay"); }
                "TopDay"
            },
            SortType::TopWeek => {
                proof { reveal_strlit("TopWeek"); }
                "TopWeek"
            },
            SortType::TopMonth => {
                proof { reveal_strlit("TopMonth"); }
                "TopMonth"
            },
            SortType::TopYear => {
                proof { reveal_strlit("TopYear"); }
                "TopYear"
            },
            SortType::TopAll => {
                proof { reveal_strlit("TopAll"); }
                "TopAll"
            },
            SortType::MostComments => {
                proof { reveal_strlit("MostComments"); }
                "MostComments"
            },
            SortType::NewComments => {
                proof { reveal_strlit("NewComments"); }
                "NewComments"
            },
        }
    }

    /// Reads a sort type from its exact, case-sensitive name.
    pub fn parse(s: &str) -> (r: Result<SortType, ReadError>)
        ensures
            forall|t: SortType| t.spec_name() == s@ ==> r == Ok::<SortType, ReadError>(t),
            (forall|t: SortType| t.spec_name() != s@) ==> r is Err
                && r->Err_0.is_invalid_enum(EnumKind::SortType, s@),
    {
        let all = [SortType::Active, SortType::Hot, SortType::New, SortType::TopDay, SortType::TopWeek, SortType::TopMonth, SortType::TopYear, SortType::TopAll, SortType::MostComments, SortType::NewComments];
        let mut i: usize = 0;
        while i < 10
            invariant
                i <= 10,
                all@ == seq![SortType::Active, SortType::Hot, SortType::New, SortType::TopDay, SortType::TopWeek, SortType::TopMonth, SortType::TopYear, SortType::TopAll, SortType::MostComments, SortType::NewComments],
                forall|j: int| 0 <= j < i ==> all@[j].spec_name() != s@,
            decreases 10 - i,
        {
            let t = all[i];
            if text_equals(s, t.name()) {
                proof {
                    assert forall|u: SortType| u.spec_name() == s@ implies u == t by {
                        sort_names_distinct(u, t);
                    }
                }
                return Ok(t);
            }
            i = i + 1;
        }
        proof {
            assert forall|t: SortType| t.spec_name() != s@ by {
                match t {
                    SortType::Active => assert(all@[0] == t),
                    SortType::Hot => assert(all@[1] == t),
                    SortType::New => assert(all@[2] == t),
                    SortType::TopDay => assert(all@[3] == t),
                    SortType::TopWeek => assert(all@[4] == t),
                    SortType::TopMonth => assert(all@[5] == t),
                    SortType::TopYear => assert(all@[6] == t),
                    SortType::TopAll => assert(all@[7] == t),
                    SortType::MostComments => assert(all@[8] == t),
                    SortType::NewComments => assert(all@[9] == t),
                }
            }
        }
        Err(ReadError::InvalidEnum(EnumKind::SortType, s.to_string()))
    }
}

/// Distinct variants have distinct names.
pub proof fn sort_names_distinct(a: SortType, b: SortType)
    ensures
        a.spec_name() == b.spec_name() ==> a == b,
{
    if a.spec_name() == b.spec_name() && a != b {
        assert(a.spec_name().len() == b.spec_name().len());
        assert(a.spec_name()[0] == b.spec_name()[0]);
        assert(a.spec_name()[3] == b.spec_name()[3]);
    }
}

} // verus!
