//! The ordered list of directories searched for an application's files.

use vstd::prelude::*;
use vstd::string::{StrSliceExecFns, StringExecFns};

verus! {

/// The views of a vector of strings, index by index.
pub open spec fn views(v: Seq<String>) -> Seq<Seq<char>> {
    Seq::new(v.len(), |i: int| v[i]@)
}

/// What deep mode appends to a widened location: `/**`, so the glob walks
/// every subdirectory; nothing in plain mode.
pub open spec fn deep_suffix(deep: bool) -> Seq<char> {
    if deep {
        "/**"@
    } else {
        Seq::empty()
    }
}

pub open spec fn loc_app_support(home: Seq<char>, deep: bool) -> Seq<char> {
    home + "/Library/Application Support"@ + deep_suffix(deep)
}

pub open spec fn loc_caches(home: Seq<char>, deep: bool) -> Seq<char> {
    home + "/Library/Caches"@ + deep_suffix(deep)
}

pub open spec fn loc_preferences(home: Seq<char>) -> Seq<char> {
    home + "/Library/Preferences"@
}

pub open spec fn loc_user_applications(home: Seq<char>) -> Seq<char> {
    home + "/Applications"@
}

/// The six fixed search locations, in search order.
pub open spec fn fixed_locations(home: Seq<char>, deep: bool) -> Seq<Seq<char>> {
    seq![
        loc_app_support(home, deep),
        loc_caches(home, deep),
        loc_preferences(home),
        loc_user_applications(home),
        "/Applications"@,
        "/System/Applications"@,
    ]
}

/// The full search list: the six fixed locations, and the application's
/// parent directory appended only when no fixed location already equals it.
pub open spec fn search_locations_spec(home: Seq<char>, deep: bool, parent: Seq<char>) -> Seq<
    Seq<char>,
> {
    if fixed_locations(home, deep).contains(parent) {
        fixed_locations(home, deep)
    } else {
        fixed_locations(home, deep).push(parent)
    }
}

/// Deep mode only widens: the two widened locations are the plain ones with
/// `/**` appended, and the other four do not change with the mode.
pub proof fn lemma_deep_widens(home: Seq<char>)
    ensures
        loc_app_support(home, true) =~= loc_app_support(home, false) + "/**"@,
        loc_caches(home, true) =~= loc_caches(home, false) + "/**"@,
        fixed_locations(home, true).subrange(2, 6) =~= fixed_locations(home, false).subrange(2, 6),
{
}

fn join(base: &str, suffix: &str) -> (r: String)
    ensures
        r@ == base@ + suffix@,
{
    let mut s = base.to_owned();
    s.append(suffix);
    s
}

/// The six fixed locations as strings, in search order.
pub fn fixed_locations_list(home: &str, deep: bool) -> (r: Vec<String>)
    ensures
        views(r@) == fixed_locations(home@, deep),
{
    let mut r: Vec<String> = Vec::new();
    let mut app_support = join(home, "/Library/Application Support");
    let mut caches = join(home, "/Library/Caches");
    if deep {
        app_support.append("/**");
        caches.append("/**");
    }
    r.push(app_support);
    r.push(caches);
    r.push(join(home, "/Library/Preferences"));
    r.push(join(home, "/Applications"));
    r.push("/Applications".to_owned());
    r.push("/System/Applications".to_owned());
    proof {
        assert(views(r@) =~~= fixed_locations(home@, deep));
    }
    r
}

fn contains_string(v: &Vec<String>, x: &String) -> (r: bool)
    ensures
        r == views(v@).contains(x@),
{
    let mut i: usize = 0;
    while i < v.len()
        invariant
            i <= v@.len(),
            forall|j: int| 0 <= j < i ==> v@[j]@ != x@,
        decreases v@.len() - i,
    {
        if v[i] == *x {
            assert(views(v@)[i as int] == x@);
            return true;
        }
        i = i + 1;
    }
    assert(forall|j: int| 0 <= j < views(v@).len() ==> views(v@)[j] != x@);
    false
}

/// The list of directories to search: the six fixed locations, then the
/// application's parent directory unless some fixed location already equals
/// it — set semantics by value equality, so no seventh entry repeats one of
/// the six.
pub fn search_locations(home: &str, deep: bool, parent: &String) -> (r: Vec<String>)
    ensures
        views(r@) == search_locations_spec(home@, deep, parent@),
{
    let mut locs = fixed_locations_list(home, deep);
    if !contains_string(&locs, parent) {
        locs.push(parent.clone());
    }
    proof {
        assert(views(locs@) =~~= search_locations_spec(home@, deep, parent@));
    }
    locs
}

/// The parent directory never duplicates a fixed location: when it equals
/// one of the six the list keeps six entries, and otherwise it stands once,
/// at the end, equal to no fixed entry.
pub proof fn lemma_parent_not_duplicated(home: Seq<char>, deep: bool, parent: Seq<char>)
    ensures
        fixed_locations(home, deep).contains(parent) ==> search_locations_spec(
            home,
            deep,
            parent,
        ).len() == 6,
        !fixed_locations(home, deep).contains(parent) ==> {
            &&& search_locations_spec(home, deep, parent).len() == 7
            &&& search_locations_spec(home, deep, parent).last() == parent
            &&& forall|i: int|
                0 <= i < 6 ==> search_locations_spec(home, deep, parent)[i] != parent
        },
{
    if !fixed_locations(home, deep).contains(parent) {
        assert(forall|i: int|
            0 <= i < 6 ==> search_locations_spec(home, deep, parent)[i] != parent) by {
            assert(forall|i: int| 0 <= i < 6 ==> fixed_locations(home, deep)[i] != parent);
        }
    }
}

/// The search list holds no duplicate directory at all, for every home
/// directory but the two degenerate ones: an empty home (its Applications
/// folder would be `/Applications` itself) and `/System` (its Applications
/// folder would be `/System/Applications`).
pub proof fn lemma_locations_pairwise_distinct(home: Seq<char>, deep: bool, parent: Seq<char>)
    requires
        home.len() > 0,
        home != "/System"@,
    ensures
        forall|i: int, j: int|
            0 <= i < j < search_locations_spec(home, deep, parent).len()
                ==> search_locations_spec(home, deep, parent)[i] != search_locations_spec(
                home,
                deep,
                parent,
            )[j],
{
    reveal_strlit("/Library/Application Support");
    reveal_strlit("/Library/Caches");
    reveal_strlit("/Library/Preferences");
    reveal_strlit("/Applications");
    reveal_strlit("/System/Applications");
    reveal_strlit("/System");
    reveal_strlit("/**");
    let h = home.len() as int;
    assert("/Library/Application Support"@.len() == 28);
    assert("/Library/Caches"@.len() == 15);
    assert("/Library/Preferences"@.len() == 20);
    assert("/Applications"@.len() == 13);
    assert("/System/Applications"@.len() == 20);
    assert("/System"@.len() == 7);
    assert("/**"@.len() == 3);
    let l1 = loc_caches(home, deep);
    let l3 = loc_user_applications(home);
    let l5 = "/System/Applications"@;
    assert(l1 != l5) by {
        if l1 == l5 {
            if deep {
                assert(h == 2);
                assert(l1[2] == '/');
                assert(l5[2] == 'y');
            } else {
                assert(h == 5);
                assert(l1[5] == '/');
                assert(l5[5] == 'e');
            }
        }
    }
    assert(l3 != l5) by {
        if l3 == l5 {
            assert(h == 7);
            assert(home[0] == l3[0] && l3[0] == l5[0]);
            assert(home[1] == l3[1] && l3[1] == l5[1]);
            assert(home[2] == l3[2] && l3[2] == l5[2]);
            assert(home[3] == l3[3] && l3[3] == l5[3]);
            assert(home[4] == l3[4] && l3[4] == l5[4]);
            assert(home[5] == l3[5] && l3[5] == l5[5]);
            assert(home[6] == l3[6] && l3[6] == l5[6]);
            assert(home =~= "/System"@);
        }
    }
    lemma_parent_not_duplicated(home, deep, parent);
    let fixed = fixed_locations(home, deep);
    assert(forall|i: int, j: int| 0 <= i < j < 6 ==> fixed[i] != fixed[j]) by {
        assert(fixed[0] == loc_app_support(home, deep));
        assert(fixed[1] == loc_caches(home, deep));
        assert(fixed[2] == loc_preferences(home));
        assert(fixed[3] == loc_user_applications(home));
        assert(fixed[4] == "/Applications"@);
        assert(fixed[5] == "/System/Applications"@);
        let d = deep_suffix(deep).len() as int;
        assert(loc_app_support(home, deep).len() == h + 28 + d);
        assert(loc_caches(home, deep).len() == h + 15 + d);
        assert(loc_preferences(home).len() == h + 20);
        assert(loc_user_applications(home).len() == h + 13);
        assert(fixed[0] != fixed[1]);
        assert(fixed[0] != fixed[2]);
        assert(fixed[0] != fixed[3]);
        assert(fixed[0] != fixed[4]);
        assert(fixed[0] != fixed[5]);
        assert(fixed[1] != fixed[2]);
        assert(fixed[1] != fixed[3]);
        assert(fixed[1] != fixed[4]);
        assert(fixed[1] != fixed[5]);
        assert(fixed[2] != fixed[3]);
        assert(fixed[2] != fixed[4]);
        assert(fixed[2] != fixed[5]);
        assert(fixed[3] != fixed[4]);
        assert(fixed[3] != fixed[5]);
        assert(fixed[4] != fixed[5]);
    }
    let s = search_locations_spec(home, deep, parent);
    if fixed.contains(parent) {
        assert(forall|i: int, j: int| 0 <= i < j < s.len() ==> s[i] != s[j]);
    } else {
        assert(forall|i: int, j: int| 0 <= i < j < s.len() ==> s[i] != s[j]) by {
            assert(forall|i: int| 0 <= i < 6 ==> s[i] == fixed[i]);
            assert(s[6] == parent);
            assert(forall|i: int| 0 <= i < 6 ==> s[i] != parent);
        }
    }
}

} // verus!
