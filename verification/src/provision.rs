//! The session pair: each account owns two named compute sessions with
//! fixed roles — a lighter primary and a heavier secondary — matched by a
//! fixed display-name convention. Ensuring the pair is idempotent: sessions
//! already listed under the convention are reused, missing ones are created
//! under it; a second pass finds the pair and changes nothing.

use vstd::prelude::*;

verus! {

/// One listed session, as the provisioning client reports it: its generated
/// name and the display name it was created under.
pub struct SessionRecord {
    pub name: String,
    pub display_name: String,
}

/// The mathematical image of a listed session.
pub ghost struct SessionView {
    pub name: Seq<char>,
    pub display: Seq<char>,
}

impl View for SessionRecord {
    type V = SessionView;

    open spec fn view(&self) -> SessionView {
        SessionView { name: self.name@, display: self.display_name@ }
    }
}

/// The images of a whole session listing.
pub open spec fn views_of(sessions: Seq<SessionRecord>) -> Seq<SessionView> {
    sessions.map_values(|r: SessionRecord| r@)
}

/// The name of the first listed session carrying a display name.
pub open spec fn spec_find(sessions: Seq<SessionView>, display: Seq<char>) -> Option<Seq<char>>
    decreases sessions.len(),
{
    if sessions.len() == 0 {
        None
    } else if sessions[0].display == display {
        Some(sessions[0].name)
    } else {
        spec_find(sessions.drop_first(), display)
    }
}

/// Ensures one role exists: a session listed under the role's display name
/// is reused; otherwise one is created under it with the fresh name.
pub open spec fn spec_ensure_one(
    sessions: Seq<SessionView>,
    display: Seq<char>,
    fresh: Seq<char>,
) -> (Seq<SessionView>, Seq<char>) {
    match spec_find(sessions, display) {
        Some(name) => (sessions, name),
        None => (sessions.push(SessionView { name: fresh, display }), fresh),
    }
}

/// Ensures both roles exist, the primary first: the resulting listing and
/// the two session names of the pair.
pub open spec fn spec_ensure_pair(
    sessions: Seq<SessionView>,
    fresh_primary: Seq<char>,
    fresh_secondary: Seq<char>,
) -> (Seq<SessionView>, Seq<char>, Seq<char>) {
    let (after_primary, primary) = spec_ensure_one(sessions, "mawari-node"@, fresh_primary);
    let (after_both, secondary) = spec_ensure_one(after_primary, "nexus-node"@, fresh_secondary);
    (after_both, primary, secondary)
}

proof fn lemma_find_push(sessions: Seq<SessionView>, display: Seq<char>, v: SessionView)
    ensures
        spec_find(sessions.push(v), display) == (match spec_find(sessions, display) {
            Some(name) => Some(name),
            None => if v.display == display {
                Some(v.name)
            } else {
                None
            },
        }),
    decreases sessions.len(),
{
    if sessions.len() == 0 {
        assert(sessions.push(v)[0] == v);
        assert(sessions.push(v).drop_first() =~= Seq::<SessionView>::empty());
    } else {
        assert(sessions.push(v).drop_first() =~= sessions.drop_first().push(v));
        lemma_find_push(sessions.drop_first(), display, v);
    }
}

/// The name of the first listed session carrying a display name, or nothing.
fn find_named(sessions: &Vec<SessionRecord>, display: &str) -> (r: Option<String>)
    ensures
        r matches Some(n) ==> spec_find(views_of(sessions@), display@) == Some(n@),
        r is None ==> spec_find(views_of(sessions@), display@) is None,
{
    let ghost vs = views_of(sessions@);
    let len: usize = sessions.len();
    let mut i: usize = 0;
    proof {
        assert(vs.subrange(0, len as int) =~= vs);
    }
    while i < len
        invariant
            len == sessions@.len(),
            vs == views_of(sessions@),
            vs.len() == len,
            0 <= i <= len,
            spec_find(vs, display@) == spec_find(vs.subrange(i as int, len as int), display@),
        decreases len - i,
    {
        if crate::text::str_eq(sessions[i].display_name.as_str(), display) {
            assert(vs.subrange(i as int, len as int)[0] == vs[i as int]);
            return Some(sessions[i].name.clone());
        }
        proof {
            assert(vs.subrange(i as int, len as int)[0] == vs[i as int]);
            assert(vs.subrange(i as int, len as int).drop_first() =~= vs.subrange(
                i + 1,
                len as int,
            ));
        }
        i = i + 1;
    }
    proof {
        assert(vs.subrange(len as int, len as int).len() == 0);
    }
    None
}

/// What a listing already holds of the pair: the primary's and the
/// secondary's names where sessions carry the fixed display names, and
/// nothing for each role that must still be created.
pub fn pair_status(sessions: &Vec<SessionRecord>) -> (r: (Option<String>, Option<String>))
    ensures
        r.0 matches Some(n) ==> spec_find(views_of(sessions@), "mawari-node"@) == Some(n@),
        r.0 is None ==> spec_find(views_of(sessions@), "mawari-node"@) is None,
        r.1 matches Some(n) ==> spec_find(views_of(sessions@), "nexus-node"@) == Some(n@),
        r.1 is None ==> spec_find(views_of(sessions@), "nexus-node"@) is None,
{
    (find_named(sessions, "mawari-node"), find_named(sessions, "nexus-node"))
}

/// Ensures the account's session pair exists in a listing: sessions already
/// carrying the fixed display names are reused; missing roles are recorded
/// under them with the fresh names. Returns the updated listing and the
/// pair's names, primary first. Ensuring an already ensured listing finds
/// both roles and changes nothing.
pub fn ensure_pair(sessions: Vec<SessionRecord>, fresh_primary: &str, fresh_secondary: &str) -> (r:
    (Vec<SessionRecord>, String, String))
    ensures
        views_of(r.0@) == spec_ensure_pair(
            views_of(sessions@),
            fresh_primary@,
            fresh_secondary@,
        ).0,
        r.1@ == spec_ensure_pair(views_of(sessions@), fresh_primary@, fresh_secondary@).1,
        r.2@ == spec_ensure_pair(views_of(sessions@), fresh_primary@, fresh_secondary@).2,
{
    let ghost vs0 = views_of(sessions@);
    let mut list = sessions;
    let primary: String = match find_named(&list, "mawari-node") {
        Some(name) => name,
        None => {
            let record = SessionRecord {
                name: String::from_str(fresh_primary),
                display_name: String::from_str("mawari-node"),
            };
            proof {
                assert(views_of(list@.push(record)) =~= views_of(list@).push(record@));
            }
            list.push(record);
            String::from_str(fresh_primary)
        },
    };
    let ghost vs1 = views_of(list@);
    proof {
        assert(vs1 == spec_ensure_one(vs0, "mawari-node"@, fresh_primary@).0);
        assert(primary@ == spec_ensure_one(vs0, "mawari-node"@, fresh_primary@).1);
    }
    let secondary: String = match find_named(&list, "nexus-node") {
        Some(name) => name,
        None => {
            let record = SessionRecord {
                name: String::from_str(fresh_secondary),
                display_name: String::from_str("nexus-node"),
            };
            proof {
                assert(views_of(list@.push(record)) =~= views_of(list@).push(record@));
            }
            list.push(record);
            String::from_str(fresh_secondary)
        },
    };
    proof {
        assert(views_of(list@) == spec_ensure_one(vs1, "nexus-node"@, fresh_secondary@).0);
        assert(secondary@ == spec_ensure_one(vs1, "nexus-node"@, fresh_secondary@).1);
    }
    (list, primary, secondary)
}

/// Law: ensuring the session pair is idempotent. A second ensuring of the
/// listing the first produced — with any fresh names — returns the same two
/// names and leaves the listing as it was: no duplicate sessions arise.
pub proof fn lemma_ensure_pair_idempotent(
    sessions: Seq<SessionView>,
    fresh_primary: Seq<char>,
    fresh_secondary: Seq<char>,
    again_primary: Seq<char>,
    again_secondary: Seq<char>,
)
    ensures
        ({
            let (once, primary, secondary) = spec_ensure_pair(
                sessions,
                fresh_primary,
                fresh_secondary,
            );
            let (twice, primary2, secondary2) = spec_ensure_pair(
                once,
                again_primary,
                again_secondary,
            );
            twice == once && primary2 == primary && secondary2 == secondary
        }),
{
    reveal_strlit("mawari-node");
    reveal_strlit("nexus-node");
    assert("mawari-node"@ != "nexus-node"@) by {
        assert("mawari-node"@[0] != "nexus-node"@[0]);
    }
    let (once, primary, secondary) = spec_ensure_pair(sessions, fresh_primary, fresh_secondary);
    if spec_find(sessions, "mawari-node"@) is None {
        lemma_find_push(
            sessions,
            "mawari-node"@,
            SessionView { name: fresh_primary, display: "mawari-node"@ },
        );
        lemma_find_push(
            sessions,
            "nexus-node"@,
            SessionView { name: fresh_primary, display: "mawari-node"@ },
        );
    }
    let after_primary = spec_ensure_one(sessions, "mawari-node"@, fresh_primary).0;
    if spec_find(after_primary, "nexus-node"@) is None {
        lemma_find_push(
            after_primary,
            "mawari-node"@,
            SessionView { name: fresh_secondary, display: "nexus-node"@ },
        );
        lemma_find_push(
            after_primary,
            "nexus-node"@,
            SessionView { name: fresh_secondary, display: "nexus-node"@ },
        );
    }
    assert(spec_find(once, "mawari-node"@) == Some(primary));
    assert(spec_find(once, "nexus-node"@) == Some(secondary));
}

/// Whether a reported session state counts as running.
pub open spec fn spec_session_running(state: Seq<char>) -> bool {
    state == "Available"@ || state == "Running"@
}

/// Classifies a reported session state: available and running states count
/// as running; everything else — provisioning, stopped, unknown — does not.
pub fn session_running(state: &str) -> (r: bool)
    ensures
        r == spec_session_running(state@),
{
    crate::text::str_eq(state, "Available") || crate::text::str_eq(state, "Running")
}

/// One role of the pair: the display name it is matched by and the machine
/// class it is created with.
pub struct RoleSpec {
    pub display_name: String,
    pub machine: String,
}

/// The primary role: the lighter machine class.
pub fn primary_role() -> (r: RoleSpec)
    ensures
        r.display_name@ == "mawari-node"@,
        r.machine@ == "basicLinux32gb"@,
{
    RoleSpec {
        display_name: String::from_str("mawari-node"),
        machine: String::from_str("basicLinux32gb"),
    }
}

/// The secondary role: the heavier machine class.
pub fn secondary_role() -> (r: RoleSpec)
    ensures
        r.display_name@ == "nexus-node"@,
        r.machine@ == "standardLinux32gb"@,
{
    RoleSpec {
        display_name: String::from_str("nexus-node"),
        machine: String::from_str("standardLinux32gb"),
    }
}

} // verus!
