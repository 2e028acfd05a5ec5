//! The HTTP transport's configuration and the sessions it keeps.
use vstd::prelude::*;
use crate::strings::str_equal;

verus! {

/// Where the HTTP transport listens.
#[derive(Debug, Clone, PartialEq, Eq)]
pub struct SseTransportConfig {
    pub host: String,
    pub port: u16,
}

impl Default for SseTransportConfig {
    /// The local host, port 3000.
    fn default() -> (r: Self)
        ensures
            r.host@ == "127.0.0.1"@,
            r.port == 3000,
    {
        SseTransportConfig { host: String::from_str("127.0.0.1"), port: 3000 }
    }
}

/// Whether `c` is a lower-case hexadecimal digit.
pub open spec fn is_lower_hex(c: char) -> bool {
    ('0' <= c <= '9') || ('a' <= c <= 'f')
}

/// `uuid::Uuid::new_v4().to_string()`: a random identifier, written as 32 lower-case
/// hexadecimal digits in five groups joined by hyphens at positions 8, 13, 18 and 23.
/// Which digits come out is left unsaid: they are random.
#[verifier::external_body]
fn new_session_id() -> (r: String)
    ensures
        r@.len() == 36,
        r@[8] == '-' && r@[13] == '-' && r@[18] == '-' && r@[23] == '-',
        forall|i: int|
            0 <= i < 36 && i != 8 && i != 13 && i != 18 && i != 23 ==> is_lower_hex(#[trigger] r@[i]),
{
    uuid::Uuid::new_v4().to_string()
}

/// Whether an identifier differs from `id`.
pub open spec fn other_than(id: Seq<char>) -> spec_fn(Seq<char>) -> bool {
    |s: Seq<char>| s != id
}

/// The open sessions of the HTTP transport.
pub struct SseSessionManager {
    sessions: Vec<String>,
}

impl SseSessionManager {
    /// The identifiers of the open sessions, in the order they were opened.
    pub closed spec fn ids(&self) -> Seq<Seq<char>> {
        self.sessions@.map_values(|s: String| s@)
    }

    /// No session.
    pub fn new() -> (r: Self)
        ensures
            r.ids() == Seq::<Seq<char>>::empty(),
    {
        let r = SseSessionManager { sessions: Vec::new() };
        assert(r.ids() =~= Seq::<Seq<char>>::empty());
        r
    }

    /// Opens a session under a fresh random identifier, and gives the identifier.
    pub fn create_session(&mut self) -> (r: String)
        ensures
            final(self).ids() == old(self).ids().push(r@),
            r@.len() == 36,
            r@[8] == '-' && r@[13] == '-' && r@[18] == '-' && r@[23] == '-',
            forall|i: int|
                0 <= i < 36 && i != 8 && i != 13 && i != 18 && i != 23 ==> is_lower_hex(#[trigger] r@[i]),
    {
        let id = new_session_id();
        let kept = id.clone();
        self.sessions.push(kept);
        assert(self.ids() =~= old(self).ids().push(id@));
        id
    }

    /// Closes every session with identifier `id`; the others stay, in order.
    pub fn remove_session(&mut self, id: &str)
        ensures
            final(self).ids() == old(self).ids().filter(other_than(id@)),
    {
        let ghost before = self.ids();
        let mut kept: Vec<String> = Vec::new();
        let n = self.sessions.len();
        for i in 0..n
            invariant
                n == self.sessions@.len(),
                before == self.ids(),
                kept@.map_values(|s: String| s@) == before.take(i as int).filter(other_than(id@)),
        {
            let ghost prev = kept@.map_values(|s: String| s@);
            assert(before.take(i + 1).drop_last() =~= before.take(i as int));
            assert(before.take(i + 1).last() == self.sessions@[i as int]@);
            if !str_equal(self.sessions[i].as_str(), id) {
                let s = self.sessions[i].clone();
                kept.push(s);
                assert(kept@.map_values(|s: String| s@) =~= prev.push(self.sessions@[i as int]@));
            }
            reveal(Seq::filter);
            assert(before.take(i + 1).filter(other_than(id@)) == {
                let f = before.take(i as int).filter(other_than(id@));
                if before.take(i + 1).last() != id@ {
                    f.push(before.take(i + 1).last())
                } else {
                    f
                }
            });
        }
        assert(before.take(n as int) =~= before);
        self.sessions = kept;
    }

    /// The number of open sessions.
    pub fn session_count(&self) -> (r: usize)
        ensures
            r == self.ids().len(),
    {
        self.sessions.len()
    }
}

/// After a session is closed its identifier is among the open ones no more, and every
/// other open session stays open.
pub proof fn lemma_removed_session_closed(ids: Seq<Seq<char>>, id: Seq<char>)
    ensures
        !ids.filter(other_than(id)).contains(id),
        forall|k: Seq<char>| ids.contains(k) && k != id ==> #[trigger] ids.filter(other_than(id)).contains(k),
        ids.filter(other_than(id)).len() <= ids.len(),
{
    broadcast use vstd::seq_lib::group_filter_ensures;
    if ids.filter(other_than(id)).contains(id) {
        let i = choose|i: int| 0 <= i < ids.filter(other_than(id)).len() && ids.filter(other_than(id))[i] == id;
        assert(other_than(id)(ids.filter(other_than(id))[i]));
    }
    assert forall|k: Seq<char>| ids.contains(k) && k != id implies #[trigger] ids.filter(
        other_than(id),
    ).contains(k) by {
        let i = choose|i: int| 0 <= i < ids.len() && ids[i] == k;
        assert(other_than(id)(ids[i]));
    }
}

/// Opening a session adds one to the count of open sessions.
pub proof fn lemma_created_session_counted(ids: Seq<Seq<char>>, id: Seq<char>)
    ensures
        ids.push(id).len() == ids.len() + 1,
        ids.push(id).contains(id),
{
    assert(ids.push(id)[ids.len() as int] == id);
}

} // verus!
