//! Saved sessions, one per user, that let a user sign in again without a
//! password. Reading and writing the store is left to the caller; this module
//! keeps the list.
use vstd::prelude::*;

verus! {

/// A saved user session that can be restored on a later launch.
#[derive(Clone, Debug)]
pub struct Session {
    pub user_id: String,
    pub display_name: String,
    pub homeserver: String,
    pub access_token: String,
    pub device_id: String,
}

/// Whether entry `i` of `s` belongs to user `uid`.
pub open spec fn held_by(s: Seq<Session>, uid: Seq<char>, i: int) -> bool {
    0 <= i < s.len() && s[i].user_id@ == uid
}

/// Whether no entry of `s` belongs to user `uid`.
pub open spec fn no_entry_for(s: Seq<Session>, uid: Seq<char>) -> bool {
    forall|j: int| 0 <= j < s.len() ==> !held_by(s, uid, j)
}

/// The list after saving `session` into `old`: it replaces the first entry of
/// the same user, or is appended when that user has none.
pub open spec fn saved_into(old: Seq<Session>, session: Session, new: Seq<Session>) -> bool {
    ||| no_entry_for(old, session.user_id@) && new == old.push(session)
    ||| exists|k: int|
        #![trigger old[k]]
        held_by(old, session.user_id@, k) && (forall|j: int| 0 <= j < k ==> !held_by(old, session.user_id@, j))
            && new == old.update(k, session)
}

/// The list without the entries of user `uid`, in order.
pub open spec fn without_user(s: Seq<Session>, uid: Seq<char>) -> Seq<Session> {
    s.filter(|x: Session| x.user_id@ != uid)
}

/// Keeps the list of saved sessions.
pub struct SessionManager;

impl SessionManager {
    /// Saves a session into the list: it replaces the entry of the same user,
    /// or is added at the end.
    pub fn save_session(sessions: &mut Vec<Session>, session: Session)
        ensures
            saved_into(old(sessions)@, session, final(sessions)@),
    {
        let ghost uid = session.user_id@;
        let mut i: usize = 0;
        while i < sessions.len()
            invariant
                i <= sessions@.len(),
                sessions@ == old(sessions)@,
                uid == session.user_id@,
                forall|j: int| 0 <= j < i ==> !held_by(sessions@, uid, j),
            decreases sessions@.len() - i,
        {
            if sessions[i].user_id == session.user_id {
                sessions.set(i, session);
                proof {
                    assert(held_by(old(sessions)@, uid, i as int));
                }
                return;
            }
            i = i + 1;
        }
        sessions.push(session);
    }

    /// Removes every session of user `user_id` from the list.
    pub fn delete_session(sessions: &mut Vec<Session>, user_id: &str)
        ensures
            final(sessions)@ == without_user(old(sessions)@, user_id@),
    {
        let key = String::from_str(user_id);
        let mut rest: Vec<Session> = Vec::new();
        std::mem::swap(sessions, &mut rest);
        let ghost all = rest@;
        let n = rest.len();
        let mut i: usize = 0;
        while i < n
            invariant
                n == all.len(),
                i <= n,
                all == old(sessions)@,
                rest@ == all.skip(i as int),
                key@ == user_id@,
                sessions@ == without_user(all.take(i as int), user_id@),
            decreases n - i,
        {
            proof {
                reveal(Seq::filter);
                assert(all.take(i + 1).drop_last() =~= all.take(i as int));
                assert(all.take(i + 1).last() == all[i as int]);
            }
            let s = rest.remove(0);
            proof {
                assert(rest@ =~= all.skip(i + 1));
            }
            if s.user_id != key {
                sessions.push(s);
            }
            i = i + 1;
        }
        proof {
            assert(all.take(n as int) =~= all);
        }
    }

    /// The profiles offered for a quick sign-in: the stored sessions, or none
    /// when the store could not be read (`None`).
    pub fn get_remembered_profiles(loaded: Option<Vec<Session>>) -> (r: Vec<Session>)
        ensures
            r@ == match loaded {
                Some(v) => v@,
                None => Seq::<Session>::empty(),
            },
    {
        match loaded {
            Some(v) => v,
            None => Vec::new(),
        }
    }
}

} // verus!
