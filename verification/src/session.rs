//! Login and logout.
//!
//! Login is an idempotent "create the user row if the username is absent";
//! logout does nothing beyond releasing the connection.

use vstd::prelude::*;
use crate::request::{Fault, Outcome};
use crate::stmt::Stmt;
use crate::store::{Store, StoreView, UserRow, find_user_by_name};
use crate::trans::{login_post, lemma_login_post_wf};

verus! {

/// The exact statement trace of a login.
pub open spec fn login_trace_ok(tr: Seq<Stmt>, s: StoreView, uid: u64) -> bool {
    &&& tr[0] == (Stmt::SelectUsernameExists { uid })
    &&& if find_user_by_name(s.users, uid) is Some {
        tr.len() == 1
    } else {
        tr.len() == 2 && tr[1] == (Stmt::InsertUser { uid })
    }
}

/// Log a user in, creating the user row on first sight of the username.
pub fn handle_login(s: &mut Store, acting: Option<u64>) -> (r: Result<Outcome, Fault>)
    requires
        old(s)@.wf(),
        old(s)@.next_user_id < u64::MAX,
    ensures
        final(s)@.wf(),
        match r {
            Ok(out) => {
                &&& acting is Some
                &&& final(s)@ == login_post(old(s)@, acting->0)
                &&& !out.notify
                &&& login_trace_ok(out.trace@, old(s)@, acting->0)
            },
            Err(f) => {
                &&& final(s)@ == old(s)@
                &&& acting is None
                &&& f == Fault::NoActingUser
            },
        },
{
    let uid = match acting {
        Some(u) => u,
        None => {
            return Err(Fault::NoActingUser);
        },
    };
    let mut tr: Vec<Stmt> = Vec::new();
    tr.push(Stmt::SelectUsernameExists { uid });
    if s.user_index_by_name(uid).is_none() {
        tr.push(Stmt::InsertUser { uid });
        let id = s.next_user_id;
        s.users.push(UserRow { id, name_uid: uid, karma: 0 });
        s.next_user_id = id + 1;
        proof {
            assert(s@ =~~= login_post(old(s)@, uid));
        }
    }
    proof {
        lemma_login_post_wf(old(s)@, uid);
    }
    Ok(Outcome { trace: tr, notify: false })
}

/// Log out: nothing is read or written.
pub fn handle_logout() -> (r: Outcome)
    ensures
        r.trace@.len() == 0,
        !r.notify,
{
    Outcome { trace: Vec::new(), notify: false }
}

} // verus!
