//! User profiles: created on first sight of an email address, updated after.
use vstd::prelude::*;
use crate::store::Store;
use crate::text::{copy_opt_text, same_text};

verus! {

/// A user as the engine knows it; preferences are kept as JSON text.
#[derive(Debug)]
pub struct UserProfile {
    pub user_id: u128,
    pub name: String,
    pub email: Option<String>,
    pub preferences: Option<String>,
}

/// What a profile is created or updated from.
#[derive(Debug)]
pub struct UserProfileRequest {
    pub name: String,
    pub email: Option<String>,
    pub preferences: Option<String>,
}

/// The identifier of the earliest stored user whose email is `email`.
pub open spec fn user_with_email(users: Seq<UserProfile>, email: Seq<char>) -> Option<u128>
    decreases users.len(),
{
    if users.len() == 0 {
        None
    } else if users[0].email matches Some(e) && e@ == email {
        Some(users[0].user_id)
    } else {
        user_with_email(users.drop_first(), email)
    }
}

/// The identifier that a profile request resolves to: that of the user with
/// its email where there is one, else `fresh`.
pub open spec fn resolved_id(users: Seq<UserProfile>, req: UserProfileRequest, fresh: u128) -> u128 {
    match req.email {
        Some(e) => match user_with_email(users, e@) {
            Some(id) => id,
            None => fresh,
        },
        None => fresh,
    }
}

impl Store {
    /// Whether a user with identifier `id` is stored.
    pub fn has_user(&self, id: u128) -> (r: bool)
        ensures
            r == exists|j: int| 0 <= j < self.users@.len() && self.users@[j].user_id == id,
    {
        for i in 0..self.users.len()
            invariant
                forall|j: int| 0 <= j < i ==> self.users@[j].user_id != id,
        {
            if self.users[i].user_id == id {
                return true;
            }
        }
        false
    }

    /// The identifier of the earliest stored user whose email is `email`.
    fn user_with_email(&self, email: &str) -> (r: Option<u128>)
        ensures
            r == user_with_email(self.users@, email@),
    {
        assert(self.users@.subrange(0, self.users@.len() as int) =~= self.users@);
        for i in 0..self.users.len()
            invariant
                user_with_email(self.users@, email@) == user_with_email(
                    self.users@.subrange(i as int, self.users@.len() as int),
                    email@,
                ),
        {
            let ghost rest = self.users@.subrange(i as int, self.users@.len() as int);
            assert(rest.drop_first() =~= self.users@.subrange(i + 1, self.users@.len() as int));
            let matches_email = match &self.users[i].email {
                Some(e) => same_text(e.as_str(), email),
                None => false,
            };
            if matches_email {
                return Some(self.users[i].user_id);
            }
        }
        None
    }

    /// Creates or replaces the profile of the user that `req` names: the user
    /// with the same email where one is stored, else a new user `fresh_id`.
    pub fn ensure_user(&mut self, req: &UserProfileRequest, fresh_id: u128) -> (r: UserProfile)
        ensures
            r.user_id == resolved_id(old(self).users@, *req, fresh_id),
            r.name == req.name,
            r.email == req.email,
            r.preferences == req.preferences,
            final(self).users@ == old(self).users@.filter_map(
                |u: UserProfile| if u.user_id == r.user_id { None } else { Some(u) },
            ).push(r),
            final(self).plans == old(self).plans,
            final(self).daily_plans == old(self).daily_plans,
            final(self).tasks == old(self).tasks,
            final(self).reminders == old(self).reminders,
            final(self).tools == old(self).tools,
    {
        let user_id = match &req.email {
            Some(email) => match self.user_with_email(email.as_str()) {
                Some(id) => id,
                None => fresh_id,
            },
            None => fresh_id,
        };
        let ghost all = self.users@;
        let mut kept: Vec<UserProfile> = Vec::new();
        for i in 0..self.users.len()
            invariant
                all == self.users@,
                kept@ == all.subrange(0, i as int).filter_map(
                    |u: UserProfile| if u.user_id == user_id { None } else { Some(u) },
                ),
        {
            let ghost prefix = all.subrange(0, i + 1);
            assert(prefix.drop_last() =~= all.subrange(0, i as int));
            if self.users[i].user_id != user_id {
                let u = &self.users[i];
                kept.push(UserProfile {
                    user_id: u.user_id,
                    name: u.name.clone(),
                    email: copy_opt_text(&u.email),
                    preferences: copy_opt_text(&u.preferences),
                });
            }
            assert(kept@ =~= prefix.filter_map(|u: UserProfile| if u.user_id == user_id { None } else { Some(u) }));
        }
        assert(all.subrange(0, all.len() as int) =~= all);
        let profile = UserProfile {
            user_id,
            name: req.name.clone(),
            email: copy_opt_text(&req.email),
            preferences: copy_opt_text(&req.preferences),
        };
        let returned = UserProfile {
            user_id,
            name: req.name.clone(),
            email: copy_opt_text(&req.email),
            preferences: copy_opt_text(&req.preferences),
        };
        kept.push(profile);
        self.users = kept;
        returned
    }
}

} // verus!
