pub mod agency_error;
pub mod agency_type;

use vstd::prelude::*;
use self::agency_error::AgencyError;
use self::agency_type::{Agency, AgencyView, NewAgency};
use crate::commands::agency_command::AgencyState;
use crate::domain::tenant::tenant_type::strings_view;
use crate::utils::domains_ids::PlanID;

verus! {

/// An agency and the changes that can be made to it.
pub struct AgencyEntity {
    props: Agency,
}

/// The users other than `user`, in order.
pub open spec fn without_user(users: Seq<Seq<char>>, user: Seq<char>) -> Seq<Seq<char>>
    decreases users.len(),
{
    if users.len() == 0 {
        Seq::empty()
    } else {
        let rest = without_user(users.drop_last(), user);
        if users.last() == user {
            rest
        } else {
            rest.push(users.last())
        }
    }
}

/// The users with `user` added at the end, unless it is there already.
pub open spec fn with_user(users: Seq<Seq<char>>, user: Seq<char>) -> Seq<Seq<char>> {
    if users.contains(user) {
        users
    } else {
        users.push(user)
    }
}

/// After a user is added, the agency has it; adding it again changes nothing;
/// and a list of users without repeats stays so.
pub proof fn lemma_with_user(users: Seq<Seq<char>>, user: Seq<char>)
    ensures
        with_user(users, user).contains(user),
        with_user(with_user(users, user), user) == with_user(users, user),
        users.no_duplicates() ==> with_user(users, user).no_duplicates(),
        forall|u: Seq<char>| users.contains(u) ==> with_user(users, user).contains(u),
{
    if !users.contains(user) {
        assert(users.push(user)[users.len() as int] == user);
        assert forall|u: Seq<char>| users.contains(u) implies users.push(user).contains(u) by {
            let k = choose|k: int| 0 <= k < users.len() && users[k] == u;
            assert(users.push(user)[k] == u);
        }
        if users.no_duplicates() {
            assert forall|i: int, j: int| 0 <= i < users.push(user).len() && 0 <= j < users.push(user).len() && i != j
                implies users.push(user)[i] != users.push(user)[j] by {
                if i == users.len() {
                    assert(!users.contains(users[j]) || users[j] != user);
                } else if j == users.len() {
                    assert(users.contains(users[i]));
                }
            }
        }
    }
}

/// After a user is removed, the agency no longer has it, and keeps every other user.
pub proof fn lemma_without_user(users: Seq<Seq<char>>, user: Seq<char>)
    ensures
        !without_user(users, user).contains(user),
        forall|u: Seq<char>| u != user && users.contains(u) ==> without_user(users, user).contains(u),
    decreases users.len(),
{
    if users.len() > 0 {
        lemma_without_user(users.drop_last(), user);
        let rest = without_user(users.drop_last(), user);
        if users.last() != user {
            assert forall|k: int| 0 <= k < rest.push(users.last()).len() implies rest.push(users.last())[k] != user by {
                if k < rest.len() {
                    assert(rest.contains(rest[k]));
                }
            }
        }
        assert forall|u: Seq<char>| u != user && users.contains(u) implies without_user(users, user).contains(u) by {
            let k = choose|k: int| 0 <= k < users.len() && users[k] == u;
            if k < users.len() - 1 {
                assert(users.drop_last()[k] == u);
                assert(users.drop_last().contains(u));
                assert(rest.contains(u));
                let m = choose|m: int| 0 <= m < rest.len() && rest[m] == u;
                if users.last() != user {
                    assert(rest.push(users.last())[m] == u);
                }
            } else {
                assert(rest.push(users.last())[rest.len() as int] == u);
            }
        }
    }
}

/// Removing a user that is not among the users leaves them as they are.
proof fn lemma_without_absent_user(users: Seq<Seq<char>>, user: Seq<char>)
    requires
        !users.contains(user),
    ensures
        without_user(users, user) == users,
    decreases users.len(),
{
    if users.len() > 0 {
        assert(!users.drop_last().contains(user)) by {
            if users.drop_last().contains(user) {
                let k = choose|k: int| 0 <= k < users.drop_last().len() && users.drop_last()[k] == user;
                assert(users[k] == user);
            }
        }
        lemma_without_absent_user(users.drop_last(), user);
        assert(users[users.len() - 1] != user);
        assert(users.drop_last().push(users.last()) =~= users);
    }
}

/// Removing a user undoes adding it: a user added to an agency that did not
/// have it and then removed leaves the users as they were.
pub proof fn lemma_remove_undoes_add(users: Seq<Seq<char>>, user: Seq<char>)
    requires
        !users.contains(user),
    ensures
        without_user(with_user(users, user), user) == users,
{
    assert(users.push(user).drop_last() =~= users);
    lemma_without_absent_user(users, user);
}

impl AgencyEntity {
    pub closed spec fn props_view(&self) -> AgencyView {
        self.props@
    }

    /// An agency to be created from what was asked for, without an id.
    pub fn new(new_agency: NewAgency) -> (entity: Self)
        ensures
            entity.props_view() == (AgencyView {
                id: None,
                name: new_agency.name@,
                plan: new_agency.plan@,
                state: new_agency.state,
                limits: new_agency.limits,
                users: strings_view(new_agency.users@),
            }),
    {
        AgencyEntity {
            props: Agency {
                id: None,
                name: new_agency.name,
                plan: new_agency.plan,
                state: new_agency.state,
                limits: new_agency.limits,
                users: new_agency.users,
            },
        }
    }

    /// The entity of a stored agency.
    pub fn from_props(props: Agency) -> (entity: Self)
        ensures
            entity.props_view() == props@,
    {
        AgencyEntity { props }
    }

    /// The agency as it stands.
    pub fn get_props(&self) -> (props: &Agency)
        ensures
            props@ == self.props_view(),
    {
        &self.props
    }

    /// Renames the agency; an empty name is refused and changes nothing.
    pub fn update_name(&mut self, name: String) -> (res: Result<(), AgencyError>)
        ensures
            name@.len() == 0 ==> (res matches Err(AgencyError::EmptyName)) && final(self).props_view() == old(self).props_view(),
            name@.len() != 0 ==> res is Ok && final(self).props_view() == (AgencyView { name: name@, ..old(self).props_view() }),
    {
        if name.as_str().is_empty() {
            return Err(AgencyError::EmptyName);
        }
        self.props.name = name;
        Ok(())
    }

    pub fn update_state(&mut self, state: AgencyState) -> (res: Result<(), AgencyError>)
        ensures
            res is Ok,
            final(self).props_view() == (AgencyView { state, ..old(self).props_view() }),
    {
        self.props.state = state;
        Ok(())
    }

    pub fn update_plan(&mut self, plan: PlanID) -> (res: Result<(), AgencyError>)
        ensures
            res is Ok,
            final(self).props_view() == (AgencyView { plan: plan@, ..old(self).props_view() }),
    {
        self.props.plan = plan;
        Ok(())
    }

    /// Adds a user unless the agency has it already.
    pub fn add_user(&mut self, user_id: String) -> (res: Result<(), AgencyError>)
        ensures
            res is Ok,
            final(self).props_view() == (AgencyView {
                users: with_user(old(self).props_view().users, user_id@),
                ..old(self).props_view()
            }),
    {
        let ghost users = strings_view(self.props.users@);
        let mut i: usize = 0;
        while i < self.props.users.len()
            invariant
                i <= self.props.users@.len(),
                users == strings_view(self.props.users@),
                forall|j: int| 0 <= j < i ==> users[j] != user_id@,
            decreases self.props.users@.len() - i,
        {
            if self.props.users[i] == user_id {
                proof {
                    assert(users[i as int] == user_id@);
                }
                return Ok(());
            }
            i = i + 1;
        }
        let ghost before = self.props.users@;
        self.props.users.push(user_id);
        proof {
            assert(!users.contains(user_id@));
            assert(strings_view(self.props.users@) =~= users.push(user_id@));
        }
        Ok(())
    }

    /// Removes every occurrence of a user.
    pub fn remove_user(&mut self, user_id: String) -> (res: Result<(), AgencyError>)
        ensures
            res is Ok,
            final(self).props_view() == (AgencyView {
                users: without_user(old(self).props_view().users, user_id@),
                ..old(self).props_view()
            }),
    {
        let ghost orig = strings_view(self.props.users@);
        let mut rest: Vec<String> = Vec::new();
        std::mem::swap(&mut rest, &mut self.props.users);
        let mut kept: Vec<String> = Vec::new();
        let ghost mut n: int = 0;
        proof {
            assert(orig.take(0) =~= Seq::<Seq<char>>::empty());
            assert(orig.skip(0) =~= orig);
        }
        while rest.len() > 0
            invariant
                0 <= n <= orig.len(),
                n + rest@.len() == orig.len(),
                strings_view(rest@) =~= orig.skip(n),
                strings_view(kept@) == without_user(orig.take(n), user_id@),
            decreases rest@.len(),
        {
            let ghost old_rest = rest@;
            let u = rest.remove(0);
            proof {
                assert(strings_view(old_rest)[0] == u@);
                assert forall|j: int| 0 <= j < rest@.len() implies #[trigger] rest@[j] == old_rest[j + 1] by {}
                assert(strings_view(old_rest).skip(1) =~= orig.skip(n + 1));
                assert(strings_view(rest@) =~= orig.skip(n + 1));
                assert(orig.take(n + 1).drop_last() =~= orig.take(n));
                assert(orig.take(n + 1).last() == u@);
            }
            if u != user_id {
                let ghost before = kept@;
                kept.push(u);
                proof {
                    assert(strings_view(kept@) =~= strings_view(before).push(u@));
                }
            }
            proof {
                n = n + 1;
            }
        }
        proof {
            assert(orig.take(n) =~= orig);
        }
        self.props.users = kept;
        Ok(())
    }
}

} // verus!
