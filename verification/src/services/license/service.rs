use std::collections::HashMap;
use vstd::prelude::*;
use vstd::string::*;
use crate::error::BotError;
use crate::text::str_eq;
use crate::types::license::{stored_user_id, to_stored_user_id, UserLicense};

verus! {

broadcast use vstd::std_specs::hash::group_hash_axioms;

/// The most licenses that one user may own.
pub const MAX_LICENSES_PER_USER: usize = 5;

/// The position of the first license with the given id, or the length of
/// the list when none has it.
pub open spec fn position_of_id(licenses: Seq<UserLicense>, id: i32) -> int
    decreases licenses.len(),
{
    if licenses.len() == 0 {
        0
    } else if licenses[0].id == id {
        0
    } else {
        1 + position_of_id(licenses.drop_first(), id)
    }
}

/// The position of an id is the first position that holds it.
pub proof fn lemma_position_of_id(licenses: Seq<UserLicense>, id: i32)
    ensures
        0 <= position_of_id(licenses, id) <= licenses.len(),
        position_of_id(licenses, id) < licenses.len() ==> licenses[position_of_id(
            licenses,
            id,
        )].id == id,
        forall|k: int| 0 <= k < position_of_id(licenses, id) ==> licenses[k].id != id,
    decreases licenses.len(),
{
    if licenses.len() != 0 && licenses[0].id != id {
        lemma_position_of_id(licenses.drop_first(), id);
        let p = position_of_id(licenses.drop_first(), id);
        assert forall|k: int| 0 <= k < 1 + p implies licenses[k].id != id by {
            if k > 0 {
                assert(licenses.drop_first()[k - 1] == licenses[k]);
            }
        }
        if p < licenses.drop_first().len() {
            assert(licenses.drop_first()[p] == licenses[p + 1]);
        }
    }
}

/// The orders in which licenses are listed.
#[derive(Debug, Clone, Copy, PartialEq, Eq, Structural)]
pub enum LicenseOrder {
    /// By the time of creation, latest first.
    NewestFirst,
    /// By the number of uses, highest first, then by the time of creation,
    /// latest first.
    MostUsedFirst,
}

/// `a` may stand before `b` in a list of the given order.
pub open spec fn may_precede(order: LicenseOrder, a: UserLicense, b: UserLicense) -> bool {
    match order {
        LicenseOrder::NewestFirst => a.created_at >= b.created_at,
        LicenseOrder::MostUsedFirst => a.usage_count > b.usage_count || (a.usage_count
            == b.usage_count && a.created_at >= b.created_at),
    }
}

/// A list is in the given order: every license may stand before all that
/// follow it.
pub open spec fn in_order(order: LicenseOrder, licenses: Seq<UserLicense>) -> bool {
    forall|i: int, j: int|
        0 <= i < j < licenses.len() ==> may_precede(order, #[trigger] licenses[i], #[trigger] licenses[j])
}

fn precedes(order: LicenseOrder, a: &UserLicense, b: &UserLicense) -> (r: bool)
    ensures
        r == may_precede(order, *a, *b),
{
    match order {
        LicenseOrder::NewestFirst => a.created_at >= b.created_at,
        LicenseOrder::MostUsedFirst => a.usage_count > b.usage_count || (a.usage_count
            == b.usage_count && a.created_at >= b.created_at),
    }
}

/// A copy of a list in the given order. Of two licenses that may stand
/// either way round, the one that comes later in the list comes first in
/// the copy.
pub fn sorted_licenses(list: &Vec<UserLicense>, order: LicenseOrder) -> (r: Vec<UserLicense>)
    ensures
        r@.to_multiset() == list@.to_multiset(),
        in_order(order, r@),
{
    let mut out: Vec<UserLicense> = Vec::new();
    let mut i: usize = 0;
    proof {
        assert(out@ =~= list@.subrange(0, 0));
    }
    while i < list.len()
        invariant
            i <= list.len(),
            out@.len() == i,
            out@.to_multiset() == list@.subrange(0, i as int).to_multiset(),
            in_order(order, out@),
        decreases list.len() - i,
    {
        let x = list[i].duplicate();
        let mut p: usize = 0;
        while p < out.len() && !precedes(order, &x, &out[p])
            invariant
                p <= out.len(),
                forall|k: int| 0 <= k < p ==> !may_precede(order, x, #[trigger] out@[k]),
            decreases out.len() - p,
        {
            p += 1;
        }
        let ghost before = out@;
        out.insert(p, x);
        proof {
            let after = out@;
            assert(after =~= before.insert(p as int, x));
            assert forall|a: int, b: int| 0 <= a < b < after.len() implies may_precede(
                order,
                #[trigger] after[a],
                #[trigger] after[b],
            ) by {
                if a < p && b == p {
                    assert(after[a] == before[a]);
                    assert(!may_precede(order, x, before[a]));
                } else if a == p {
                    assert(after[b] == before[b - 1]);
                    if b - 1 > p {
                        assert(may_precede(order, before[p as int], before[b - 1]));
                    }
                } else if a < p && b > p {
                    assert(after[a] == before[a]);
                    assert(after[b] == before[b - 1]);
                } else if a > p {
                    assert(after[a] == before[a - 1]);
                    assert(after[b] == before[b - 1]);
                } else {
                    assert(after[a] == before[a]);
                    assert(after[b] == before[b]);
                }
            }
            assert(after.remove(p as int) =~= before);
            after.to_multiset_ensures();
            before.to_multiset_ensures();
            assert(after.contains(x)) by {
                assert(after[p as int] == x);
            }
            assert(after.to_multiset() =~= before.to_multiset().insert(x));
            let prefix = list@.subrange(0, i as int);
            prefix.to_multiset_ensures();
            assert(list@.subrange(0, i + 1) =~= prefix.push(list@[i as int]));
        }
        i += 1;
    }
    proof {
        assert(list@.subrange(0, list@.len() as int) =~= list@);
    }
    out
}

/// The sum of the usage counters of a list of licenses.
pub open spec fn total_usage(licenses: Seq<UserLicense>) -> int
    decreases licenses.len(),
{
    if licenses.len() == 0 {
        0
    } else {
        total_usage(licenses.drop_last()) + licenses.last().usage_count
    }
}

/// The licenses of all users. Each user owns a list of their own, in the
/// order of creation; ids are handed out in ascending order and never again.
pub struct LicenseService {
    by_owner: HashMap<u64, Vec<UserLicense>>,
    next_id: i32,
}

impl LicenseService {
    /// The licenses that a user owns, in the order of their creation.
    pub closed spec fn owned(self, user_id: u64) -> Seq<UserLicense> {
        if self.by_owner@.contains_key(user_id) {
            self.by_owner@[user_id]@
        } else {
            Seq::empty()
        }
    }

    /// The id that the next license gets.
    pub closed spec fn upcoming_id(self) -> i32 {
        self.next_id
    }

    /// No user owns more than the allowed number of licenses.
    pub open spec fn wf(self) -> bool {
        forall|user_id: u64| #[trigger] self.owned(user_id).len() <= MAX_LICENSES_PER_USER
    }

    /// Two stores that agree on every user's list and on the next id.
    pub open spec fn same_as(self, other: LicenseService) -> bool {
        &&& self.upcoming_id() == other.upcoming_id()
        &&& forall|user_id: u64| #[trigger] self.owned(user_id) == other.owned(user_id)
    }

    /// A store that differs from `before` only in the list of one user.
    pub open spec fn changed_only(self, before: LicenseService, user_id: u64) -> bool {
        forall|other: u64| other != user_id ==> #[trigger] self.owned(other) == before.owned(other)
    }

    /// A store without licenses; the first license gets the id 1.
    pub fn new() -> (r: LicenseService)
        ensures
            r.wf(),
            r.upcoming_id() == 1,
            forall|user_id: u64| #[trigger] r.owned(user_id) == Seq::<UserLicense>::empty(),
    {
        LicenseService { by_owner: HashMap::new(), next_id: 1 }
    }

    fn take_list(&mut self, user_id: u64) -> (list: Vec<UserLicense>)
        ensures
            list@ == old(self).owned(user_id),
            final(self).owned(user_id) == Seq::<UserLicense>::empty(),
            final(self).changed_only(*old(self), user_id),
            final(self).upcoming_id() == old(self).upcoming_id(),
    {
        match self.by_owner.remove(&user_id) {
            Some(list) => list,
            None => Vec::new(),
        }
    }

    fn put_list(&mut self, user_id: u64, list: Vec<UserLicense>)
        ensures
            final(self).owned(user_id) == list@,
            final(self).changed_only(*old(self), user_id),
            final(self).upcoming_id() == old(self).upcoming_id(),
    {
        self.by_owner.insert(user_id, list);
    }

    /// The number of licenses that a user owns.
    pub fn get_user_license_count(&self, user_id: u64) -> (count: u64)
        ensures
            count == self.owned(user_id).len(),
    {
        match self.by_owner.get(&user_id) {
            Some(list) => list.len() as u64,
            None => 0,
        }
    }

    /// Creates a license for a user, unless the user already owns the
    /// allowed number: then nothing changes and the user is told so. The
    /// new license gets the next id, has never been used, and comes last in
    /// the user's list. Once the ids are used up nothing is created either.
    pub fn create(
        &mut self,
        user_id: u64,
        license_name: String,
        allow_redistribution: bool,
        allow_modification: bool,
        restrictions_note: Option<String>,
        allow_backup: bool,
        created_at: i64,
    ) -> (r: Result<UserLicense, BotError>)
        ensures
            old(self).owned(user_id).len() >= MAX_LICENSES_PER_USER ==> {
                &&& r.is_err()
                &&& r.unwrap_err() is GenericError
                &&& r.unwrap_err().message_text() == "您最多只能创建5个协议，请先删除一些协议。"@
                &&& final(self).same_as(*old(self))
            },
            old(self).owned(user_id).len() < MAX_LICENSES_PER_USER && old(self).upcoming_id()
                == i32::MAX ==> {
                &&& r.is_err()
                &&& r.unwrap_err() is DatabaseError
                &&& final(self).same_as(*old(self))
            },
            old(self).owned(user_id).len() < MAX_LICENSES_PER_USER && old(self).upcoming_id()
                < i32::MAX ==> {
                &&& r.is_ok()
                &&& r.unwrap() == (UserLicense {
                    id: old(self).upcoming_id(),
                    user_id: stored_user_id(user_id),
                    license_name,
                    allow_redistribution,
                    allow_modification,
                    restrictions_note,
                    allow_backup,
                    usage_count: 0,
                    created_at,
                })
                &&& final(self).owned(user_id) == old(self).owned(user_id).push(r.unwrap())
                &&& final(self).changed_only(*old(self), user_id)
                &&& final(self).upcoming_id() == old(self).upcoming_id() + 1
            },
            old(self).wf() ==> final(self).wf(),
    {
        let current_count = self.get_user_license_count(user_id);
        if current_count >= MAX_LICENSES_PER_USER as u64 {
            return Err(BotError::generic("您最多只能创建5个协议，请先删除一些协议。"));
        }
        if self.next_id == i32::MAX {
            return Err(
                BotError::DatabaseError { message: String::from_str("license ids are used up") },
            );
        }
        let license = UserLicense {
            id: self.next_id,
            user_id: to_stored_user_id(user_id),
            license_name,
            allow_redistribution,
            allow_modification,
            restrictions_note,
            allow_backup,
            usage_count: 0,
            created_at,
        };
        let mut list = self.take_list(user_id);
        let ghost taken = *self;
        list.push(license.duplicate());
        self.put_list(user_id, list);
        let ghost put = *self;
        self.next_id = self.next_id + 1;
        proof {
            assert forall|other: u64| other != user_id implies #[trigger] self.owned(other) == old(
                self,
            ).owned(other) by {
                assert(put.owned(other) == taken.owned(other));
                assert(taken.owned(other) == old(self).owned(other));
            }
            if old(self).wf() {
                assert forall|u: u64| #[trigger] self.owned(u).len() <= MAX_LICENSES_PER_USER by {
                    assert(old(self).owned(u).len() <= MAX_LICENSES_PER_USER);
                }
            }
        }
        Ok(license)
    }

    /// The owner of a stored license: the user whose id the record holds.
    pub open spec fn owner_of(license: UserLicense) -> u64 {
        license.user_id as u64
    }

    /// The id that the next license gets once a license with the id `id`
    /// is in the store: above that id, and never below what it was.
    pub open spec fn upcoming_after(upcoming: i32, id: i32) -> i32 {
        if id >= upcoming && id < i32::MAX {
            (id + 1) as i32
        } else {
            upcoming
        }
    }

    /// Puts a license back that was stored before, as it is: with its id,
    /// its counter and its time. It comes last in its owner's list, and
    /// ids that are handed out afterwards are above its id. An owner who
    /// already has the allowed number of licenses gets no more.
    pub fn restore(&mut self, license: UserLicense) -> (r: Result<(), BotError>)
        ensures
            r.is_err() == (old(self).owned(Self::owner_of(license)).len()
                >= MAX_LICENSES_PER_USER),
            r.is_err() ==> r.unwrap_err() is GenericError && r.unwrap_err().message_text()
                == "您最多只能创建5个协议，请先删除一些协议。"@ && final(self).same_as(*old(self)),
            r.is_ok() ==> {
                &&& final(self).owned(Self::owner_of(license)) == old(self).owned(
                    Self::owner_of(license),
                ).push(license)
                &&& final(self).changed_only(*old(self), Self::owner_of(license))
                &&& final(self).upcoming_id() == Self::upcoming_after(
                    old(self).upcoming_id(),
                    license.id,
                )
            },
            old(self).wf() ==> final(self).wf(),
    {
        let user_id = license.user_id as u64;
        let current_count = self.get_user_license_count(user_id);
        if current_count >= MAX_LICENSES_PER_USER as u64 {
            return Err(BotError::generic("您最多只能创建5个协议，请先删除一些协议。"));
        }
        let id = license.id;
        let mut list = self.take_list(user_id);
        let ghost taken = *self;
        list.push(license);
        self.put_list(user_id, list);
        let ghost put = *self;
        if id >= self.next_id && id < i32::MAX {
            self.next_id = id + 1;
        }
        proof {
            assert forall|other: u64| other != user_id implies #[trigger] self.owned(other) == old(
                self,
            ).owned(other) by {
                assert(put.owned(other) == taken.owned(other));
                assert(taken.owned(other) == old(self).owned(other));
            }
            if old(self).wf() {
                assert forall|u: u64| #[trigger] self.owned(u).len() <= MAX_LICENSES_PER_USER by {
                    assert(old(self).owned(u).len() <= MAX_LICENSES_PER_USER);
                }
            }
        }
        Ok(())
    }

    /// The licenses of a user, the one created last first.
    pub fn get_user_licenses(&self, user_id: u64) -> (r: Vec<UserLicense>)
        ensures
            r@.to_multiset() == self.owned(user_id).to_multiset(),
            in_order(LicenseOrder::NewestFirst, r@),
    {
        match self.by_owner.get(&user_id) {
            Some(list) => sorted_licenses(list, LicenseOrder::NewestFirst),
            None => Vec::new(),
        }
    }

    /// The licenses of a user, the one used most first; among licenses
    /// that were used equally often, the one created last first.
    pub fn get_user_licenses_by_usage(&self, user_id: u64) -> (r: Vec<UserLicense>)
        ensures
            r@.to_multiset() == self.owned(user_id).to_multiset(),
            in_order(LicenseOrder::MostUsedFirst, r@),
    {
        match self.by_owner.get(&user_id) {
            Some(list) => sorted_licenses(list, LicenseOrder::MostUsedFirst),
            None => Vec::new(),
        }
    }

    /// Replaces what a license grants, if the given user owns it: name,
    /// permissions and restrictions are new; id, owner, counter and time of
    /// creation stay.
    pub fn update(
        &mut self,
        license_id: i32,
        user_id: u64,
        license_name: String,
        allow_redistribution: bool,
        allow_modification: bool,
        restrictions_note: Option<String>,
        allow_backup: bool,
    ) -> (r: Option<UserLicense>)
        ensures
            final(self).changed_only(*old(self), user_id),
            final(self).upcoming_id() == old(self).upcoming_id(),
            ({
                let before = old(self).owned(user_id);
                let p = position_of_id(before, license_id);
                &&& r.is_some() == (p < before.len())
                &&& r.is_none() ==> final(self).owned(user_id) == before
                &&& r.is_some() ==> r.unwrap() == (UserLicense {
                    license_name,
                    allow_redistribution,
                    allow_modification,
                    restrictions_note,
                    allow_backup,
                    ..before[p]
                }) && final(self).owned(user_id) == before.update(p, r.unwrap())
            }),
            old(self).wf() ==> final(self).wf(),
    {
        proof {
            lemma_position_of_id(self.owned(user_id), license_id);
        }
        let mut list = self.take_list(user_id);
        let mut i: usize = 0;
        while i < list.len() && list[i].id != license_id
            invariant
                i <= list.len(),
                list@ == old(self).owned(user_id),
                forall|k: int| 0 <= k < i ==> list@[k].id != license_id,
            decreases list.len() - i,
        {
            i += 1;
        }
        proof {
            lemma_position_of_id(list@, license_id);
            assert(i == position_of_id(list@, license_id));
        }
        let result = if i < list.len() {
            let updated = UserLicense {
                id: list[i].id,
                user_id: list[i].user_id,
                license_name,
                allow_redistribution,
                allow_modification,
                restrictions_note,
                allow_backup,
                usage_count: list[i].usage_count,
                created_at: list[i].created_at,
            };
            list.set(i, updated.duplicate());
            Some(updated)
        } else {
            None
        };
        let ghost taken = *self;
        self.put_list(user_id, list);
        proof {
            assert forall|other: u64| other != user_id implies #[trigger] self.owned(other) == old(
                self,
            ).owned(other) by {
                assert(self.owned(other) == taken.owned(other));
                assert(taken.owned(other) == old(self).owned(other));
            }
            if old(self).wf() {
                assert forall|u: u64| #[trigger] self.owned(u).len() <= MAX_LICENSES_PER_USER by {
                    assert(old(self).owned(u).len() <= MAX_LICENSES_PER_USER);
                }
            }
        }
        result
    }

    /// The license with the given id, if the given user owns it. A license
    /// of another user is not found.
    pub fn get_license(&self, license_id: i32, user_id: u64) -> (r: Option<UserLicense>)
        ensures
            r.is_some() == (position_of_id(self.owned(user_id), license_id) < self.owned(
                user_id,
            ).len()),
            r.is_some() ==> r.unwrap() == self.owned(user_id)[position_of_id(
                self.owned(user_id),
                license_id,
            )],
    {
        proof {
            lemma_position_of_id(self.owned(user_id), license_id);
        }
        match self.by_owner.get(&user_id) {
            Some(list) => {
                let mut i: usize = 0;
                while i < list.len()
                    invariant
                        i <= list.len(),
                        list@ == self.owned(user_id),
                        forall|k: int| 0 <= k < i ==> list@[k].id != license_id,
                    decreases list.len() - i,
                {
                    if list[i].id == license_id {
                        proof {
                            lemma_position_of_id(list@, license_id);
                        }
                        return Some(list[i].duplicate());
                    }
                    i += 1;
                }
                proof {
                    lemma_position_of_id(list@, license_id);
                }
                None
            },
            None => None,
        }
    }

    /// Counts one more use of a license of the given user. A license that
    /// the user does not own is passed over without an error; a counter
    /// that is full is an error and stays as it is.
    pub fn increment_usage(&mut self, license_id: i32, user_id: u64) -> (r: Result<(), BotError>)
        ensures
            final(self).changed_only(*old(self), user_id),
            final(self).upcoming_id() == old(self).upcoming_id(),
            final(self).owned(user_id).len() == old(self).owned(user_id).len(),
            ({
                let before = old(self).owned(user_id);
                let p = position_of_id(before, license_id);
                if p >= before.len() {
                    r.is_ok() && final(self).owned(user_id) == before
                } else if before[p].usage_count == i32::MAX {
                    r.is_err() && r.unwrap_err() is DatabaseError && final(self).owned(user_id)
                        == before
                } else {
                    r.is_ok() && final(self).owned(user_id) == before.update(
                        p,
                        UserLicense { usage_count: (before[p].usage_count + 1) as i32, ..before[p] },
                    )
                }
            }),
            old(self).wf() ==> final(self).wf(),
    {
        proof {
            lemma_position_of_id(self.owned(user_id), license_id);
        }
        let mut list = self.take_list(user_id);
        let mut i: usize = 0;
        let mut result: Result<(), BotError> = Ok(());
        while i < list.len() && list[i].id != license_id
            invariant
                i <= list.len(),
                list@ == old(self).owned(user_id),
                forall|k: int| 0 <= k < i ==> list@[k].id != license_id,
            decreases list.len() - i,
        {
            i += 1;
        }
        proof {
            lemma_position_of_id(list@, license_id);
            assert(i == position_of_id(list@, license_id));
        }
        if i < list.len() {
            if list[i].usage_count == i32::MAX {
                result = Err(
                    BotError::DatabaseError { message: String::from_str("usage counter is full") },
                );
            } else {
                let mut updated = list[i].duplicate();
                updated.usage_count = updated.usage_count + 1;
                list.set(i, updated);
            }
        }
        let ghost taken = *self;
        self.put_list(user_id, list);
        proof {
            assert forall|other: u64| other != user_id implies #[trigger] self.owned(other) == old(
                self,
            ).owned(other) by {
                assert(self.owned(other) == taken.owned(other));
                assert(taken.owned(other) == old(self).owned(other));
            }
            if old(self).wf() {
                assert forall|u: u64| #[trigger] self.owned(u).len() <= MAX_LICENSES_PER_USER by {
                    assert(old(self).owned(u).len() <= MAX_LICENSES_PER_USER);
                }
            }
        }
        result
    }

    /// Deletes the license with the given id from the list of the given
    /// user and says whether there was one.
    pub fn delete(&mut self, license_id: i32, user_id: u64) -> (removed: bool)
        ensures
            final(self).changed_only(*old(self), user_id),
            final(self).upcoming_id() == old(self).upcoming_id(),
            ({
                let before = old(self).owned(user_id);
                let p = position_of_id(before, license_id);
                &&& removed == (p < before.len())
                &&& removed ==> final(self).owned(user_id) == before.remove(p)
                &&& !removed ==> final(self).owned(user_id) == before
            }),
            old(self).wf() ==> final(self).wf(),
    {
        proof {
            lemma_position_of_id(self.owned(user_id), license_id);
        }
        let mut list = self.take_list(user_id);
        let mut i: usize = 0;
        while i < list.len() && list[i].id != license_id
            invariant
                i <= list.len(),
                list@ == old(self).owned(user_id),
                forall|k: int| 0 <= k < i ==> list@[k].id != license_id,
            decreases list.len() - i,
        {
            i += 1;
        }
        proof {
            lemma_position_of_id(list@, license_id);
            assert(i == position_of_id(list@, license_id));
        }
        let removed = i < list.len();
        if removed {
            list.remove(i);
        }
        let ghost taken = *self;
        self.put_list(user_id, list);
        proof {
            assert forall|other: u64| other != user_id implies #[trigger] self.owned(other) == old(
                self,
            ).owned(other) by {
                assert(self.owned(other) == taken.owned(other));
                assert(taken.owned(other) == old(self).owned(other));
            }
            if old(self).wf() {
                assert forall|u: u64| #[trigger] self.owned(u).len() <= MAX_LICENSES_PER_USER by {
                    assert(old(self).owned(u).len() <= MAX_LICENSES_PER_USER);
                }
            }
        }
        removed
    }

    /// Whether the user owns a license with the given name, leaving aside
    /// the license with the id `exclude_id` if one is given.
    pub fn license_name_exists(&self, user_id: u64, license_name: &str, exclude_id: Option<i32>) -> (r:
        bool)
        ensures
            r == exists|k: int|
                0 <= k < self.owned(user_id).len() && name_taken_at(
                    self.owned(user_id),
                    k,
                    license_name@,
                    exclude_id,
                ),
    {
        match self.by_owner.get(&user_id) {
            Some(list) => {
                let mut i: usize = 0;
                while i < list.len()
                    invariant
                        i <= list.len(),
                        list@ == self.owned(user_id),
                        forall|k: int|
                            0 <= k < i ==> !name_taken_at(list@, k, license_name@, exclude_id),
                    decreases list.len() - i,
                {
                    let excluded = match exclude_id {
                        Some(id) => list[i].id == id,
                        None => false,
                    };
                    if !excluded && str_eq(list[i].license_name.as_str(), license_name) {
                        assert(name_taken_at(list@, i as int, license_name@, exclude_id));
                        return true;
                    }
                    i += 1;
                }
                false
            },
            None => false,
        }
    }

    /// How often the licenses of a user were used, all together.
    pub fn get_user_total_usage(&self, user_id: u64) -> (total: i64)
        requires
            self.wf(),
        ensures
            total == total_usage(self.owned(user_id)),
    {
        let mut total: i64 = 0;
        match self.by_owner.get(&user_id) {
            Some(list) => {
                assert(self.owned(user_id).len() <= MAX_LICENSES_PER_USER);
                let mut i: usize = 0;
                while i < list.len()
                    invariant
                        i <= list.len(),
                        list@.len() <= MAX_LICENSES_PER_USER,
                        total == total_usage(list@.subrange(0, i as int)),
                        -(i as int) * 0x8000_0000 <= total <= (i as int) * 0x8000_0000,
                    decreases list.len() - i,
                {
                    assert(list@.subrange(0, i + 1).drop_last() =~= list@.subrange(0, i as int));
                    total = total + list[i].usage_count as i64;
                    i += 1;
                }
                assert(list@.subrange(0, list@.len() as int) =~= list@);
            },
            None => {},
        }
        total
    }

    /// Deletes every license of a user and says how many there were.
    pub fn clear_user_licenses(&mut self, user_id: u64) -> (removed: u64)
        ensures
            removed == old(self).owned(user_id).len(),
            final(self).owned(user_id) == Seq::<UserLicense>::empty(),
            final(self).changed_only(*old(self), user_id),
            final(self).upcoming_id() == old(self).upcoming_id(),
            old(self).wf() ==> final(self).wf(),
    {
        let list = self.take_list(user_id);
        proof {
            if old(self).wf() {
                assert forall|u: u64| #[trigger] self.owned(u).len() <= MAX_LICENSES_PER_USER by {
                    assert(old(self).owned(u).len() <= MAX_LICENSES_PER_USER);
                }
            }
        }
        list.len() as u64
    }
}

/// The license at position `k` bears the name and is not the excluded one.
pub open spec fn name_taken_at(
    licenses: Seq<UserLicense>,
    k: int,
    name: Seq<char>,
    exclude_id: Option<i32>,
) -> bool {
    licenses[k].license_name@ == name && (exclude_id.is_none() || licenses[k].id
        != exclude_id.unwrap())
}

} // verus!
