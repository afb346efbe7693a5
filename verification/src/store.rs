//! The repository's model of the backing table: the sequence of records
//! the store holds, the four operations the repository offers over it,
//! and the laws that relate them.
//!
//! The table's primary key is the pair (household id, name); the unique
//! record id is reachable only through a secondary index, which a lookup
//! walks front to back.

use vstd::prelude::*;

use crate::rsvp::{fresh_records, patched, Person, RsvpError, RsvpPatch, RSVP};

verus! {

/// First index whose record carries `id`, or -1 when none does.
pub open spec fn find_by_id(s: Seq<RSVP>, id: Seq<char>) -> int
    decreases s.len(),
{
    if s.len() == 0 {
        -1
    } else if s[0].id@ == id {
        0
    } else {
        let rest = find_by_id(s.drop_first(), id);
        if rest < 0 {
            -1
        } else {
            rest + 1
        }
    }
}

/// `find_by_id` resolves to -1 exactly when no record carries the id,
/// and otherwise to the first index that does.
pub proof fn lemma_find_by_id_props(s: Seq<RSVP>, id: Seq<char>)
    ensures
        -1 <= find_by_id(s, id) < s.len(),
        find_by_id(s, id) >= 0 ==> s[find_by_id(s, id)].id@ == id,
        find_by_id(s, id) >= 0 ==> forall|k: int|
            0 <= k < find_by_id(s, id) ==> (#[trigger] s[k]).id@ != id,
        find_by_id(s, id) == -1 ==> forall|k: int|
            0 <= k < s.len() ==> (#[trigger] s[k]).id@ != id,
    decreases s.len(),
{
    if s.len() == 0 {
    } else if s[0].id@ == id {
    } else {
        lemma_find_by_id_props(s.drop_first(), id);
        assert forall|k: int|
            0 <= k < find_by_id(s, id) implies (#[trigger] s[k]).id@ != id by {
            if k > 0 {
                assert(s.drop_first()[k - 1] == s[k]);
            }
        }
        if find_by_id(s, id) == -1 {
            assert forall|k: int| 0 <= k < s.len() implies (#[trigger] s[k]).id@ != id by {
                if k > 0 {
                    assert(s.drop_first()[k - 1] == s[k]);
                }
            }
        }
    }
}

/// The first match decides `find_by_id`: a record carrying the id at
/// `j`, with none before it, puts the lookup at `j`.
pub proof fn lemma_find_by_id_at(s: Seq<RSVP>, id: Seq<char>, j: int)
    requires
        0 <= j < s.len(),
        s[j].id@ == id,
        forall|k: int| 0 <= k < j ==> (#[trigger] s[k]).id@ != id,
    ensures
        find_by_id(s, id) == j,
{
    lemma_find_by_id_props(s, id);
    let i = find_by_id(s, id);
    if i < j {
        assert(s[i].id@ == id);
    } else if i > j {
        assert(s[j].id@ != id);
    }
}

/// First index whose record carries the (household id, name) primary
/// key, or -1 when none does.
pub open spec fn find_by_key(s: Seq<RSVP>, household_id: Seq<char>, name: Seq<char>) -> int
    decreases s.len(),
{
    if s.len() == 0 {
        -1
    } else if s[0].household_id@ == household_id && s[0].name@ == name {
        0
    } else {
        let rest = find_by_key(s.drop_first(), household_id, name);
        if rest < 0 {
            -1
        } else {
            rest + 1
        }
    }
}

/// `find_by_key` resolves to -1 exactly when no record carries the
/// key, and otherwise to the first index that does.
pub proof fn lemma_find_by_key_props(s: Seq<RSVP>, household_id: Seq<char>, name: Seq<char>)
    ensures
        -1 <= find_by_key(s, household_id, name) < s.len(),
        find_by_key(s, household_id, name) >= 0 ==> s[find_by_key(s, household_id, name)].household_id@
            == household_id && s[find_by_key(s, household_id, name)].name@ == name,
        find_by_key(s, household_id, name) >= 0 ==> forall|k: int|
            0 <= k < find_by_key(s, household_id, name) ==> !((#[trigger] s[k]).household_id@
                == household_id && s[k].name@ == name),
        find_by_key(s, household_id, name) == -1 ==> forall|k: int|
            0 <= k < s.len() ==> !((#[trigger] s[k]).household_id@ == household_id && s[k].name@
                == name),
    decreases s.len(),
{
    if s.len() == 0 {
    } else if s[0].household_id@ == household_id && s[0].name@ == name {
    } else {
        lemma_find_by_key_props(s.drop_first(), household_id, name);
        assert forall|k: int|
            0 < k < s.len() implies s.drop_first()[k - 1] == s[k] by {}
    }
}

/// The first match decides `find_by_key`: a record carrying the key at
/// `j`, with none before it, puts the lookup at `j`.
pub proof fn lemma_find_by_key_at(s: Seq<RSVP>, household_id: Seq<char>, name: Seq<char>, j: int)
    requires
        0 <= j < s.len(),
        s[j].household_id@ == household_id && s[j].name@ == name,
        forall|k: int|
            0 <= k < j ==> !((#[trigger] s[k]).household_id@ == household_id && s[k].name@ == name),
    ensures
        find_by_key(s, household_id, name) == j,
{
    lemma_find_by_key_props(s, household_id, name);
    let i = find_by_key(s, household_id, name);
    if i < j {
        assert(s[i].household_id@ == household_id && s[i].name@ == name);
    } else if i > j {
        assert(!(s[j].household_id@ == household_id && s[j].name@ == name));
    }
}

/// A single write: the record overwrites the one sharing its primary
/// key, or lands at the back when its key is new.
pub open spec fn put_record(s: Seq<RSVP>, r: RSVP) -> Seq<RSVP> {
    let i = find_by_key(s, r.household_id@, r.name@);
    if i >= 0 {
        s.update(i, r)
    } else {
        s.push(r)
    }
}

/// A batched write: the records written one after the other, in order.
pub open spec fn put_records(s: Seq<RSVP>, rs: Seq<RSVP>) -> Seq<RSVP>
    decreases rs.len(),
{
    if rs.len() == 0 {
        s
    } else {
        put_record(put_records(s, rs.drop_last()), rs.last())
    }
}

/// The records of one household, in table order.
pub open spec fn household_records(s: Seq<RSVP>, household_id: Seq<char>) -> Seq<RSVP>
    decreases s.len(),
{
    if s.len() == 0 {
        Seq::empty()
    } else {
        let rest = household_records(s.drop_last(), household_id);
        if s.last().household_id@ == household_id {
            rest.push(s.last())
        } else {
            rest
        }
    }
}

/// A lookup of an id that was never created: no record carries it, so
/// the lookup resolves to nothing and `get` reports `NotFound`.
pub proof fn lemma_get_unknown_id(s: Seq<RSVP>, id: Seq<char>)
    requires
        forall|k: int| 0 <= k < s.len() ==> (#[trigger] s[k]).id@ != id,
    ensures
        find_by_id(s, id) == -1,
{
    lemma_find_by_id_props(s, id);
    if find_by_id(s, id) >= 0 {
        assert(s[find_by_id(s, id)].id@ == id);
    }
}

/// A lookup of an id that was created: when exactly one record carries
/// the id, the lookup resolves to that record, so `get` returns the
/// name and email address the record was created with.
pub proof fn lemma_get_created_id(s: Seq<RSVP>, j: int)
    requires
        0 <= j < s.len(),
        forall|k: int| 0 <= k < s.len() && k != j ==> (#[trigger] s[k]).id@ != s[j].id@,
    ensures
        find_by_id(s, s[j].id@) == j,
{
    lemma_find_by_id_at(s, s[j].id@, j);
}

/// Listing a household that has no records yields the empty sequence,
/// not an error.
pub proof fn lemma_list_unknown_household(s: Seq<RSVP>, household_id: Seq<char>)
    requires
        forall|k: int| 0 <= k < s.len() ==> (#[trigger] s[k]).household_id@ != household_id,
    ensures
        household_records(s, household_id) == Seq::<RSVP>::empty(),
    decreases s.len(),
{
    if s.len() == 0 {
    } else {
        assert forall|k: int|
            0 <= k < s.drop_last().len() implies (#[trigger] s.drop_last()[k]).household_id@
            != household_id by {
            assert(s.drop_last()[k] == s[k]);
        }
        lemma_list_unknown_household(s.drop_last(), household_id);
        assert(s.last().household_id@ != household_id);
    }
}

/// The round trip behind a patch: patching the record `id` resolves to
/// and then fetching `id` again yields exactly the patched record, so
/// fields the patch names carry the patched values and all other
/// fields keep the values they had.
pub proof fn lemma_patch_then_get(s: Seq<RSVP>, id: Seq<char>, p: RsvpPatch)
    requires
        find_by_id(s, id) >= 0,
    ensures
        ({
            let i = find_by_id(s, id);
            let u = patched(s[i], p);
            let t = s.update(i, u);
            &&& find_by_id(t, id) == i
            &&& t[i] == u
        }),
{
    lemma_find_by_id_props(s, id);
    let i = find_by_id(s, id);
    let u = patched(s[i], p);
    let t = s.update(i, u);
    assert(t[i].id@ == id);
    assert forall|k: int| 0 <= k < i implies (#[trigger] t[k]).id@ != id by {
        assert(t[k] == s[k]);
    }
    lemma_find_by_id_at(t, id, i);
}

/// Patching `attending` alone to true and fetching the id again yields
/// a record with `attending` true and the other two flags unchanged
/// from their prior values.
pub proof fn lemma_patch_attending_then_get(s: Seq<RSVP>, id: Seq<char>)
    requires
        find_by_id(s, id) >= 0,
    ensures
        ({
            let p = RsvpPatch {
                attending: Some(true),
                invitation_submitted: None,
                reminder_submitted: None,
            };
            let i = find_by_id(s, id);
            let t = s.update(i, patched(s[i], p));
            &&& find_by_id(t, id) == i
            &&& t[i].attending == true
            &&& t[i].invitation_submitted == s[i].invitation_submitted
            &&& t[i].reminder_submitted == s[i].reminder_submitted
        }),
{
    lemma_patch_then_get(
        s,
        id,
        RsvpPatch { attending: Some(true), invitation_submitted: None, reminder_submitted: None },
    );
}

/// Patching all three flags to true and fetching the id again yields a
/// record with all three flags true.
pub proof fn lemma_patch_all_then_get(s: Seq<RSVP>, id: Seq<char>)
    requires
        find_by_id(s, id) >= 0,
    ensures
        ({
            let p = RsvpPatch {
                attending: Some(true),
                invitation_submitted: Some(true),
                reminder_submitted: Some(true),
            };
            let i = find_by_id(s, id);
            let t = s.update(i, patched(s[i], p));
            &&& find_by_id(t, id) == i
            &&& t[i].attending && t[i].invitation_submitted && t[i].reminder_submitted
        }),
{
    lemma_patch_then_get(
        s,
        id,
        RsvpPatch {
            attending: Some(true),
            invitation_submitted: Some(true),
            reminder_submitted: Some(true),
        },
    );
}

/// The decision `get` takes on what a query of the id index returned:
/// the first record silently, or `NotFound` when the query matched
/// nothing.
pub fn first_match(results: Vec<RSVP>) -> (r: Result<RSVP, RsvpError>)
    ensures
        results@.len() == 0 ==> (r matches Err(e) && e is NotFound),
        results@.len() > 0 ==> (r matches Ok(rec) && rec == results@[0]),
{
    if results.len() == 0 {
        Err(RsvpError::NotFound)
    } else {
        Ok(results[0].clone())
    }
}

/// The store's own guarantee over a table's records: no two share the
/// (household id, name) primary key.
pub open spec fn keys_distinct(s: Seq<RSVP>) -> bool {
    forall|i: int, j: int|
        0 <= i < j < s.len() ==> !((#[trigger] s[i]).household_id@ == (#[trigger] s[j]).household_id@
            && s[i].name@ == s[j].name@)
}

/// The repository's model of the backing table.
pub struct RsvpTable {
    pub records: Vec<RSVP>,
}

impl RsvpTable {
    /// No two records of the table share the primary key.
    pub open spec fn wf(&self) -> bool {
        keys_distinct(self.records@)
    }

    /// A table with no records yet.
    pub fn new() -> (t: RsvpTable)
        ensures
            t.records@.len() == 0,
            t.wf(),
    {
        RsvpTable { records: Vec::new() }
    }

    /// Point lookup through the id index: the first record carrying
    /// `id`, or `NotFound` when no record does.
    pub fn get(&self, id: &String) -> (r: Result<RSVP, RsvpError>)
        ensures
            find_by_id(self.records@, id@) >= 0 ==> (r matches Ok(rec) && rec == self.records@[
                find_by_id(self.records@, id@)
            ]),
            find_by_id(self.records@, id@) == -1 ==> (r matches Err(e) && e is NotFound),
    {
        let n = self.records.len();
        let mut i: usize = 0;
        while i < n
            invariant
                n == self.records@.len(),
                i <= n,
                forall|k: int| 0 <= k < i ==> (#[trigger] self.records@[k]).id@ != id@,
            decreases n - i,
        {
            if self.records[i].id == *id {
                proof {
                    lemma_find_by_id_at(self.records@, id@, i as int);
                }
                return Ok(self.records[i].clone());
            }
            i += 1;
        }
        proof {
            lemma_find_by_id_props(self.records@, id@);
        }
        Err(RsvpError::NotFound)
    }

    /// Every record of the household, in table order. A household with
    /// no records yields the empty list, not an error.
    pub fn list_by_household_id(&self, household_id: &String) -> (rsvps: Vec<RSVP>)
        ensures
            rsvps@ == household_records(self.records@, household_id@),
    {
        let n = self.records.len();
        let mut rsvps: Vec<RSVP> = Vec::new();
        let mut i: usize = 0;
        while i < n
            invariant
                n == self.records@.len(),
                i <= n,
                rsvps@ == household_records(self.records@.subrange(0, i as int), household_id@),
            decreases n - i,
        {
            proof {
                assert(self.records@.subrange(0, i + 1).drop_last() =~= self.records@.subrange(
                    0,
                    i as int,
                ));
                assert(self.records@.subrange(0, i + 1).last() == self.records@[i as int]);
            }
            if self.records[i].household_id == *household_id {
                rsvps.push(self.records[i].clone());
            }
            i += 1;
        }
        proof {
            assert(self.records@.subrange(0, n as int) =~= self.records@);
        }
        rsvps
    }

    /// One record written as the store's put does it: the record
    /// sharing its primary key is overwritten, a new key is appended.
    pub fn put(&mut self, rsvp: RSVP)
        requires
            old(self).wf(),
        ensures
            final(self).wf(),
            final(self).records@ == put_record(old(self).records@, rsvp),
    {
        let ghost s = old(self).records@;
        let n = self.records.len();
        let mut i: usize = 0;
        while i < n
            invariant
                s == old(self).records@,
                self.records@ == s,
                keys_distinct(s),
                n == s.len(),
                i <= n,
                forall|k: int|
                    0 <= k < i ==> !((#[trigger] s[k]).household_id@ == rsvp.household_id@
                        && s[k].name@ == rsvp.name@),
            decreases n - i,
        {
            if self.records[i].household_id == rsvp.household_id && self.records[i].name
                == rsvp.name {
                proof {
                    lemma_find_by_key_at(s, rsvp.household_id@, rsvp.name@, i as int);
                }
                let ghost replaced_with = rsvp;
                self.records[i] = rsvp;
                proof {
                    assert(keys_distinct(s));
                    let t = self.records@;
                    assert(t == s.update(i as int, replaced_with));
                    assert forall|a: int, b: int|
                        0 <= a < b < t.len() implies !((#[trigger] t[a]).household_id@
                        == (#[trigger] t[b]).household_id@ && t[a].name@ == t[b].name@) by {
                        assert(t[a].household_id@ == s[a].household_id@ && t[a].name@
                            == s[a].name@);
                        assert(t[b].household_id@ == s[b].household_id@ && t[b].name@
                            == s[b].name@);
                        assert(!(s[a].household_id@ == s[b].household_id@ && s[a].name@
                            == s[b].name@));
                    }
                }
                return;
            }
            i += 1;
        }
        proof {
            lemma_find_by_key_props(s, rsvp.household_id@, rsvp.name@);
        }
        self.records.push(rsvp);
        proof {
            assert(keys_distinct(s));
            let t = self.records@;
            assert forall|a: int, b: int|
                0 <= a < b < t.len() implies !((#[trigger] t[a]).household_id@
                == (#[trigger] t[b]).household_id@ && t[a].name@ == t[b].name@) by {
                if b < t.len() - 1 {
                    assert(!(s[a].household_id@ == s[b].household_id@ && s[a].name@
                        == s[b].name@));
                } else {
                    assert(!(s[a].household_id@ == t[b].household_id@ && s[a].name@
                        == t[b].name@));
                }
            }
        }
    }

    /// The store's read-modify-write: resolve `id` through the index
    /// to recover the record's primary key, write the booleans the
    /// patch names, and return the refreshed record. An id no record
    /// carries fails with `NotFound` and leaves the table unchanged.
    pub fn patch(&mut self, id: &String, fields: &RsvpPatch) -> (r: Result<RSVP, RsvpError>)
        requires
            old(self).wf(),
        ensures
            final(self).wf(),
            find_by_id(old(self).records@, id@) == -1 ==> (r matches Err(e) && e is NotFound)
                && final(self).records@ == old(self).records@,
            find_by_id(old(self).records@, id@) >= 0 ==> ({
                let i = find_by_id(old(self).records@, id@);
                let u = patched(old(self).records@[i], *fields);
                &&& final(self).records@ == old(self).records@.update(i, u)
                &&& r matches Ok(rec) && rec == u
            }),
    {
        let ghost s = old(self).records@;
        let n = self.records.len();
        let mut i: usize = 0;
        while i < n
            invariant
                s == old(self).records@,
                self.records@ == s,
                keys_distinct(s),
                n == s.len(),
                i <= n,
                forall|k: int| 0 <= k < i ==> (#[trigger] s[k]).id@ != id@,
            decreases n - i,
        {
            if self.records[i].id == *id {
                proof {
                    lemma_find_by_id_at(s, id@, i as int);
                }
                let mut u = self.records[i].clone();
                if let Some(b) = fields.attending {
                    u.attending = b;
                }
                if let Some(b) = fields.invitation_submitted {
                    u.invitation_submitted = b;
                }
                if let Some(b) = fields.reminder_submitted {
                    u.reminder_submitted = b;
                }
                assert(u == patched(s[i as int], *fields));
                self.records[i] = u.clone();
                proof {
                    let t = self.records@;
                    assert forall|a: int, b: int|
                        0 <= a < b < t.len() implies !((#[trigger] t[a]).household_id@
                        == (#[trigger] t[b]).household_id@ && t[a].name@ == t[b].name@) by {
                        assert(t[a].household_id@ == s[a].household_id@ && t[a].name@
                            == s[a].name@);
                        assert(t[b].household_id@ == s[b].household_id@ && t[b].name@
                            == s[b].name@);
                        assert(!(s[a].household_id@ == s[b].household_id@ && s[a].name@
                            == s[b].name@));
                    }
                }
                return Ok(u);
            }
            i += 1;
        }
        proof {
            lemma_find_by_id_props(s, id@);
        }
        Err(RsvpError::NotFound)
    }

    /// The household's records built with `RSVP::batch_new` and each
    /// written to the table; the constructed records come back in
    /// order.
    pub fn batch_create_records(&mut self, people: Vec<Person>) -> (rsvps: Vec<RSVP>)
        requires
            old(self).wf(),
        ensures
            final(self).wf(),
            fresh_records(people@, rsvps@),
            final(self).records@ == put_records(old(self).records@, rsvps@),
    {
        let rsvps = RSVP::batch_new(people);
        let mut i: usize = 0;
        while i < rsvps.len()
            invariant
                self.wf(),
                i <= rsvps@.len(),
                fresh_records(people@, rsvps@),
                self.records@ == put_records(old(self).records@, rsvps@.subrange(0, i as int)),
            decreases rsvps@.len() - i,
        {
            proof {
                assert(rsvps@.subrange(0, i + 1).drop_last() =~= rsvps@.subrange(0, i as int));
                assert(rsvps@.subrange(0, i + 1).last() == rsvps@[i as int]);
            }
            self.put(rsvps[i].clone());
            i += 1;
        }
        proof {
            assert(rsvps@.subrange(0, rsvps@.len() as int) =~= rsvps@);
        }
        rsvps
    }
}

} // verus!
