//! The domain records: the people a household invites and the RSVP
//! record kept for each of them.

use vstd::prelude::*;

verus! {

/// A member of a household, as the caller hands it in when records are
/// created.
#[derive(Debug)]
pub struct Person {
    pub name: String,
    pub email_address: String,
}

impl Clone for Person {
    fn clone(&self) -> (res: Person)
        ensures
            res == *self,
    {
        Person { name: self.name.clone(), email_address: self.email_address.clone() }
    }
}

/// One person's RSVP record. The identifiers and the person's details
/// are fixed at creation; only the three response flags ever change.
#[derive(Debug)]
pub struct RSVP {
    pub household_id: String,
    pub id: String,
    pub name: String,
    pub email_address: String,
    pub attending: bool,
    pub invitation_submitted: bool,
    pub reminder_submitted: bool,
}

impl Clone for RSVP {
    fn clone(&self) -> (res: RSVP)
        ensures
            res == *self,
    {
        RSVP {
            household_id: self.household_id.clone(),
            id: self.id.clone(),
            name: self.name.clone(),
            email_address: self.email_address.clone(),
            attending: self.attending,
            invitation_submitted: self.invitation_submitted,
            reminder_submitted: self.reminder_submitted,
        }
    }
}

/// Why a repository operation failed.
#[derive(Debug)]
pub enum RsvpError {
    /// No record carries the id a lookup asked for.
    NotFound,
    /// The store reported a failure while running a query.
    Query(String),
    /// The store reported a failure while applying an update.
    Update(String),
    /// The store reported a failure during a batched write.
    BatchWrite(String),
}

/// The fields a patch names, validated against the allow-list of the
/// three boolean response fields. A field left as `None` keeps its
/// stored value.
#[derive(Clone, Copy, Debug)]
pub struct RsvpPatch {
    pub attending: Option<bool>,
    pub invitation_submitted: Option<bool>,
    pub reminder_submitted: Option<bool>,
}

/// The record after a patch: the named booleans replaced, everything
/// else kept.
pub open spec fn patched(r: RSVP, p: RsvpPatch) -> RSVP {
    RSVP {
        household_id: r.household_id,
        id: r.id,
        name: r.name,
        email_address: r.email_address,
        attending: if p.attending is Some {
            p.attending->0
        } else {
            r.attending
        },
        invitation_submitted: if p.invitation_submitted is Some {
            p.invitation_submitted->0
        } else {
            r.invitation_submitted
        },
        reminder_submitted: if p.reminder_submitted is Some {
            p.reminder_submitted->0
        } else {
            r.reminder_submitted
        },
    }
}

/// Relies on `uuid::Uuid::new_v4` and the uuid crate's `Display` impl:
/// a freshly generated version-4 UUID rendered in its hyphenated form,
/// which is 36 characters long. Nothing is assumed about which UUID
/// comes back.
#[verifier::external_body]
fn fresh_uuid() -> (r: String)
    ensures
        r@.len() == 36,
{
    uuid::Uuid::new_v4().to_string()
}

/// What a batch of freshly created records looks like: one record per
/// person in the order given, each carrying that person's name and
/// email address, every record sharing one household id, every id in
/// the store's 36-character form, and all response flags cleared.
pub open spec fn fresh_records(people: Seq<Person>, rsvps: Seq<RSVP>) -> bool {
    &&& rsvps.len() == people.len()
    &&& forall|i: int|
        0 <= i < rsvps.len() ==> {
            &&& (#[trigger] rsvps[i]).name == people[i].name
            &&& rsvps[i].email_address == people[i].email_address
            &&& rsvps[i].household_id == rsvps[0].household_id
            &&& rsvps[i].id@.len() == 36
            &&& !rsvps[i].attending
            &&& !rsvps[i].invitation_submitted
            &&& !rsvps[i].reminder_submitted
        }
}

impl RSVP {
    /// The record for one person: a freshly generated id, the person's
    /// details copied over, and all three response flags cleared.
    pub fn new(person: Person, household_id: String) -> (r: RSVP)
        ensures
            r.household_id == household_id,
            r.name == person.name,
            r.email_address == person.email_address,
            r.id@.len() == 36,
            !r.attending,
            !r.invitation_submitted,
            !r.reminder_submitted,
    {
        RSVP {
            household_id,
            id: fresh_uuid(),
            name: person.name,
            email_address: person.email_address,
            attending: false,
            invitation_submitted: false,
            reminder_submitted: false,
        }
    }

    /// One record per person, all sharing one freshly generated
    /// household id, in the order the people are given.
    pub fn batch_new(people: Vec<Person>) -> (rsvps: Vec<RSVP>)
        ensures
            fresh_records(people@, rsvps@),
    {
        let household_id = fresh_uuid();
        let mut rsvps: Vec<RSVP> = Vec::new();
        let mut i: usize = 0;
        while i < people.len()
            invariant
                i <= people@.len(),
                rsvps@.len() == i,
                forall|k: int|
                    0 <= k < i ==> {
                        &&& (#[trigger] rsvps@[k]).name == people@[k].name
                        &&& rsvps@[k].email_address == people@[k].email_address
                        &&& rsvps@[k].household_id == household_id
                        &&& rsvps@[k].id@.len() == 36
                        &&& !rsvps@[k].attending
                        &&& !rsvps@[k].invitation_submitted
                        &&& !rsvps@[k].reminder_submitted
                    },
            decreases people@.len() - i,
        {
            let person = people[i].clone();
            rsvps.push(RSVP::new(person, household_id.clone()));
            i += 1;
        }
        rsvps
    }
}

} // verus!
