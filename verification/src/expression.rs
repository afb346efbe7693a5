//! Compiling a patch into the store's update expression.
//!
//! The store takes its writes as an expression of the form
//! `SET field = :field, ...` with one clause per field being written.
//! Building that text from the allow-listed patch fields here keeps
//! the caller from concatenating expression strings by hand.

use vstd::prelude::*;

use crate::rsvp::RsvpPatch;

verus! {

/// The `SET` clauses a patch asks for, one per named field, in the
/// record's fixed field order.
pub open spec fn patch_clauses(p: RsvpPatch) -> Seq<Seq<char>> {
    let cs = Seq::<Seq<char>>::empty();
    let cs = if p.attending is Some {
        cs.push("attending = :attending"@)
    } else {
        cs
    };
    let cs = if p.invitation_submitted is Some {
        cs.push("invitation_submitted = :invitation_submitted"@)
    } else {
        cs
    };
    let cs = if p.reminder_submitted is Some {
        cs.push("reminder_submitted = :reminder_submitted"@)
    } else {
        cs
    };
    cs
}

/// The given parts joined with `", "` between each pair.
pub open spec fn comma_joined(parts: Seq<Seq<char>>) -> Seq<char>
    decreases parts.len(),
{
    if parts.len() == 0 {
        Seq::empty()
    } else if parts.len() == 1 {
        parts[0]
    } else {
        comma_joined(parts.drop_last()) + ", "@ + parts.last()
    }
}

/// The update expression a patch compiles to: `SET ` followed by one
/// `field = :field` clause per named field, comma-separated.
pub open spec fn update_expression_spec(p: RsvpPatch) -> Seq<char> {
    "SET "@ + comma_joined(patch_clauses(p))
}

/// The executable builder for the update expression of a patch.
pub fn update_expression(p: &RsvpPatch) -> (r: String)
    ensures
        r@ == update_expression_spec(*p),
{
    let mut r = String::from_str("SET ");
    let mut first: bool = true;
    if p.attending.is_some() {
        r.append("attending = :attending");
        first = false;
    }
    if p.invitation_submitted.is_some() {
        if !first {
            r.append(", ");
        }
        r.append("invitation_submitted = :invitation_submitted");
        first = false;
    }
    if p.reminder_submitted.is_some() {
        if !first {
            r.append(", ");
        }
        r.append("reminder_submitted = :reminder_submitted");
    }
    proof {
        reveal_with_fuel(comma_joined, 4);
        assert(r@ =~= update_expression_spec(*p));
    }
    r
}

} // verus!
