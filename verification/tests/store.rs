use uuid::Uuid;
use wedding_rsvp::rsvp::{Person, RsvpError, RsvpPatch, RSVP};
use wedding_rsvp::store::RsvpTable;

fn household() -> Vec<Person> {
    vec![
        Person {
            email_address: "1example@email.com".to_string(),
            name: "person 1".to_string(),
        },
        Person {
            email_address: "2example@email.com".to_string(),
            name: "person 2".to_string(),
        },
    ]
}

#[test]
fn test_household_create_records() {
    let mut table = RsvpTable::new();
    let rsvps = table.batch_create_records(household());
    assert_eq!(rsvps[0].household_id, rsvps[1].household_id);
}

#[test]
fn test_rsvp_batch_create_records() {
    let mut table = RsvpTable::new();
    let rsvps = table.batch_create_records(household());
    assert_eq!(rsvps[0].household_id, rsvps[1].household_id);
}

#[test]
fn test_rsvp_patch() {
    let uuid = Uuid::parse_str("955e9465-d9cc-43cc-96ac-0fe00fc75d0e").unwrap();
    let mut table = RsvpTable::new();
    let payload = RsvpPatch {
        attending: Some(true),
        invitation_submitted: Some(true),
        reminder_submitted: Some(true),
    };

    match table.patch(&uuid.to_string(), &payload) {
        Ok(rsvp) => {
            assert_eq!(rsvp.attending, true);
            assert_eq!(rsvp.invitation_submitted, true);
            assert_eq!(rsvp.reminder_submitted, true);
        }
        Err(err) => {
            println!("The update error is {:?}", err);
        }
    }
}

#[test]
fn test_patch() {
    let uuid = Uuid::parse_str("955e9465-d9cc-43cc-96ac-0fe00fc75d0e").unwrap();
    let mut table = RsvpTable::new();
    let payload = RsvpPatch {
        attending: Some(true),
        invitation_submitted: Some(true),
        reminder_submitted: Some(true),
    };

    match table.patch(&uuid.to_string(), &payload) {
        Ok(rsvp) => {
            assert_eq!(rsvp.attending, true);
            assert_eq!(rsvp.invitation_submitted, true);
            assert_eq!(rsvp.reminder_submitted, true);
        }
        Err(err) => {
            println!("The update error is {:?}", err);
        }
    }
}

#[test]
fn test_rsvp_get() {
    let uuid = Uuid::parse_str("955e9465-d9cc-43cc-96ac-0fe00fc75d0e").unwrap();
    let table = RsvpTable::new();

    match table.get(&uuid.to_string()) {
        Ok(rsvp) => {
            println!("the results are {:?}", rsvp);
        }
        Err(err) => {
            println!("Get test");
            println!("The error is {:?}", err);
        }
    }
}

#[test]
fn test_get() {
    let uuid = Uuid::parse_str("955e9465-d9cc-43cc-96ac-0fe00fc75d0e").unwrap();
    let table = RsvpTable::new();

    match table.get(&uuid.to_string()) {
        Ok(rsvp) => {
            println!("the results are {:?}", rsvp);
        }
        Err(err) => {
            println!("Get test");
            println!("The error is {:?}", err);
        }
    }
}

#[test]
fn test_batch_create_two_persons_scenario() {
    let mut table = RsvpTable::new();
    let rsvps = table.batch_create_records(household());

    assert_eq!(rsvps.len(), 2);
    assert_eq!(rsvps[0].household_id, rsvps[1].household_id);
    assert_ne!(rsvps[0].id, rsvps[1].id);
    for rsvp in &rsvps {
        assert!(!rsvp.attending);
        assert!(!rsvp.invitation_submitted);
        assert!(!rsvp.reminder_submitted);
    }
}

#[test]
fn test_get_unknown_id_not_found() {
    let mut table = RsvpTable::new();
    let _ = table.batch_create_records(household());
    let never_created = Uuid::parse_str("3eb28445-7698-4a00-b071-49da8eaac944").unwrap();

    let result = table.get(&never_created.to_string());
    assert!(matches!(result, Err(RsvpError::NotFound)));
}

#[test]
fn test_get_created_id_returns_person() {
    let mut table = RsvpTable::new();
    let rsvps = table.batch_create_records(household());

    let fetched = table.get(&rsvps[1].id).unwrap();
    assert_eq!(fetched.name, "person 2");
    assert_eq!(fetched.email_address, "2example@email.com");
}

#[test]
fn test_list_unknown_household_is_empty() {
    let mut table = RsvpTable::new();
    let _ = table.batch_create_records(household());

    let other_household = Uuid::new_v4().to_string();
    let listed = table.list_by_household_id(&other_household);
    assert!(listed.is_empty());
}

#[test]
fn test_list_by_household_returns_the_household() {
    let mut table = RsvpTable::new();
    let rsvps = table.batch_create_records(household());
    let _ = table.batch_create_records(vec![Person {
        name: "person 3".to_string(),
        email_address: "3example@email.com".to_string(),
    }]);

    let listed = table.list_by_household_id(&rsvps[0].household_id);
    assert_eq!(listed.len(), 2);
    assert_eq!(listed[0].name, "person 1");
    assert_eq!(listed[1].name, "person 2");
}

#[test]
fn test_patch_attending_then_get() {
    let mut table = RsvpTable::new();
    let rsvps = table.batch_create_records(household());
    let id = rsvps[0].id.clone();

    let patched = table
        .patch(
            &id,
            &RsvpPatch {
                attending: Some(true),
                invitation_submitted: None,
                reminder_submitted: None,
            },
        )
        .unwrap();
    assert!(patched.attending);

    let fetched = table.get(&id).unwrap();
    assert!(fetched.attending);
    assert!(!fetched.invitation_submitted);
    assert!(!fetched.reminder_submitted);
    assert_eq!(fetched.name, "person 1");
}

#[test]
fn test_patch_all_fields_then_get() {
    let mut table = RsvpTable::new();
    let rsvps = table.batch_create_records(household());
    let id = rsvps[1].id.clone();

    let patched = table
        .patch(
            &id,
            &RsvpPatch {
                attending: Some(true),
                invitation_submitted: Some(true),
                reminder_submitted: Some(true),
            },
        )
        .unwrap();
    assert!(patched.attending && patched.invitation_submitted && patched.reminder_submitted);

    let fetched = table.get(&id).unwrap();
    assert!(fetched.attending);
    assert!(fetched.invitation_submitted);
    assert!(fetched.reminder_submitted);
}

#[test]
fn test_patch_unknown_id_leaves_table_unchanged() {
    let mut table = RsvpTable::new();
    let rsvps = table.batch_create_records(household());
    let never_created = Uuid::parse_str("3eb28445-7698-4a00-b071-49da8eaac944").unwrap();

    let result = table.patch(
        &never_created.to_string(),
        &RsvpPatch {
            attending: Some(true),
            invitation_submitted: None,
            reminder_submitted: None,
        },
    );
    assert!(matches!(result, Err(RsvpError::NotFound)));

    let listed = table.list_by_household_id(&rsvps[0].household_id);
    assert_eq!(listed.len(), 2);
    assert!(!listed[0].attending && !listed[1].attending);
}

#[test]
fn test_put_overwrites_same_primary_key() {
    let mut table = RsvpTable::new();
    let first = RSVP::new(
        Person {
            name: "person 1".to_string(),
            email_address: "1example@email.com".to_string(),
        },
        "the-household".to_string(),
    );
    let mut second = RSVP::new(
        Person {
            name: "person 1".to_string(),
            email_address: "other@email.com".to_string(),
        },
        "the-household".to_string(),
    );
    second.attending = true;

    table.put(first);
    table.put(second);

    let listed = table.list_by_household_id(&"the-household".to_string());
    assert_eq!(listed.len(), 1);
    assert_eq!(listed[0].email_address, "other@email.com");
    assert!(listed[0].attending);
}
