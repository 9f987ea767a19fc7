use alyrasign::errors::AccessRequestError;
use alyrasign::gated::{initialize_token_mint, mint_role_token, InitializeTokenMint, MintRoleToken};
use alyrasign::identity::Identity;
use alyrasign::keys::{derive_keyed, derive_paired, derive_singleton, DerivedKey, Namespace};
use alyrasign::ledger::Ledger;
use alyrasign::records::{Account, Attendance, Formation, Session};
use alyrasign::registry::{
    create_session, create_session_at, initialize_attendance_storage,
    initialize_formation_storage, initialize_session_storage, record_attendance,
    record_attendance_at, update_attendance, upsert_formation, upsert_formation_at,
    CreateSession, InitializeAttendanceStorage, InitializeFormationStorage,
    InitializeSessionStorage, RecordAttendance, UpdateAttendance, UpsertFormation,
};

fn id(n: u8) -> Identity {
    Identity::new([n; 32])
}

const ROOT: u8 = 1;
const ADMIN: u8 = 2;
const TRAINER: u8 = 3;
const STUDENT: u8 = 4;
const STRANGER: u8 = 5;

fn grant(ledger: &mut Ledger, owner: u8, role: &str) {
    mint_role_token(ledger, &MintRoleToken { admin: id(ROOT), owner: id(owner) }, role.to_string(), 1, 10).unwrap();
}

/// A ledger with every counter set up, an admin and a trainer.
fn ledger() -> Ledger {
    let mut ledger = Ledger::new(id(7));
    initialize_token_mint(&mut ledger, &InitializeTokenMint { admin: id(ROOT), mint: id(9) }).unwrap();
    grant(&mut ledger, ADMIN, "admin");
    grant(&mut ledger, TRAINER, "trainer");
    initialize_formation_storage(&mut ledger, &InitializeFormationStorage { admin: id(ROOT) }).unwrap();
    initialize_session_storage(&mut ledger, &InitializeSessionStorage { admin: id(ROOT) }).unwrap();
    initialize_attendance_storage(&mut ledger, &InitializeAttendanceStorage { admin: id(ROOT) }).unwrap();
    ledger
}

fn count(ledger: &Ledger, namespace: Namespace) -> u64 {
    let key = derive_singleton(namespace, &ledger.program()).unwrap();
    match ledger.get(&key.address) {
        Some(Account::FormationStorage(storage)) => storage.formation_count,
        Some(Account::SessionStorage(storage)) => storage.session_count,
        Some(Account::AttendanceStorage(storage)) => storage.attendance_count,
        other => panic!("no counter: {:?}", other),
    }
}

fn formation_slot(ledger: &Ledger, identifier: &str) -> DerivedKey {
    derive_keyed(Namespace::Formation, identifier.as_bytes().to_vec(), &ledger.program()).unwrap()
}

fn formation_of(ledger: &Ledger, address: &Identity) -> Formation {
    match ledger.get(address) {
        Some(Account::Formation(formation)) => formation.clone(),
        other => panic!("no formation: {:?}", other),
    }
}

fn session_slot(ledger: &Ledger, number: u64) -> DerivedKey {
    derive_keyed(Namespace::Session, number.to_string().into_bytes(), &ledger.program()).unwrap()
}

fn session_of(ledger: &Ledger, address: &Identity) -> Session {
    match ledger.get(address) {
        Some(Account::Session(session)) => session.clone(),
        other => panic!("no session: {:?}", other),
    }
}

fn attendance_slot(ledger: &Ledger, student: u8, session_id: &str) -> DerivedKey {
    derive_paired(Namespace::Attendance, id(student).to_bytes(), session_id.as_bytes().to_vec(), &ledger.program())
        .unwrap()
}

fn attendance_of(ledger: &Ledger, address: &Identity) -> Attendance {
    match ledger.get(address) {
        Some(Account::Attendance(attendance)) => attendance.clone(),
        other => panic!("no attendance: {:?}", other),
    }
}

fn write_formation(ledger: &mut Ledger, caller: u8, id_str: Option<&str>, title: &str, now: i64) -> Result<(), AccessRequestError> {
    upsert_formation(
        ledger,
        &UpsertFormation { admin: id(caller) },
        id_str.map(|s| s.to_string()),
        title.to_string(),
        "about".to_string(),
        1000,
        2000,
        true,
        now,
    )
}

fn open_session(ledger: &mut Ledger, caller: u8, title: &str, now: i64) -> Result<(), AccessRequestError> {
    create_session(
        ledger,
        &CreateSession { trainer: id(caller) },
        "0".to_string(),
        title.to_string(),
        "about".to_string(),
        5000,
        90,
        "room".to_string(),
        now,
    )
}

#[test]
fn new_formation_takes_the_next_identifier() {
    let mut ledger = ledger();
    assert_eq!(write_formation(&mut ledger, ADMIN, None, "rust", 100), Ok(()));
    let slot = formation_slot(&ledger, "0");
    assert_eq!(
        formation_of(&ledger, &slot.address),
        Formation {
            id: "0".to_string(),
            title: "rust".to_string(),
            description: "about".to_string(),
            creator: id(ADMIN),
            start_date: 1000,
            end_date: 2000,
            is_active: true,
            created_at: 100,
            updated_at: 100,
            bump: slot.bump,
        }
    );
    assert_eq!(count(&ledger, Namespace::FormationStorage), 1);
}

#[test]
fn new_formations_live_side_by_side() {
    let mut ledger = ledger();
    write_formation(&mut ledger, ADMIN, None, "rust", 100).unwrap();
    let first_slot = formation_slot(&ledger, "0");
    let first = formation_of(&ledger, &first_slot.address);
    let len = ledger.len();
    assert_eq!(write_formation(&mut ledger, ADMIN, None, "verus", 200), Ok(()));
    let second_slot = formation_slot(&ledger, "1");
    assert_ne!(first_slot.address, second_slot.address);
    let second = formation_of(&ledger, &second_slot.address);
    assert_eq!(second.id, "1");
    assert_eq!(second.title, "verus");
    assert_eq!(second.created_at, 200);
    assert_eq!(second.bump, second_slot.bump);
    assert_eq!(formation_of(&ledger, &first_slot.address), first);
    assert_eq!(first.id, "0");
    assert_eq!(first.title, "rust");
    assert_eq!(count(&ledger, Namespace::FormationStorage), 2);
    assert_eq!(ledger.len(), len + 1);
}

#[test]
fn formations_are_numbered_and_never_collide() {
    let mut ledger = ledger();
    let before = count(&ledger, Namespace::FormationStorage);
    let mut addresses = Vec::new();
    for n in 0..12u64 {
        assert_eq!(write_formation(&mut ledger, ADMIN, None, "rust", 100 + n as i64), Ok(()));
        let slot = formation_slot(&ledger, n.to_string().as_str());
        assert_eq!(formation_of(&ledger, &slot.address).id, n.to_string());
        assert!(!addresses.contains(&slot.address));
        addresses.push(slot.address);
    }
    assert_eq!(count(&ledger, Namespace::FormationStorage), before + 12);
    for (n, address) in addresses.iter().enumerate() {
        let formation = formation_of(&ledger, address);
        assert_eq!(formation.id, n.to_string());
        assert_eq!(formation.created_at, 100 + n as i64);
    }
}

#[test]
fn new_formation_in_a_taken_slot_fails() {
    let mut ledger = ledger();
    write_formation(&mut ledger, ADMIN, None, "rust", 100).unwrap();
    let taken = formation_slot(&ledger, "0");
    let first = formation_of(&ledger, &taken.address);
    let storage = derive_singleton(Namespace::FormationStorage, &ledger.program());
    let credential =
        derive_paired(Namespace::TokenAccount, id(ADMIN).to_bytes(), b"admin".to_vec(), &ledger.program());
    let len = ledger.len();
    let result = upsert_formation_at(
        &mut ledger,
        &UpsertFormation { admin: id(ADMIN) },
        None,
        "verus".to_string(),
        "about".to_string(),
        1,
        2,
        true,
        200,
        credential,
        storage,
        Some(taken),
    );
    assert_eq!(result, Err(AccessRequestError::AlreadyExists));
    assert_eq!(formation_of(&ledger, &taken.address), first);
    assert_eq!(count(&ledger, Namespace::FormationStorage), 1);
    assert_eq!(ledger.len(), len);
}

#[test]
fn formation_update_patches_and_keeps_identity() {
    let mut ledger = ledger();
    write_formation(&mut ledger, ADMIN, None, "rust", 100).unwrap();
    write_formation(&mut ledger, ADMIN, None, "verus", 150).unwrap();
    let slot = formation_slot(&ledger, "0");
    let before = formation_of(&ledger, &slot.address);
    assert_eq!(before.id, "0");
    assert_eq!(before.title, "rust");
    let other = formation_of(&ledger, &formation_slot(&ledger, "1").address);
    grant(&mut ledger, STRANGER, "admin");
    let len = ledger.len();
    let result = upsert_formation(
        &mut ledger,
        &UpsertFormation { admin: id(STRANGER) },
        Some("0".to_string()),
        String::new(),
        "new text".to_string(),
        1500,
        2500,
        false,
        300,
    );
    assert_eq!(result, Ok(()));
    assert_eq!(
        formation_of(&ledger, &slot.address),
        Formation {
            description: "new text".to_string(),
            creator: id(STRANGER),
            start_date: 1500,
            end_date: 2500,
            is_active: false,
            updated_at: 300,
            ..before
        }
    );
    assert_eq!(formation_of(&ledger, &formation_slot(&ledger, "1").address), other);
    assert_eq!(count(&ledger, Namespace::FormationStorage), 2);
    assert_eq!(ledger.len(), len);
}

#[test]
fn formation_update_at_a_key_patches_the_slot() {
    let mut ledger = ledger();
    let slot = DerivedKey { address: id(60), bump: 250 };
    let storage = derive_singleton(Namespace::FormationStorage, &ledger.program());
    let credential =
        derive_paired(Namespace::TokenAccount, id(ADMIN).to_bytes(), b"admin".to_vec(), &ledger.program());
    let ctx = UpsertFormation { admin: id(ADMIN) };
    let first = upsert_formation_at(
        &mut ledger, &ctx, None, "rust".to_string(), "about".to_string(), 1, 2, true, 100, credential, storage, Some(slot),
    );
    assert_eq!(first, Ok(()));
    let second = upsert_formation_at(
        &mut ledger, &ctx, Some("0".to_string()), "verus".to_string(), String::new(), 3, 4, true, 200, credential, storage, Some(slot),
    );
    assert_eq!(second, Ok(()));
    let formation = formation_of(&ledger, &slot.address);
    assert_eq!(formation.id, "0");
    assert_eq!(formation.title, "verus");
    assert_eq!(formation.description, "about");
    assert_eq!(formation.created_at, 100);
    assert_eq!(formation.updated_at, 200);
    assert_eq!(formation.bump, 250);
    assert_eq!(count(&ledger, Namespace::FormationStorage), 1);
}

#[test]
fn formation_update_of_a_missing_one_fails() {
    let mut ledger = ledger();
    write_formation(&mut ledger, ADMIN, None, "rust", 100).unwrap();
    let first = formation_of(&ledger, &formation_slot(&ledger, "0").address);
    let len = ledger.len();
    assert_eq!(write_formation(&mut ledger, ADMIN, Some("1"), "verus", 200), Err(AccessRequestError::NotFound));
    assert_eq!(write_formation(&mut ledger, ADMIN, Some("00"), "verus", 200), Err(AccessRequestError::NotFound));
    assert_eq!(write_formation(&mut ledger, ADMIN, Some("formation"), "verus", 200), Err(AccessRequestError::NotFound));
    assert_eq!(write_formation(&mut ledger, ADMIN, Some("x".repeat(33).as_str()), "verus", 200), Err(AccessRequestError::InvalidSeeds));
    assert_eq!(ledger.len(), len);
    assert_eq!(formation_of(&ledger, &formation_slot(&ledger, "0").address), first);
    assert_eq!(count(&ledger, Namespace::FormationStorage), 1);
}

#[test]
fn formation_needs_an_admin() {
    let mut ledger = ledger();
    for caller in [TRAINER, STUDENT, ROOT] {
        assert_eq!(write_formation(&mut ledger, caller, None, "rust", 100), Err(AccessRequestError::Unauthorized));
    }
    assert!(!ledger.contains(&formation_slot(&ledger, "0").address));
    assert_eq!(count(&ledger, Namespace::FormationStorage), 0);
}

#[test]
fn formation_caps() {
    let mut ledger = ledger();
    let ctx = UpsertFormation { admin: id(ADMIN) };
    let over_title = upsert_formation(&mut ledger, &ctx, None, "t".repeat(101), "d".repeat(500), 1, 2, true, 100);
    assert_eq!(over_title, Err(AccessRequestError::FieldTooLong));
    let over_description = upsert_formation(&mut ledger, &ctx, None, "t".repeat(100), "d".repeat(501), 1, 2, true, 100);
    assert_eq!(over_description, Err(AccessRequestError::FieldTooLong));
    assert!(!ledger.contains(&formation_slot(&ledger, "0").address));
    assert_eq!(count(&ledger, Namespace::FormationStorage), 0);
    let at = upsert_formation(&mut ledger, &ctx, None, "t".repeat(100), "d".repeat(500), 1, 2, true, 100);
    assert_eq!(at, Ok(()));
    let formation = formation_of(&ledger, &formation_slot(&ledger, "0").address);
    assert_eq!(formation.title, "t".repeat(100));
    assert_eq!(formation.description, "d".repeat(500));
}

#[test]
fn formation_before_bootstrap_fails() {
    let mut ledger = Ledger::new(id(7));
    initialize_token_mint(&mut ledger, &InitializeTokenMint { admin: id(ROOT), mint: id(9) }).unwrap();
    grant(&mut ledger, ADMIN, "admin");
    assert_eq!(write_formation(&mut ledger, ADMIN, None, "rust", 100), Err(AccessRequestError::NotFound));
}

#[test]
fn sessions_are_numbered_and_never_collide() {
    let mut ledger = ledger();
    let before = count(&ledger, Namespace::SessionStorage);
    let mut addresses = Vec::new();
    for n in 0..5u64 {
        let caller = if n % 2 == 0 { TRAINER } else { ADMIN };
        assert_eq!(open_session(&mut ledger, caller, "intro", 100 + n as i64), Ok(()));
        let slot = session_slot(&ledger, n);
        let session = session_of(&ledger, &slot.address);
        assert_eq!(session.id, n.to_string());
        assert_eq!(session.trainer, id(caller));
        assert!(!addresses.contains(&slot.address));
        addresses.push(slot.address);
    }
    assert_eq!(count(&ledger, Namespace::SessionStorage), before + 5);
    for (n, address) in addresses.iter().enumerate() {
        assert_eq!(session_of(&ledger, address).id, n.to_string());
    }
}

#[test]
fn session_holds_what_was_given() {
    let mut ledger = ledger();
    assert_eq!(open_session(&mut ledger, TRAINER, "intro", 100), Ok(()));
    let slot = session_slot(&ledger, 0);
    assert_eq!(
        session_of(&ledger, &slot.address),
        Session {
            id: "0".to_string(),
            formation_id: "0".to_string(),
            title: "intro".to_string(),
            description: "about".to_string(),
            trainer: id(TRAINER),
            date: 5000,
            duration: 90,
            location: "room".to_string(),
            is_active: true,
            created_at: 100,
            updated_at: 100,
            bump: slot.bump,
        }
    );
}

#[test]
fn session_needs_an_admin_or_a_trainer() {
    let mut ledger = ledger();
    grant(&mut ledger, STUDENT, "student");
    for caller in [STUDENT, STRANGER, ROOT] {
        assert_eq!(open_session(&mut ledger, caller, "intro", 100), Err(AccessRequestError::Unauthorized));
    }
    assert_eq!(count(&ledger, Namespace::SessionStorage), 0);
    assert!(!ledger.contains(&session_slot(&ledger, 0).address));
}

#[test]
fn session_caps() {
    let mut ledger = ledger();
    let ctx = CreateSession { trainer: id(TRAINER) };
    let len = ledger.len();
    for (title, description, location) in [(101, 500, 100), (100, 501, 100), (100, 500, 101)] {
        let result = create_session(
            &mut ledger, &ctx, "0".to_string(), "t".repeat(title), "d".repeat(description), 1, 2, "l".repeat(location), 100,
        );
        assert_eq!(result, Err(AccessRequestError::FieldTooLong));
    }
    assert_eq!(ledger.len(), len);
    assert_eq!(count(&ledger, Namespace::SessionStorage), 0);
    let at = create_session(&mut ledger, &ctx, "0".to_string(), "t".repeat(100), "d".repeat(500), 1, 2, "l".repeat(100), 100);
    assert_eq!(at, Ok(()));
    assert_eq!(session_of(&ledger, &session_slot(&ledger, 0).address).location, "l".repeat(100));
}

#[test]
fn session_in_a_taken_slot_fails() {
    let mut ledger = ledger();
    open_session(&mut ledger, TRAINER, "intro", 100).unwrap();
    let taken = session_slot(&ledger, 0);
    let first = session_of(&ledger, &taken.address);
    let storage = derive_singleton(Namespace::SessionStorage, &ledger.program());
    let trainer =
        derive_paired(Namespace::TokenAccount, id(TRAINER).to_bytes(), b"trainer".to_vec(), &ledger.program());
    let result = create_session_at(
        &mut ledger,
        &CreateSession { trainer: id(TRAINER) },
        "0".to_string(),
        "again".to_string(),
        "about".to_string(),
        1,
        2,
        "room".to_string(),
        200,
        None,
        trainer,
        storage,
        Some(taken),
    );
    assert_eq!(result, Err(AccessRequestError::AlreadyExists));
    assert_eq!(session_of(&ledger, &taken.address), first);
    assert_eq!(count(&ledger, Namespace::SessionStorage), 1);
}

#[test]
fn student_checks_in_and_out() {
    let mut ledger = ledger();
    let t0 = 1000;
    let t1 = 4600;
    let checked_in =
        record_attendance(&mut ledger, &RecordAttendance { student: id(STUDENT) }, "5".to_string(), false, "late".to_string(), t0);
    assert_eq!(checked_in, Ok(()));
    let slot = attendance_slot(&ledger, STUDENT, "5");
    let before = attendance_of(&ledger, &slot.address);
    assert_eq!(
        before,
        Attendance {
            id: "0".to_string(),
            session_id: "5".to_string(),
            student: id(STUDENT),
            is_present: false,
            check_in_time: t0,
            check_out_time: None,
            note: "late".to_string(),
            created_at: t0,
            updated_at: t0,
            bump: slot.bump,
        }
    );
    let checked_out = update_attendance(
        &mut ledger,
        &UpdateAttendance { student: id(STUDENT), attendance: slot.address },
        true,
        "ok".to_string(),
        t1,
    );
    assert_eq!(checked_out, Ok(()));
    let after = attendance_of(&ledger, &slot.address);
    assert_eq!(after.check_out_time, Some(t1));
    assert!(after.check_out_time.unwrap() >= after.check_in_time);
    assert_eq!(after.note, "ok");
    assert_eq!(after.check_in_time, t0);
    assert_eq!(
        after,
        Attendance { is_present: true, check_out_time: Some(t1), note: "ok".to_string(), updated_at: t1, ..before }
    );
    assert_eq!(count(&ledger, Namespace::AttendanceStorage), 1);
}

#[test]
fn check_out_with_an_empty_note_keeps_the_note() {
    let mut ledger = ledger();
    record_attendance(&mut ledger, &RecordAttendance { student: id(STUDENT) }, "5".to_string(), true, "here".to_string(), 10).unwrap();
    let slot = attendance_slot(&ledger, STUDENT, "5");
    update_attendance(&mut ledger, &UpdateAttendance { student: id(STUDENT), attendance: slot.address }, false, String::new(), 20).unwrap();
    let after = attendance_of(&ledger, &slot.address);
    assert_eq!(after.note, "here");
    assert!(!after.is_present);
    assert_eq!(after.check_out_time, Some(20));
}

#[test]
fn second_check_out_writes_over_the_first() {
    let mut ledger = ledger();
    record_attendance(&mut ledger, &RecordAttendance { student: id(STUDENT) }, "5".to_string(), true, "here".to_string(), 10).unwrap();
    let slot = attendance_slot(&ledger, STUDENT, "5");
    let ctx = UpdateAttendance { student: id(STUDENT), attendance: slot.address };
    update_attendance(&mut ledger, &ctx, true, "one".to_string(), 20).unwrap();
    update_attendance(&mut ledger, &ctx, false, "two".to_string(), 30).unwrap();
    let after = attendance_of(&ledger, &slot.address);
    assert_eq!(after.check_out_time, Some(30));
    assert_eq!(after.note, "two");
    assert_eq!(after.check_in_time, 10);
    assert_eq!(after.updated_at, 30);
}

#[test]
fn only_the_student_checks_out() {
    let mut ledger = ledger();
    record_attendance(&mut ledger, &RecordAttendance { student: id(STUDENT) }, "5".to_string(), true, "here".to_string(), 10).unwrap();
    let slot = attendance_slot(&ledger, STUDENT, "5");
    let before = attendance_of(&ledger, &slot.address);
    for caller in [STRANGER, ADMIN, TRAINER, ROOT] {
        for note in ["ok".to_string(), "n".repeat(101)] {
            let result = update_attendance(
                &mut ledger,
                &UpdateAttendance { student: id(caller), attendance: slot.address },
                true,
                note,
                20,
            );
            assert_eq!(result, Err(AccessRequestError::Unauthorized));
        }
    }
    assert_eq!(attendance_of(&ledger, &slot.address), before);
}

#[test]
fn check_out_of_nothing_fails() {
    let mut ledger = ledger();
    let len = ledger.len();
    let nowhere = UpdateAttendance { student: id(STUDENT), attendance: id(99) };
    assert_eq!(update_attendance(&mut ledger, &nowhere, true, "ok".to_string(), 20), Err(AccessRequestError::NotFound));
    let counter = derive_singleton(Namespace::AttendanceStorage, &ledger.program()).unwrap().address;
    let wrong_kind = UpdateAttendance { student: id(STUDENT), attendance: counter };
    assert_eq!(update_attendance(&mut ledger, &wrong_kind, true, "ok".to_string(), 20), Err(AccessRequestError::NotFound));
    assert_eq!(ledger.len(), len);
}

#[test]
fn attendance_note_caps() {
    let mut ledger = ledger();
    let ctx = RecordAttendance { student: id(STUDENT) };
    let len = ledger.len();
    assert_eq!(
        record_attendance(&mut ledger, &ctx, "5".to_string(), true, "n".repeat(101), 10),
        Err(AccessRequestError::FieldTooLong)
    );
    assert_eq!(ledger.len(), len);
    assert!(!ledger.contains(&attendance_slot(&ledger, STUDENT, "5").address));
    assert_eq!(count(&ledger, Namespace::AttendanceStorage), 0);
    assert_eq!(record_attendance(&mut ledger, &ctx, "5".to_string(), true, "n".repeat(100), 10), Ok(()));
    let slot = attendance_slot(&ledger, STUDENT, "5");
    let before = attendance_of(&ledger, &slot.address);
    let out = UpdateAttendance { student: id(STUDENT), attendance: slot.address };
    assert_eq!(update_attendance(&mut ledger, &out, true, "m".repeat(101), 20), Err(AccessRequestError::FieldTooLong));
    assert_eq!(attendance_of(&ledger, &slot.address), before);
    assert_eq!(update_attendance(&mut ledger, &out, true, "m".repeat(100), 20), Ok(()));
    assert_eq!(attendance_of(&ledger, &slot.address).note, "m".repeat(100));
}

#[test]
fn one_check_in_per_student_and_session() {
    let mut ledger = ledger();
    let ctx = RecordAttendance { student: id(STUDENT) };
    record_attendance(&mut ledger, &ctx, "5".to_string(), true, "here".to_string(), 10).unwrap();
    let first = attendance_of(&ledger, &attendance_slot(&ledger, STUDENT, "5").address);
    assert_eq!(
        record_attendance(&mut ledger, &ctx, "5".to_string(), false, "again".to_string(), 20),
        Err(AccessRequestError::AlreadyExists)
    );
    assert_eq!(attendance_of(&ledger, &attendance_slot(&ledger, STUDENT, "5").address), first);
    assert_eq!(count(&ledger, Namespace::AttendanceStorage), 1);
    assert_eq!(record_attendance(&mut ledger, &ctx, "6".to_string(), true, String::new(), 30), Ok(()));
    let other = RecordAttendance { student: id(STRANGER) };
    assert_eq!(record_attendance(&mut ledger, &other, "5".to_string(), true, String::new(), 40), Ok(()));
    assert_eq!(attendance_of(&ledger, &attendance_slot(&ledger, STUDENT, "6").address).id, "1");
    assert_eq!(attendance_of(&ledger, &attendance_slot(&ledger, STRANGER, "5").address).id, "2");
    assert_eq!(count(&ledger, Namespace::AttendanceStorage), 3);
}

#[test]
fn check_in_to_a_session_with_too_long_a_name_fails() {
    let mut ledger = ledger();
    let ctx = RecordAttendance { student: id(STUDENT) };
    let len = ledger.len();
    assert_eq!(
        record_attendance(&mut ledger, &ctx, "s".repeat(33), true, String::new(), 10),
        Err(AccessRequestError::InvalidSeeds)
    );
    assert_eq!(ledger.len(), len);
    assert_eq!(count(&ledger, Namespace::AttendanceStorage), 0);
    assert_eq!(record_attendance(&mut ledger, &ctx, "s".repeat(32), true, String::new(), 10), Ok(()));
}

#[test]
fn check_in_before_bootstrap_or_without_keys_fails() {
    let mut empty = Ledger::new(id(7));
    let ctx = RecordAttendance { student: id(STUDENT) };
    assert_eq!(
        record_attendance(&mut empty, &ctx, "5".to_string(), true, String::new(), 10),
        Err(AccessRequestError::NotFound)
    );
    assert_eq!(
        record_attendance_at(&mut empty, &ctx, "5".to_string(), true, String::new(), 10, None, None),
        Err(AccessRequestError::InvalidSeeds)
    );
    assert_eq!(empty.len(), 0);
}
