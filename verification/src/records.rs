//! The records of the ledger, one type per family, and the account that a
//! slot holds.

use vstd::prelude::*;
use crate::errors::AccessRequestError;
use crate::identity::Identity;

verus! {

/// The workflow state of an access request.
#[derive(Clone, Copy, Debug, PartialEq, Eq, Structural)]
pub enum RequestStatus {
    Pending,
    Approved,
    Rejected,
}

impl RequestStatus {
    /// Whether no transition leaves this state.
    pub open spec fn is_terminal(self) -> bool {
        self != RequestStatus::Pending
    }
}

/// The counter of the access requests.
#[derive(Clone, Copy, Debug, PartialEq, Eq)]
pub struct AccessRequestStorage {
    pub admin: Identity,
    pub request_count: u64,
    pub bump: u8,
}

/// A request for a role, filed by the identity that wants it.
#[derive(Clone, Debug, PartialEq, Eq)]
pub struct AccessRequest {
    pub id: u64,
    pub requester: Identity,
    pub role: String,
    pub message: String,
    pub status: RequestStatus,
    pub created_at: i64,
    pub updated_at: i64,
    pub bump: u8,
}

/// The counter of the formations.
#[derive(Clone, Copy, Debug, PartialEq, Eq)]
pub struct FormationStorage {
    pub admin: Identity,
    pub formation_count: u64,
    pub bump: u8,
}

/// A course.
#[derive(Clone, Debug, PartialEq, Eq)]
pub struct Formation {
    pub id: String,
    pub title: String,
    pub description: String,
    pub creator: Identity,
    pub start_date: i64,
    pub end_date: i64,
    pub is_active: bool,
    pub created_at: i64,
    pub updated_at: i64,
    pub bump: u8,
}

/// The counter of the sessions.
#[derive(Clone, Copy, Debug, PartialEq, Eq)]
pub struct SessionStorage {
    pub admin: Identity,
    pub session_count: u64,
    pub bump: u8,
}

/// A session of a formation, with its date and its duration in minutes.
#[derive(Clone, Debug, PartialEq, Eq)]
pub struct Session {
    pub id: String,
    pub formation_id: String,
    pub title: String,
    pub description: String,
    pub trainer: Identity,
    pub date: i64,
    pub duration: u64,
    pub location: String,
    pub is_active: bool,
    pub created_at: i64,
    pub updated_at: i64,
    pub bump: u8,
}

/// A session given by the window of time that it fills.
#[derive(Clone, Debug, PartialEq, Eq)]
pub struct TimedSession {
    pub id: u64,
    pub title: String,
    pub description: String,
    pub location: String,
    pub start_time: i64,
    pub end_time: i64,
    pub created_at: i64,
    pub updated_at: i64,
    pub bump: u8,
}

/// The counter of the attendance entries.
#[derive(Clone, Copy, Debug, PartialEq, Eq)]
pub struct AttendanceStorage {
    pub admin: Identity,
    pub attendance_count: u64,
    pub bump: u8,
}

/// The attendance of a student at a session, found by student and session.
#[derive(Clone, Debug, PartialEq, Eq)]
pub struct Attendance {
    pub id: String,
    pub session_id: String,
    pub student: Identity,
    pub is_present: bool,
    pub check_in_time: i64,
    pub check_out_time: Option<i64>,
    pub note: String,
    pub created_at: i64,
    pub updated_at: i64,
    pub bump: u8,
}

/// The attendance of a student at a session, found by student and sequence
/// number.
#[derive(Clone, Debug, PartialEq, Eq)]
pub struct SequencedAttendance {
    pub id: u64,
    pub session_id: u64,
    pub student: Identity,
    pub is_present: bool,
    pub check_in_time: i64,
    pub check_out_time: Option<i64>,
    pub note: String,
    pub created_at: i64,
    pub updated_at: i64,
    pub bump: u8,
}

/// The root of the role credentials: the mint and the one who may issue.
#[derive(Clone, Copy, Debug, PartialEq, Eq)]
pub struct TokenMintStorage {
    pub mint: Identity,
    pub admin: Identity,
    pub bump: u8,
}

/// A role credential: its owner holds the role while the amount is positive.
#[derive(Clone, Debug, PartialEq, Eq)]
pub struct RoleTokenAccount {
    pub owner: Identity,
    pub role: String,
    pub amount: u64,
    pub created_at: i64,
    pub updated_at: i64,
    pub bump: u8,
}

/// What a slot of the ledger holds.
#[derive(Clone, Debug, PartialEq, Eq)]
pub enum Account {
    AccessStorage(AccessRequestStorage),
    Request(AccessRequest),
    FormationStorage(FormationStorage),
    Formation(Formation),
    SessionStorage(SessionStorage),
    Session(Session),
    TimedSession(TimedSession),
    AttendanceStorage(AttendanceStorage),
    Attendance(Attendance),
    SequencedAttendance(SequencedAttendance),
    TokenMint(TokenMintStorage),
    RoleToken(RoleTokenAccount),
}

/// An access request as contracts see it.
pub struct AccessRequestView {
    pub id: u64,
    pub requester: Identity,
    pub role: Seq<char>,
    pub message: Seq<char>,
    pub status: RequestStatus,
    pub created_at: i64,
    pub updated_at: i64,
    pub bump: u8,
}

impl View for AccessRequest {
    type V = AccessRequestView;

    open spec fn view(&self) -> AccessRequestView {
        AccessRequestView {
            id: self.id,
            requester: self.requester,
            role: self.role@,
            message: self.message@,
            status: self.status,
            created_at: self.created_at,
            updated_at: self.updated_at,
            bump: self.bump,
        }
    }
}

/// A formation as contracts see it.
pub struct FormationView {
    pub id: Seq<char>,
    pub title: Seq<char>,
    pub description: Seq<char>,
    pub creator: Identity,
    pub start_date: i64,
    pub end_date: i64,
    pub is_active: bool,
    pub created_at: i64,
    pub updated_at: i64,
    pub bump: u8,
}

impl View for Formation {
    type V = FormationView;

    open spec fn view(&self) -> FormationView {
        FormationView {
            id: self.id@,
            title: self.title@,
            description: self.description@,
            creator: self.creator,
            start_date: self.start_date,
            end_date: self.end_date,
            is_active: self.is_active,
            created_at: self.created_at,
            updated_at: self.updated_at,
            bump: self.bump,
        }
    }
}

/// A session as contracts see it.
pub struct SessionView {
    pub id: Seq<char>,
    pub formation_id: Seq<char>,
    pub title: Seq<char>,
    pub description: Seq<char>,
    pub trainer: Identity,
    pub date: i64,
    pub duration: u64,
    pub location: Seq<char>,
    pub is_active: bool,
    pub created_at: i64,
    pub updated_at: i64,
    pub bump: u8,
}

impl View for Session {
    type V = SessionView;

    open spec fn view(&self) -> SessionView {
        SessionView {
            id: self.id@,
            formation_id: self.formation_id@,
            title: self.title@,
            description: self.description@,
            trainer: self.trainer,
            date: self.date,
            duration: self.duration,
            location: self.location@,
            is_active: self.is_active,
            created_at: self.created_at,
            updated_at: self.updated_at,
            bump: self.bump,
        }
    }
}

/// A timed session as contracts see it.
pub struct TimedSessionView {
    pub id: u64,
    pub title: Seq<char>,
    pub description: Seq<char>,
    pub location: Seq<char>,
    pub start_time: i64,
    pub end_time: i64,
    pub created_at: i64,
    pub updated_at: i64,
    pub bump: u8,
}

impl View for TimedSession {
    type V = TimedSessionView;

    open spec fn view(&self) -> TimedSessionView {
        TimedSessionView {
            id: self.id,
            title: self.title@,
            description: self.description@,
            location: self.location@,
            start_time: self.start_time,
            end_time: self.end_time,
            created_at: self.created_at,
            updated_at: self.updated_at,
            bump: self.bump,
        }
    }
}

/// An attendance as contracts see it.
pub struct AttendanceView {
    pub id: Seq<char>,
    pub session_id: Seq<char>,
    pub student: Identity,
    pub is_present: bool,
    pub check_in_time: i64,
    pub check_out_time: Option<i64>,
    pub note: Seq<char>,
    pub created_at: i64,
    pub updated_at: i64,
    pub bump: u8,
}

impl View for Attendance {
    type V = AttendanceView;

    open spec fn view(&self) -> AttendanceView {
        AttendanceView {
            id: self.id@,
            session_id: self.session_id@,
            student: self.student,
            is_present: self.is_present,
            check_in_time: self.check_in_time,
            check_out_time: self.check_out_time,
            note: self.note@,
            created_at: self.created_at,
            updated_at: self.updated_at,
            bump: self.bump,
        }
    }
}

/// A sequenced attendance as contracts see it.
pub struct SequencedAttendanceView {
    pub id: u64,
    pub session_id: u64,
    pub student: Identity,
    pub is_present: bool,
    pub check_in_time: i64,
    pub check_out_time: Option<i64>,
    pub note: Seq<char>,
    pub created_at: i64,
    pub updated_at: i64,
    pub bump: u8,
}

impl View for SequencedAttendance {
    type V = SequencedAttendanceView;

    open spec fn view(&self) -> SequencedAttendanceView {
        SequencedAttendanceView {
            id: self.id,
            session_id: self.session_id,
            student: self.student,
            is_present: self.is_present,
            check_in_time: self.check_in_time,
            check_out_time: self.check_out_time,
            note: self.note@,
            created_at: self.created_at,
            updated_at: self.updated_at,
            bump: self.bump,
        }
    }
}

/// A role credential as contracts see it.
pub struct RoleTokenAccountView {
    pub owner: Identity,
    pub role: Seq<char>,
    pub amount: u64,
    pub created_at: i64,
    pub updated_at: i64,
    pub bump: u8,
}

impl View for RoleTokenAccount {
    type V = RoleTokenAccountView;

    open spec fn view(&self) -> RoleTokenAccountView {
        RoleTokenAccountView {
            owner: self.owner,
            role: self.role@,
            amount: self.amount,
            created_at: self.created_at,
            updated_at: self.updated_at,
            bump: self.bump,
        }
    }
}

/// An account as contracts see it.
pub enum AccountView {
    AccessStorage(AccessRequestStorage),
    Request(AccessRequestView),
    FormationStorage(FormationStorage),
    Formation(FormationView),
    SessionStorage(SessionStorage),
    Session(SessionView),
    TimedSession(TimedSessionView),
    AttendanceStorage(AttendanceStorage),
    Attendance(AttendanceView),
    SequencedAttendance(SequencedAttendanceView),
    TokenMint(TokenMintStorage),
    RoleToken(RoleTokenAccountView),
}

impl View for Account {
    type V = AccountView;

    open spec fn view(&self) -> AccountView {
        match self {
            Account::AccessStorage(s) => AccountView::AccessStorage(*s),
            Account::Request(r) => AccountView::Request(r@),
            Account::FormationStorage(s) => AccountView::FormationStorage(*s),
            Account::Formation(f) => AccountView::Formation(f@),
            Account::SessionStorage(s) => AccountView::SessionStorage(*s),
            Account::Session(s) => AccountView::Session(s@),
            Account::TimedSession(s) => AccountView::TimedSession(s@),
            Account::AttendanceStorage(s) => AccountView::AttendanceStorage(*s),
            Account::Attendance(a) => AccountView::Attendance(a@),
            Account::SequencedAttendance(a) => AccountView::SequencedAttendance(a@),
            Account::TokenMint(s) => AccountView::TokenMint(*s),
            Account::RoleToken(t) => AccountView::RoleToken(t@),
        }
    }
}

/// The accounts of a ledger as contracts see them: one per occupied address.
pub type State = Map<Seq<u8>, AccountView>;

/// What an operation does to the accounts: the accounts that follow, or the
/// reason why it is refused.
pub type Outcome = Result<State, AccessRequestError>;

/// Whether an operation is refused for the given reason.
pub open spec fn refused(outcome: Outcome, reason: AccessRequestError) -> bool {
    outcome == Err::<State, AccessRequestError>(reason)
}

} // verus!
