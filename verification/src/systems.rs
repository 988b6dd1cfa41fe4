//! The account system: registration, verification, deletion, login and profiles.
//!
//! Each operation alternates between the document store (or the mail server) and a
//! decision. The decisions are the functions here: they take what the store answered
//! and say what to do next or what to answer.
use vstd::prelude::*;
use vstd::string::*;

use crate::checks::{check_img_or_video_size, gmail_suffix, is_gmail_address, is_hex, is_hex_text, rounded_mebibytes};
use crate::records::{Account, TemporalAccount};
use crate::schemas::{AccountResponse, DefaultResponse, ProfileResponse, TITLE};
use crate::text::has_suffix;

verus! {

/// A plain answer with the API's title.
pub fn reply<'a>(message: &'a str, success: bool, date: String) -> (r: DefaultResponse<'a>)
    ensures
        r.is(message@, success, date),
{
    DefaultResponse { title: TITLE, message, success, date }
}

// ---------------------------------------------------------------------------
// Registration
// ---------------------------------------------------------------------------

/// The subject of the mail that carries a verification code.
pub open spec fn code_subject() -> Seq<char> {
    "BlackWell API | Verification Code"@
}

/// A mail ready to be sent.
#[derive(Debug, PartialEq, Eq)]
pub struct EmailDraft {
    pub to: String,
    pub subject: &'static str,
    pub body: String,
}

/// The mail that carries the verification code of `account` to its address; `None`
/// where the address is not a Gmail address, which the API never mails.
pub fn verification_email(account: &TemporalAccount) -> (r: Option<EmailDraft>)
    ensures
        r is Some <==> has_suffix(account.email@, gmail_suffix()),
        r is Some <==> (account.email@.len() >= 10 && account.email@.subrange(
            account.email@.len() - 10,
            account.email@.len() as int,
        ) == "@gmail.com"@),
        r matches Some(d) ==> {
            &&& d.to@ == account.email@
            &&& d.subject@ == code_subject()
            &&& d.subject@ == "BlackWell API | Verification Code"@
            &&& d.body@ == account.verification.code@
        },
{
    if is_gmail_address(account.email.as_str()) {
        Some(EmailDraft {
            to: account.email.clone(),
            subject: "BlackWell API | Verification Code",
            body: account.verification.code.clone(),
        })
    } else {
        None
    }
}

/// The stages of a registration, in the order they run.
#[derive(Debug, Clone, Copy, PartialEq, Eq)]
pub enum RegisterStage {
    /// Look for an account or pending registration with the same name and address.
    CheckAvailability,
    /// Mail the verification code.
    SendCode,
    /// Store the pending registration.
    StoreRegistration,
}

/// What a registration does after a stage.
#[derive(Debug, PartialEq, Eq)]
pub enum RegisterStep<'a> {
    Next(RegisterStage),
    Reply(DefaultResponse<'a>),
}

/// Where a registration goes after a stage: on to a later stage, or to its answer
/// (message and success).
pub enum RegisterOutcome {
    Continue(RegisterStage),
    Finish(Seq<char>, bool),
}

/// Where a registration goes after `stage`, given whether the stage succeeded: each
/// stage leads to the next one on success, and a failed stage ends the registration.
pub open spec fn register_outcome(stage: RegisterStage, succeeded: bool) -> RegisterOutcome {
    match stage {
        RegisterStage::CheckAvailability => if succeeded {
            RegisterOutcome::Continue(RegisterStage::SendCode)
        } else {
            RegisterOutcome::Finish("The user already exists."@, false)
        },
        RegisterStage::SendCode => if succeeded {
            RegisterOutcome::Continue(RegisterStage::StoreRegistration)
        } else {
            RegisterOutcome::Finish("The mensage to the email could not be send."@, false)
        },
        RegisterStage::StoreRegistration => if succeeded {
            RegisterOutcome::Finish("You have 3 minutes to check the email."@, true)
        } else {
            RegisterOutcome::Finish("The temporary user could not be created."@, false)
        },
    }
}

/// The step `register_step` returns at `date` follows the outcome `o`.
pub open spec fn step_follows<'a>(r: RegisterStep<'a>, o: RegisterOutcome, date: String) -> bool {
    match o {
        RegisterOutcome::Continue(next) => r == RegisterStep::<'a>::Next(next),
        RegisterOutcome::Finish(message, success) => r matches RegisterStep::Reply(x) && x.is(
            message,
            success,
            date,
        ),
    }
}

/// The step of a registration after `stage` ran; `succeeded` is whether the name was
/// free, the mail went out, or the registration was stored.
pub fn register_step<'a>(stage: RegisterStage, succeeded: bool, date: String) -> (r: RegisterStep<'a>)
    ensures
        step_follows(r, register_outcome(stage, succeeded), date),
        stage == RegisterStage::CheckAvailability && succeeded ==> r == RegisterStep::<'a>::Next(
            RegisterStage::SendCode,
        ),
        stage == RegisterStage::CheckAvailability && !succeeded ==> (r matches RegisterStep::Reply(x)
            && x.is("The user already exists."@, false, date)),
        stage == RegisterStage::SendCode && succeeded ==> r == RegisterStep::<'a>::Next(
            RegisterStage::StoreRegistration,
        ),
        stage == RegisterStage::SendCode && !succeeded ==> (r matches RegisterStep::Reply(x) && x.is(
            "The mensage to the email could not be send."@,
            false,
            date,
        )),
        stage == RegisterStage::StoreRegistration && succeeded ==> (r matches RegisterStep::Reply(x)
            && x.is("You have 3 minutes to check the email."@, true, date)),
        stage == RegisterStage::StoreRegistration && !succeeded ==> (r matches RegisterStep::Reply(x)
            && x.is("The temporary user could not be created."@, false, date)),
{
    match stage {
        RegisterStage::CheckAvailability => {
            if succeeded {
                RegisterStep::Next(RegisterStage::SendCode)
            } else {
                RegisterStep::Reply(reply("The user already exists.", false, date))
            }
        },
        RegisterStage::SendCode => {
            if succeeded {
                RegisterStep::Next(RegisterStage::StoreRegistration)
            } else {
                RegisterStep::Reply(
                    reply("The mensage to the email could not be send.", false, date),
                )
            }
        },
        RegisterStage::StoreRegistration => {
            if succeeded {
                RegisterStep::Reply(reply("You have 3 minutes to check the email.", true, date))
            } else {
                RegisterStep::Reply(reply("The temporary user could not be created.", false, date))
            }
        },
    }
}

/// How a registration that starts at the availability check ends, given what each
/// stage that runs reports (a stage after a failed one does not run).
pub open spec fn register_run(available: bool, sent: bool, stored: bool) -> (Seq<char>, bool) {
    match register_outcome(RegisterStage::CheckAvailability, available) {
        RegisterOutcome::Finish(m, s) => (m, s),
        RegisterOutcome::Continue(second) => match register_outcome(second, sent) {
            RegisterOutcome::Finish(m, s) => (m, s),
            RegisterOutcome::Continue(third) => match register_outcome(third, stored) {
                RegisterOutcome::Finish(m, s) => (m, s),
                RegisterOutcome::Continue(_) => ("Unknown error."@, false),
            },
        },
    }
}

/// A registration always ends after its three stages, and it is answered with success
/// exactly when the name was free, the code was mailed and the pending registration
/// was stored. The pending registration is stored only after the mail went out, and
/// the mail only goes out when the name is free.
pub proof fn lemma_register_succeeds_only_when_every_stage_does(available: bool, sent: bool, stored: bool)
    ensures
        register_run(available, sent, stored).1 <==> (available && sent && stored),
        register_run(available, sent, stored).1 ==> register_run(available, sent, stored).0
            == "You have 3 minutes to check the email."@,
        register_outcome(RegisterStage::CheckAvailability, available) == RegisterOutcome::Continue(
            RegisterStage::SendCode,
        ) <==> available,
        register_outcome(RegisterStage::SendCode, sent) == RegisterOutcome::Continue(
            RegisterStage::StoreRegistration,
        ) <==> sent,
        register_outcome(RegisterStage::StoreRegistration, stored) is Finish,
{
}

// ---------------------------------------------------------------------------
// Verification
// ---------------------------------------------------------------------------

/// The answer once the code has been looked up: `None` to go on where a pending
/// registration with that code exists, else the refusal.
pub fn verify_code_checked<'a>(valid: bool, date: String) -> (r: Option<DefaultResponse<'a>>)
    ensures
        valid ==> r is None,
        !valid ==> (r matches Some(x) && x.is("The verification code is invalid."@, false, date)),
{
    if valid {
        None
    } else {
        Some(reply("The verification code is invalid.", false, date))
    }
}

/// What verification does with the pending registration it fetched.
#[derive(Debug, PartialEq, Eq)]
pub enum VerifyStep<'a> {
    /// Store this account.
    Store(Account),
    Reply(DefaultResponse<'a>),
}

/// The step once the pending registration has been fetched: store it as an account,
/// or answer with an unknown error where it is gone.
pub fn verify_fetched<'a>(found: Option<TemporalAccount>, date: String) -> (r: VerifyStep<'a>)
    ensures
        match found {
            Some(t) => r matches VerifyStep::Store(a) && {
                &&& a.id == t.id
                &&& a.profile == t.profile
                &&& a.username == t.username
                &&& a.email == t.email
                &&& a.password == t.password
                &&& a.created_at == t.created_at
                &&& a.contacts == t.contacts
            },
            None => r matches VerifyStep::Reply(x) && x.is("Unknown error."@, false, date),
        },
{
    match found {
        Some(t) => VerifyStep::Store(t.into_account()),
        None => VerifyStep::Reply(reply("Unknown error.", false, date)),
    }
}

/// The answer once the account has been stored, or failed to be.
pub fn verify_stored<'a>(stored: bool, date: String) -> (r: DefaultResponse<'a>)
    ensures
        stored ==> r.is("The user has been created."@, true, date),
        !stored ==> r.is("The user could not be created."@, false, date),
{
    if stored {
        reply("The user has been created.", true, date)
    } else {
        reply("The user could not be created.", false, date)
    }
}

// ---------------------------------------------------------------------------
// Deletion and login
// ---------------------------------------------------------------------------

/// The answer to a deletion, given whether the store deleted the account.
pub fn delete_account_reply<'a>(deleted: bool, date: String) -> (r: DefaultResponse<'a>)
    ensures
        deleted ==> r.is("The account has been deleted."@, true, date),
        !deleted ==> r.is("The account could not be deleted."@, false, date),
{
    if deleted {
        reply("The account has been deleted.", true, date)
    } else {
        reply("The account could not be deleted.", false, date)
    }
}

/// The answer to a login, given the account found with that address and password.
pub fn login_reply<'a>(found: Option<Account>, date: String) -> (r: AccountResponse<'a>)
    ensures
        found is None ==> r.is("The account could not be found."@, false, None, date),
        found is Some ==> r.is("The account has been found."@, true, found, date),
{
    match found {
        None => AccountResponse {
            title: TITLE,
            message: "The account could not be found.",
            success: false,
            account: None,
            date,
        },
        Some(account) => AccountResponse {
            title: TITLE,
            message: "The account has been found.",
            success: true,
            account: Some(account),
            date,
        },
    }
}

// ---------------------------------------------------------------------------
// Profiles
// ---------------------------------------------------------------------------

/// A profile picture is accepted: a non-empty hexadecimal string of at most 5 MiB
/// (rounded to the nearest mebibyte).
pub open spec fn acceptable_profile(profile: &str) -> bool {
    is_hex_text(profile@) && rounded_mebibytes(profile.spec_bytes().len()) <= 5
}

/// Which pictures are accepted depends on nothing but their characters and size: every
/// non-empty hexadecimal string (digits in either case) of at most 5 MiB is accepted,
/// and so is any shorter hexadecimal string; nothing else is.
pub proof fn lemma_acceptable_profiles(profile: &str, shorter: &str)
    ensures
        acceptable_profile(profile) <==> (is_hex_text(profile@) && rounded_mebibytes(
            profile.spec_bytes().len(),
        ) <= 5),
        acceptable_profile(profile) && is_hex_text(shorter@) && shorter.spec_bytes().len()
            <= profile.spec_bytes().len() ==> acceptable_profile(shorter),
{
    if acceptable_profile(profile) && is_hex_text(shorter@) && shorter.spec_bytes().len()
        <= profile.spec_bytes().len() {
        crate::checks::lemma_smaller_profile_accepted(
            shorter.spec_bytes().len(),
            profile.spec_bytes().len(),
        );
    }
}

/// The answer to a profile change before the store is touched: `None` to go on where
/// the picture is acceptable, else the refusal.
pub fn set_profile_check<'a>(profile: &str, date: String) -> (r: Option<DefaultResponse<'a>>)
    ensures
        r is None <==> acceptable_profile(profile),
        is_hex_text(profile@) && rounded_mebibytes(profile.spec_bytes().len()) <= 5 ==> r is None,
        r is None ==> is_hex_text(profile@) && rounded_mebibytes(profile.spec_bytes().len()) <= 5,
        !is_hex_text(profile@) ==> (r matches Some(x) && x.is(
            "The profile is invalid; it must be hexadecimal string."@,
            false,
            date,
        )),
        is_hex_text(profile@) && rounded_mebibytes(profile.spec_bytes().len()) > 5 ==> (r matches Some(x) && x.is(
            "The profile is invalid; it must be less than 5 MB."@,
            false,
            date,
        )),
{
    if !is_hex(profile) {
        return Some(reply("The profile is invalid; it must be hexadecimal string.", false, date));
    }
    if !check_img_or_video_size(profile.as_bytes()) {
        return Some(reply("The profile is invalid; it must be less than 5 MB.", false, date));
    }
    None
}

/// The answer to a profile change, given whether the store updated the account.
pub fn set_profile_reply<'a>(updated: bool, date: String) -> (r: DefaultResponse<'a>)
    ensures
        updated ==> r.is("The profile has been updated."@, true, date),
        !updated ==> r.is("The profile could not be updated."@, false, date),
{
    if updated {
        reply("The profile has been updated.", true, date)
    } else {
        reply("The profile could not be updated.", false, date)
    }
}

/// The answer to a profile request once the requester's contacts were checked:
/// `None` to go on where the contact is one of them, else the refusal.
pub fn get_profile_contact_checked<'a>(in_contacts: bool, date: String) -> (r: Option<ProfileResponse<'a>>)
    ensures
        in_contacts ==> r is None,
        !in_contacts ==> (r matches Some(x) && x.is(
            "The contact does not formulate in the account."@,
            false,
            None,
            date,
        )),
{
    if in_contacts {
        None
    } else {
        Some(ProfileResponse {
            title: TITLE,
            message: "The contact does not formulate in the account.",
            success: false,
            profile: None,
            date,
        })
    }
}

/// The answer to a profile request, given the profile the store returned.
pub fn get_profile_reply<'a>(profile: Option<String>, date: String) -> (r: ProfileResponse<'a>)
    ensures
        profile is None ==> r.is("The profile could not be found."@, false, None, date),
        profile is Some ==> r.is("The profile has been found."@, true, profile, date),
{
    match profile {
        None => ProfileResponse {
            title: TITLE,
            message: "The profile could not be found.",
            success: false,
            profile: None,
            date,
        },
        Some(p) => ProfileResponse {
            title: TITLE,
            message: "The profile has been found.",
            success: true,
            profile: Some(p),
            date,
        },
    }
}

} // verus!
