//! First-run setup of an instance: its status, the first administrator
//! account, and the settings written when setup completes.
use vstd::prelude::*;

use crate::admin::Role;
use crate::lastfm::flag_on;
use crate::sandbox::opt_str_view;
use crate::text::{byte_len, chars_of, dec, push_decimal, str_eq, string_of};

verus! {

/// Where setup stands.
#[derive(Debug, Clone, Copy, PartialEq, Eq, Structural)]
pub struct SetupStatusResponse {
    pub setup_complete: bool,
    pub has_admin: bool,
    pub instance_private: bool,
}

/// The first administrator account.
#[derive(Debug, Clone)]
pub struct SetupAdminRequest {
    pub username: String,
    pub email: String,
    pub password: String,
}

/// The instance's name and description.
#[derive(Debug, Clone)]
pub struct SetupInstanceRequest {
    pub instance_name: String,
    pub instance_description: String,
}

/// The settings chosen at the end of setup.
#[derive(Debug, Clone, Copy, PartialEq, Eq, Structural)]
pub struct SetupCompleteRequest {
    pub p2p_enabled: bool,
    pub open_registrations: bool,
    pub max_upload_size_mb: u32,
}

fn flag_is_true(setting: Option<&str>) -> (b: bool)
    ensures
        b == flag_on(opt_str_view(setting)),
{
    match setting {
        Some(v) => str_eq(v, "true"),
        None => false,
    }
}

/// Setup status from the stored `setup_complete` and `instance_private`
/// flags (on only when exactly `true`) and the number of users.
pub fn setup_status(setup_flag: Option<&str>, user_count: u64, private_flag: Option<&str>) -> (s: SetupStatusResponse)
    ensures
        s.setup_complete == flag_on(opt_str_view(setup_flag)),
        s.has_admin == (user_count > 0),
        s.instance_private == flag_on(opt_str_view(private_flag)),
{
    SetupStatusResponse {
        setup_complete: flag_is_true(setup_flag),
        has_admin: user_count > 0,
        instance_private: flag_is_true(private_flag),
    }
}

/// Why the first administrator account is refused, in the order checked:
/// an account exists already, the username is not 3 to 64 bytes, the
/// password is under 8 bytes.
pub open spec fn admin_request_problem(user_count: u64, username: Seq<char>, password: Seq<char>) -> Option<Seq<char>> {
    if user_count > 0 {
        Some("Admin account already exists"@)
    } else if byte_len(username) < 3 || byte_len(username) > 64 {
        Some("Username must be between 3 and 64 characters"@)
    } else if byte_len(password) < 8 {
        Some("Password must be at least 8 characters"@)
    } else {
        None
    }
}

/// Checks the request for the first administrator account.
pub fn check_admin_request(user_count: u64, req: &SetupAdminRequest) -> (r: Result<(), &'static str>)
    ensures
        match admin_request_problem(user_count, req.username@, req.password@) {
            None => r is Ok,
            Some(m) => r matches Err(e) && e@ == m,
        },
{
    if user_count > 0 {
        return Err("Admin account already exists");
    }
    let n = req.username.as_str().as_bytes().len();
    if n < 3 || n > 64 {
        return Err("Username must be between 3 and 64 characters");
    }
    if req.password.as_str().as_bytes().len() < 8 {
        return Err("Password must be at least 8 characters");
    }
    Ok(())
}

/// The answer to a refused request for the first administrator account:
/// 403 Forbidden when an account exists already, else 400 Bad Request, with
/// the problem (see `admin_request_problem`); `None` when it may be made.
pub fn admin_refusal(user_count: u64, req: &SetupAdminRequest) -> (r: Option<(u16, &'static str)>)
    ensures
        match admin_request_problem(user_count, req.username@, req.password@) {
            None => r is None,
            Some(m) => r matches Some((status, e)) && e@ == m && status == (if user_count > 0 {
                403u16
            } else {
                400u16
            }),
        },
{
    match check_admin_request(user_count, req) {
        Ok(()) => None,
        Err(e) => if user_count > 0 {
            Some((403, e))
        } else {
            Some((400, e))
        },
    }
}

/// The account setup creates.
#[derive(Debug, Clone)]
pub struct NewAdminAccount {
    pub username: String,
    pub email: String,
    pub password_hash: String,
    pub role: Role,
    pub is_banned: bool,
}

/// The first administrator account of a request that passed
/// `check_admin_request`: the request's username and email, the hash of its
/// password (never the password), the admin role, not banned.
pub fn admin_account(req: SetupAdminRequest, password_hash: String) -> (a: NewAdminAccount)
    ensures
        a.username == req.username,
        a.email == req.email,
        a.password_hash == password_hash,
        a.role == Role::Admin,
        !a.is_banned,
{
    NewAdminAccount { username: req.username, email: req.email, password_hash, role: Role::Admin, is_banned: false }
}

/// The later setup steps need an administrator, and setup not yet done.
pub fn check_setup_step(role: &str, setup_complete: bool) -> (r: Result<(), &'static str>)
    ensures
        r is Ok <==> (role@ == "admin"@ && !setup_complete),
        role@ != "admin"@ ==> (r matches Err(m) && m@ == "Admin access required"@),
        role@ == "admin"@ && setup_complete ==> (r matches Err(m) && m@ == "Setup already complete"@),
{
    if !str_eq(role, "admin") {
        return Err("Admin access required");
    }
    if setup_complete {
        return Err("Setup already complete");
    }
    Ok(())
}

/// The text a flag is stored as.
pub open spec fn flag_text(b: bool) -> Seq<char> {
    if b {
        "true"@
    } else {
        "false"@
    }
}

fn flag_string(b: bool) -> (s: String)
    ensures
        s@ == flag_text(b),
{
    if b {
        string_of(&chars_of("true"))
    } else {
        string_of(&chars_of("false"))
    }
}

/// A flag written by setup reads back as it was written: `setup_status`
/// reads the text `flag_text(b)` as on exactly when `b` holds (a flag
/// written off is never read as on, and only the text `true` is).
pub proof fn law_flag_reads_back(b: bool)
    ensures
        flag_on(Some(flag_text(b))) == b,
        forall|v: Seq<char>| flag_on(Some(v)) ==> v == flag_text(true),
{
    reveal_strlit("true");
    reveal_strlit("false");
    assert("false"@.len() != "true"@.len());
}

/// The settings written, in order, when setup completes.
pub fn completion_settings(req: SetupCompleteRequest) -> (v: Vec<(String, String)>)
    ensures
        v@.len() == 4,
        v@[0].0@ == "p2p_enabled"@ && v@[0].1@ == flag_text(req.p2p_enabled),
        v@[1].0@ == "open_registrations"@ && v@[1].1@ == flag_text(req.open_registrations),
        v@[2].0@ == "max_upload_size_mb"@ && v@[2].1@ == dec(req.max_upload_size_mb as nat),
        v@[3].0@ == "setup_complete"@ && v@[3].1@ == "true"@,
{
    let mut size: Vec<char> = Vec::new();
    push_decimal(&mut size, req.max_upload_size_mb as u64);
    let mut v: Vec<(String, String)> = Vec::new();
    v.push((string_of(&chars_of("p2p_enabled")), flag_string(req.p2p_enabled)));
    v.push((string_of(&chars_of("open_registrations")), flag_string(req.open_registrations)));
    v.push((string_of(&chars_of("max_upload_size_mb")), string_of(&size)));
    v.push((string_of(&chars_of("setup_complete")), string_of(&chars_of("true"))));
    v
}

} // verus!
