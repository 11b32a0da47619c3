//! The management command line: `admin create` (the first administrator)
//! and `tun toggle` / `tun status` (the remote-access tunnel, through the
//! admin API). Reading input, the database and the HTTP calls are the
//! caller's; this module holds the commands, the preparation of a new
//! administrator and the reports printed.

use vstd::prelude::*;
use crate::api::admin::{prefixed_id, uuid_shaped};
use crate::auth::password::{hash_password, password_matches, MAX_PASSWORD_BYTES};
use vstd::string::StringSliceAdditionalSpecFns;
use crate::auth::totp::{generate_totp_secret, otpauth_url, totp_qrcode_datauri, totp_secret_bytes};
use crate::text::{append_str, string_views};

verus! {

/// The command line.
#[derive(Debug, Clone)]
pub struct Cli {
    pub command: Command,
}

/// The top-level commands.
#[derive(Debug, Clone)]
pub enum Command {
    /// Administrator accounts.
    Admin { action: AdminAction },
    /// The remote-access tunnel.
    Tun { action: TunAction },
}

/// Administrator commands.
#[derive(Debug, Clone)]
pub enum AdminAction {
    /// Creates an administrator (phone and password asked for when absent).
    Create {
        database_url: String,
        server_secret: String,
        phone: Option<String>,
        password: Option<String>,
        role: String,
    },
}

/// Tunnel commands.
#[derive(Debug, Clone)]
pub enum TunAction {
    /// Toggles the tunnel (closed to open, open to closed).
    Toggle { admin_url: String, token: String },
    /// Shows the tunnel's status.
    Status { admin_url: String, token: String },
}

/// The admin API address when none is given.
pub const DEFAULT_ADMIN_URL: &'static str = "http://localhost:8081";

/// The role of a new administrator when none is given.
pub const DEFAULT_ROLE: &'static str = "super_admin";

/// The issuer shown by authenticator apps.
pub const TOTP_ISSUER: &'static str = "TokenHub";

/// An administrator ready to be stored, with what is shown once.
#[derive(Debug, Clone)]
pub struct NewAdmin {
    pub id: String,
    pub phone: String,
    pub password_hash: String,
    pub totp_secret: String,
    pub roles: Vec<String>,
    /// The `otpauth://` URL to enrol the secret.
    pub otpauth_url: String,
}

/// Prepares a new administrator: phone and password must not be empty;
/// a fresh TOTP secret, the password's argon2 hash, an id `adm_<uuid>`,
/// the one role, and the enrolment URL. It fails otherwise only for a
/// password longer than argon2 accepts.
pub fn prepare_admin(phone: String, password: &str, role: &str) -> (r: Result<NewAdmin, String>)
    ensures
        (phone@.len() == 0 || password@.len() == 0) ==> (r matches Err(m) && m@ == "phone and password must not be empty"@),
        r matches Ok(a) ==> {
            &&& phone@.len() > 0 && password@.len() > 0
            &&& a.phone@ == phone@
            &&& password_matches(password@, a.password_hash@)
            &&& (totp_secret_bytes(a.totp_secret@) matches Some(b) && b.len() == 20)
            &&& exists|u: Seq<char>| uuid_shaped(u) && a.id@ == "adm_"@ + u
            &&& string_views(a.roles@) == seq![role@]
            &&& a.otpauth_url@ == otpauth_url(a.totp_secret@, "TokenHub"@, phone@)
        },
        (phone@.len() > 0 && password@.len() > 0) ==>
            (r is Ok <==> password.spec_bytes().len() <= MAX_PASSWORD_BYTES),
        r matches Err(m) ==> ((phone@.len() > 0 && password@.len() > 0) ==> m@ == "password hashing failed"@),
{
    if phone.as_str().is_empty() || password.is_empty() {
        return Err(String::from_str("phone and password must not be empty"));
    }
    let totp_secret = generate_totp_secret();
    let password_hash = match hash_password(password) {
        Ok(h) => h,
        Err(_) => return Err(String::from_str("password hashing failed")),
    };
    let id = prefixed_id("adm_");
    let mut roles: Vec<String> = Vec::new();
    roles.push(String::from_str(role));
    assert(string_views(roles@) =~= seq![role@]);
    let url = match totp_qrcode_datauri(totp_secret.as_str(), TOTP_ISSUER, phone.as_str()) {
        Ok(u) => u,
        Err(_) => return Err(String::from_str("failed to generate otpauth url")),
    };
    Ok(NewAdmin { id, phone, password_hash, totp_secret, roles, otpauth_url: url })
}

fn line(parts_a: &str, parts_b: &str) -> (r: String)
    ensures
        r@ == parts_a@ + parts_b@,
{
    let mut s = String::new();
    append_str(&mut s, parts_a);
    append_str(&mut s, parts_b);
    assert(s@ =~= parts_a@ + parts_b@);
    s
}

/// A field of the admin API's answer, or `N/A`.
pub open spec fn or_na(v: Option<Seq<char>>) -> Seq<char> {
    match v {
        Some(s) => s,
        None => "N/A"@,
    }
}

fn or_na_str<'a>(v: Option<&'a str>) -> (r: &'a str)
    ensures
        r@ == or_na(match v { Some(s) => Some(s@), None => None }),
{
    match v {
        Some(s) => s,
        None => "N/A",
    }
}

/// The lines printed after a toggle.
pub open spec fn toggle_report_spec(active: bool, service_id: Option<Seq<char>>, url: Option<Seq<char>>) -> Seq<Seq<char>> {
    if active {
        seq![
            "\n✓ Tun 通道已开通！"@,
            "  Service ID: "@ + or_na(service_id),
            "  访问地址:   https://"@ + or_na(url),
            "\n  手机端访问此地址即可远程管理 TokenHub。"@,
        ]
    } else {
        seq!["\n✓ Tun 通道已关闭。"@]
    }
}

/// Renders the lines printed after a toggle.
pub fn toggle_report(active: bool, service_id: Option<&str>, url: Option<&str>) -> (r: Vec<String>)
    ensures
        string_views(r@) == toggle_report_spec(
            active,
            match service_id { Some(s) => Some(s@), None => None },
            match url { Some(s) => Some(s@), None => None },
        ),
{
    let mut out: Vec<String> = Vec::new();
    if active {
        out.push(String::from_str("\n✓ Tun 通道已开通！"));
        out.push(line("  Service ID: ", or_na_str(service_id)));
        out.push(line("  访问地址:   https://", or_na_str(url)));
        out.push(String::from_str("\n  手机端访问此地址即可远程管理 TokenHub。"));
    } else {
        out.push(String::from_str("\n✓ Tun 通道已关闭。"));
    }
    assert(string_views(out@) =~= toggle_report_spec(
        active,
        match service_id { Some(s) => Some(s@), None => None },
        match url { Some(s) => Some(s@), None => None },
    ));
    out
}

/// The lines printed by the status command.
pub open spec fn status_report_spec(active: bool, service_id: Option<Seq<char>>, url: Option<Seq<char>>) -> Seq<Seq<char>> {
    seq![
        "\nTun 通道状态："@,
        "  活跃:      "@ + (if active { "✅ 是"@ } else { "❌ 否"@ }),
        "  Service ID: "@ + or_na(service_id),
        "  访问地址:   "@ + or_na(url),
    ]
}

/// Renders the lines printed by the status command.
pub fn status_report(active: bool, service_id: Option<&str>, url: Option<&str>) -> (r: Vec<String>)
    ensures
        string_views(r@) == status_report_spec(
            active,
            match service_id { Some(s) => Some(s@), None => None },
            match url { Some(s) => Some(s@), None => None },
        ),
{
    let mut out: Vec<String> = Vec::new();
    out.push(String::from_str("\nTun 通道状态："));
    out.push(line("  活跃:      ", if active { "✅ 是" } else { "❌ 否" }));
    out.push(line("  Service ID: ", or_na_str(service_id)));
    out.push(line("  访问地址:   ", or_na_str(url)));
    assert(string_views(out@) =~= status_report_spec(
        active,
        match service_id { Some(s) => Some(s@), None => None },
        match url { Some(s) => Some(s@), None => None },
    ));
    out
}

} // verus!
