//! Stored credentials and the login scripts that are built from them.

use vstd::prelude::*;
use vstd::string::*;
use crate::service::Service;

verus! {

/// The login of one user at one service, as it is kept on disk.
#[derive(Clone, Debug, PartialEq, Eq)]
pub struct Credentials {
    pub username: String,
    pub password: String,
    pub service: String,
}

/// What a record says, as plain text.
pub struct CredentialsText {
    pub username: Seq<char>,
    pub password: Seq<char>,
    pub service: Seq<char>,
}

impl View for Credentials {
    type V = CredentialsText;

    open spec fn view(&self) -> CredentialsText {
        CredentialsText {
            username: self.username@,
            password: self.password@,
            service: self.service@,
        }
    }
}

/// Directory, relative to the working directory, that holds one record per service.
pub const CREDENTIALS_DIR: &'static str = "credentials";

/// What precedes the service name in the path of its record.
pub const CREDENTIALS_PATH_PREFIX: &'static str = "credentials/";

/// What follows the service name in the path of its record.
pub const CREDENTIALS_PATH_SUFFIX: &'static str = ".json";

/// Message of the failure that an unknown service name yields.
pub const UNSUPPORTED_SERVICE: &'static str = "不支持的服务类型";

/// Login script for Gemini, up to the place of the user name.
pub const GEMINI_SCRIPT_HEAD: &'static str = "
            (function() {
                // 检查是否有登录表单
                const emailInput = document.querySelector('input[type=\"email\"]');
                const passwordInput = document.querySelector('input[type=\"password\"]');
                const loginButton = document.querySelector('button[type=\"submit\"]');
                
                if (emailInput && passwordInput && loginButton) {
                    // 填充凭证
                    emailInput.value = \"";

/// Login script for Poe, up to the place of the user name.
pub const POE_SCRIPT_HEAD: &'static str = "
            (function() {
                // 检查是否有登录表单
                const emailInput = document.querySelector('input[name=\"email\"]');
                const passwordInput = document.querySelector('input[name=\"password\"]');
                const loginButton = document.querySelector('button[type=\"submit\"]');
                
                if (emailInput && passwordInput && loginButton) {
                    // 填充凭证
                    emailInput.value = \"";

/// What stands between the user name and the password in every login script.
pub const SCRIPT_MIDDLE: &'static str = "\";
                    passwordInput.value = \"";

/// What follows the password in a login script.
pub const SCRIPT_TAIL: &'static str = "\";
                    
                    // 点击登录按钮
                    setTimeout(() => {
                        loginButton.click();
                    }, 500);
                    
                    return true;
                }
                return false;
            })()
            ";

impl Credentials {
    /// Builds the record of `username` and `password` at `service`.
    pub fn new(service: &str, username: &str, password: &str) -> (record: Credentials)
        ensures
            record@ == (CredentialsText {
                username: username@,
                password: password@,
                service: service@,
            }),
    {
        Credentials {
            username: String::from_str(username),
            password: String::from_str(password),
            service: String::from_str(service),
        }
    }
}

/// Path of the record of the service called `service`.
pub open spec fn credentials_path_text(service: Seq<char>) -> Seq<char> {
    CREDENTIALS_PATH_PREFIX@ + service + CREDENTIALS_PATH_SUFFIX@
}

/// Returns the path, relative to the working directory, of the file that holds
/// the record of `service`. The name is used as it is given.
pub fn credentials_path(service: &str) -> (path: String)
    ensures
        path@ == credentials_path_text(service@),
{
    let mut path = String::from_str(CREDENTIALS_PATH_PREFIX);
    path.append(service);
    path.append(CREDENTIALS_PATH_SUFFIX);
    path
}

/// Records are keyed by the service name: two names share a path only if they
/// are the same name.
pub proof fn lemma_credentials_path_injective(a: Seq<char>, b: Seq<char>)
    requires
        credentials_path_text(a) == credentials_path_text(b),
    ensures
        a == b,
{
    let prefix = CREDENTIALS_PATH_PREFIX@;
    let suffix = CREDENTIALS_PATH_SUFFIX@;
    let pa = credentials_path_text(a);
    let pb = credentials_path_text(b);
    assert(pa.len() == prefix.len() + a.len() + suffix.len());
    assert(pb.len() == prefix.len() + b.len() + suffix.len());
    assert forall|i: int| 0 <= i < a.len() implies a[i] == b[i] by {
        assert(pa[prefix.len() + i] == a[i]);
        assert(pb[prefix.len() + i] == b[i]);
    }
    assert(a =~= b);
}

/// The part of the login script of `service` that precedes the user name.
pub open spec fn script_head(service: Service) -> Seq<char> {
    match service {
        Service::Gemini => GEMINI_SCRIPT_HEAD@,
        Service::Poe => POE_SCRIPT_HEAD@,
    }
}

/// Text of the script that fills the login form of `service` with `username`
/// and `password` and submits it. Both are inserted as they are given.
pub open spec fn login_script_text(
    service: Service,
    username: Seq<char>,
    password: Seq<char>,
) -> Seq<char> {
    script_head(service) + username + SCRIPT_MIDDLE@ + password + SCRIPT_TAIL@
}

/// Builds the script that logs `username` in at the service called `service`.
///
/// The script looks for the e-mail and password inputs and the submit button of
/// the service's login page. Where all three are present it fills the inputs,
/// clicks the button half a second later and evaluates to `true`; otherwise it
/// evaluates to `false` and changes nothing.
///
/// An unknown service name is no fault of the caller's: it is answered with
/// `Err` that holds [`UNSUPPORTED_SERVICE`].
pub fn generate_login_script(service: &str, username: &str, password: &str) -> (result: Result<
    String,
    String,
>)
    ensures
        match Service::named(service@) {
            Some(known) => result matches Ok(script) && script@ == login_script_text(
                known,
                username@,
                password@,
            ),
            None => result matches Err(message) && message@ == UNSUPPORTED_SERVICE@,
        },
{
    let head = match Service::parse(service) {
        Some(Service::Gemini) => GEMINI_SCRIPT_HEAD,
        Some(Service::Poe) => POE_SCRIPT_HEAD,
        None => {
            return Err(String::from_str(UNSUPPORTED_SERVICE));
        },
    };
    let mut script = String::from_str(head);
    script.append(username);
    script.append(SCRIPT_MIDDLE);
    script.append(password);
    script.append(SCRIPT_TAIL);
    Ok(script)
}

} // verus!
