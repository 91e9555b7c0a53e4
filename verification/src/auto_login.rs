//! Automatic login: when it is started, what it injects and how it ends.
//!
//! Each time the window of a service gains focus, a task of its own is started
//! in the background. Tasks know nothing of each other: none is cancelled or
//! merged with another, and two that overlap both run to their end.

use vstd::prelude::*;
use vstd::string::*;
use crate::credentials_manager::{Credentials, SCRIPT_MIDDLE};
use crate::service::Service;
use crate::window::WindowName;

verus! {

/// Seconds that a task waits before it touches the page, so that the page can
/// finish loading. The wait is a guess, not a signal: nothing is tried again
/// where the page takes longer.
pub const AUTO_LOGIN_DELAY_SECS: u64 = 2;

/// The script that is injected for a service without a login script.
pub const FALLBACK_SCRIPT: &'static str = "console.log('不支持的服务类型');";

/// Injected login script for Gemini, up to the place of the user name.
pub const GEMINI_INJECTED_HEAD: &'static str = "
            (function() {
                // 检查是否有登录表单
                const emailInput = document.querySelector('input[type=\"email\"]');
                const passwordInput = document.querySelector('input[type=\"password\"]');
                const loginButton = document.querySelector('button[type=\"submit\"]');

                if (emailInput && passwordInput && loginButton) {
                    // 填充凭证
                    emailInput.value = \"";

/// Injected login script for Poe, up to the place of the user name.
pub const POE_INJECTED_HEAD: &'static str = "
            (function() {
                // 检查是否有登录表单
                const emailInput = document.querySelector('input[name=\"email\"]');
                const passwordInput = document.querySelector('input[name=\"password\"]');
                const loginButton = document.querySelector('button[type=\"submit\"]');

                if (emailInput && passwordInput && loginButton) {
                    // 填充凭证
                    emailInput.value = \"";

/// What follows the password in an injected login script.
pub const INJECTED_TAIL: &'static str = "\";

                    // 点击登录按钮
                    setTimeout(() => {
                        loginButton.click();
                    }, 500);

                    return true;
                }
                return false;
            })()
            ";

/// A background task that logs in at `service` after `delay_secs` seconds.
#[derive(Clone, Copy, Debug, PartialEq, Eq, Hash, Structural)]
pub struct AutoLoginTask {
    pub service: Service,
    pub delay_secs: u64,
}

/// One step of a background task.
#[derive(Clone, Copy, Debug, PartialEq, Eq, Hash, Structural)]
pub enum TaskStep {
    /// Sleep for so many seconds.
    Wait(u64),
    /// Inject the browser emulation script into the window.
    InjectEmulation,
    /// Look the credentials of the service up and, where there are any, inject
    /// its login script.
    AutoLogin(Service),
}

/// The task that a change of focus of the window `name` starts: one for the
/// service that the window hosts when the window gains focus, none when it
/// loses focus or hosts no service.
pub open spec fn task_on_focus(name: WindowName, focused: bool) -> Option<AutoLoginTask> {
    match Service::hosted_in(name) {
        Some(service) if focused => Some(
            AutoLoginTask { service, delay_secs: AUTO_LOGIN_DELAY_SECS },
        ),
        _ => None,
    }
}

/// Decides whether a change of focus starts a login task. The answer depends
/// on the event alone, not on any event before it: every gain of focus of a
/// service window starts a task of its own.
pub fn on_focus_changed(name: WindowName, focused: bool) -> (task: Option<AutoLoginTask>)
    ensures
        task == task_on_focus(name, focused),
        task is Some <==> focused && name != WindowName::Settings,
{
    if !focused {
        return None;
    }
    match Service::of_window(name) {
        Some(service) => Some(AutoLoginTask { service, delay_secs: AUTO_LOGIN_DELAY_SECS }),
        None => None,
    }
}

impl AutoLoginTask {
    /// The steps of the task in the order in which they are taken.
    pub open spec fn plan(self) -> Seq<TaskStep> {
        seq![
            TaskStep::Wait(self.delay_secs),
            TaskStep::InjectEmulation,
            TaskStep::AutoLogin(self.service),
        ]
    }

    /// Returns the steps of the task in the order in which they are taken:
    /// the wait, the emulation script, the login. A step that fails does not
    /// stop the task; its failure is dropped and the next step is taken.
    pub fn steps(&self) -> (steps: Vec<TaskStep>)
        ensures
            steps@ == self.plan(),
    {
        let mut steps: Vec<TaskStep> = Vec::new();
        steps.push(TaskStep::Wait(self.delay_secs));
        steps.push(TaskStep::InjectEmulation);
        steps.push(TaskStep::AutoLogin(self.service));
        steps
    }
}

/// The part of the injected login script of `service` that precedes the user
/// name.
pub open spec fn injected_head(service: Service) -> Seq<char> {
    match service {
        Service::Gemini => GEMINI_INJECTED_HEAD@,
        Service::Poe => POE_INJECTED_HEAD@,
    }
}

/// Text of the script that is injected to log `username` in at the service
/// called `service`: its login script, or [`FALLBACK_SCRIPT`] where the name
/// is not that of a known service.
pub open spec fn injected_script_text(
    service: Seq<char>,
    username: Seq<char>,
    password: Seq<char>,
) -> Seq<char> {
    match Service::named(service) {
        Some(known) => injected_head(known) + username + SCRIPT_MIDDLE@ + password
            + INJECTED_TAIL@,
        None => FALLBACK_SCRIPT@,
    }
}

/// Builds the script that is injected to log `username` in at the service
/// called `service`. For an unknown service the script only writes a line to
/// the console of the page. User name and password are inserted as given.
pub fn generate_login_script(service: &str, username: &str, password: &str) -> (script: String)
    ensures
        script@ == injected_script_text(service@, username@, password@),
{
    let head = match Service::parse(service) {
        Some(Service::Gemini) => GEMINI_INJECTED_HEAD,
        Some(Service::Poe) => POE_INJECTED_HEAD,
        None => {
            return String::from_str(FALLBACK_SCRIPT);
        },
    };
    let mut script = String::from_str(head);
    script.append(username);
    script.append(SCRIPT_MIDDLE);
    script.append(password);
    script.append(INJECTED_TAIL);
    script
}

/// What a login at the service called `service` does, given what the look-up
/// of its credentials returned:
///
/// * credentials were found: their login script is injected. The script
///   follows the service that was asked for, not the one that the record
///   names;
/// * the service has no record: nothing is injected, and that is no failure;
/// * the look-up failed, because the record could not be read or is not a
///   record: nothing is injected, and the failure is handed on with its
///   message.
pub open spec fn login_plan(
    service: Seq<char>,
    lookup: Result<Option<Credentials>, String>,
) -> Result<Option<Seq<char>>, Seq<char>> {
    match lookup {
        Ok(Some(record)) => Ok(
            Some(injected_script_text(service, record@.username, record@.password)),
        ),
        Ok(None) => Ok(None),
        Err(message) => Err(message@),
    }
}

/// Decides what a login at the service called `service` does, given what the
/// look-up of its credentials returned. `Ok(Some(script))` asks for the
/// injection of `script`. `Ok(None)` means that there are no stored
/// credentials: no login is attempted and nothing is injected. `Err` hands a
/// failed look-up on, message and all; nothing is injected then either. A
/// record that cannot be read is thus never taken for a missing one.
pub fn plan_auto_login(service: &str, lookup: &Result<Option<Credentials>, String>) -> (plan:
    Result<Option<String>, String>)
    ensures
        match *lookup {
            Ok(Some(record)) => plan matches Ok(Some(text)) && text@ == injected_script_text(
                service@,
                record.username@,
                record.password@,
            ),
            Ok(None) => plan matches Ok(None),
            Err(message) => plan matches Err(handed_on) && handed_on@ == message@,
        },
        match plan {
            Ok(Some(text)) => login_plan(service@, *lookup) == Ok::<Option<Seq<char>>, Seq<char>>(
                Some(text@),
            ),
            Ok(None) => login_plan(service@, *lookup) == Ok::<Option<Seq<char>>, Seq<char>>(None),
            Err(handed_on) => login_plan(service@, *lookup) == Err::<Option<Seq<char>>, Seq<char>>(
                handed_on@,
            ),
        },
{
    match lookup {
        Ok(Some(record)) => Ok(
            Some(
                generate_login_script(service, record.username.as_str(), record.password.as_str()),
            ),
        ),
        Ok(None) => Ok(None),
        Err(message) => Err(message.clone()),
    }
}

/// How a command that injects a script ends. `attempt` is `None` where there
/// was nothing to inject, and else what the window answered to the injection.
///
/// * Nothing to inject: `Ok(false)`. That is an ordinary outcome, no failure.
/// * Injected: `Ok(true)`, whatever the script then found on the page.
/// * The window refused the script: `Err` with the window's message.
pub fn injection_outcome(attempt: Option<Result<(), String>>) -> (outcome: Result<bool, String>)
    ensures
        match attempt {
            None => outcome == Ok::<bool, String>(false),
            Some(Ok(_)) => outcome == Ok::<bool, String>(true),
            Some(Err(message)) => outcome == Err::<bool, String>(message),
        },
{
    match attempt {
        None => Ok(false),
        Some(Ok(_)) => Ok(true),
        Some(Err(message)) => Err(message),
    }
}

} // verus!
