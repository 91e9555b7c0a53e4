//! The hosted services that take part in automatic login.

use vstd::prelude::*;
use crate::text::same_text;
use crate::window::WindowName;

verus! {

/// A hosted chat service for which a login script exists.
#[derive(Clone, Copy, Debug, PartialEq, Eq, Hash, Structural)]
pub enum Service {
    Gemini,
    Poe,
}

impl Service {
    /// The name by which credentials and scripts are keyed.
    pub open spec fn label(self) -> Seq<char> {
        match self {
            Service::Gemini => "gemini"@,
            Service::Poe => "poe"@,
        }
    }

    /// The service that carries `label`, if there is one.
    pub open spec fn named(label: Seq<char>) -> Option<Service> {
        if label == "gemini"@ {
            Some(Service::Gemini)
        } else if label == "poe"@ {
            Some(Service::Poe)
        } else {
            None
        }
    }

    /// The service hosted in the window `name`; the settings window hosts none.
    pub open spec fn hosted_in(name: WindowName) -> Option<Service> {
        match name {
            WindowName::Gemini => Some(Service::Gemini),
            WindowName::Poe => Some(Service::Poe),
            WindowName::Settings => None,
        }
    }

    /// Returns the name by which credentials and scripts are keyed.
    pub fn as_str(self) -> (label: &'static str)
        ensures
            label@ == self.label(),
    {
        match self {
            Service::Gemini => "gemini",
            Service::Poe => "poe",
        }
    }

    /// Looks a service up by its name. The comparison is exact: any other
    /// spelling is an unknown service.
    pub fn parse(label: &str) -> (service: Option<Service>)
        ensures
            service == Service::named(label@),
    {
        if same_text(label, "gemini") {
            Some(Service::Gemini)
        } else if same_text(label, "poe") {
            Some(Service::Poe)
        } else {
            None
        }
    }

    /// Returns the service hosted in the window `name`, if it hosts one.
    pub fn of_window(name: WindowName) -> (service: Option<Service>)
        ensures
            service == Service::hosted_in(name),
    {
        match name {
            WindowName::Gemini => Some(Service::Gemini),
            WindowName::Poe => Some(Service::Poe),
            WindowName::Settings => None,
        }
    }
}

/// Every service is found again under its own name.
pub proof fn lemma_service_label_round_trip(service: Service)
    ensures
        Service::named(service.label()) == Some(service),
{
    reveal_strlit("gemini");
    reveal_strlit("poe");
    assert("gemini"@.len() == 6);
    assert("poe"@.len() == 3);
}

/// A window that hosts a service carries that service's name.
pub proof fn lemma_hosted_service_shares_label(name: WindowName)
    ensures
        Service::hosted_in(name) matches Some(service) ==> service.label() == name.label(),
{
}

} // verus!
