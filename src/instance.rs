use vstd::prelude::*;

use crate::text::same_text;

verus! {

/// The language instances of the platform.
#[derive(Debug, Clone, Copy, PartialEq, Eq, Structural)]
pub enum Instance {
    De,
    En,
    Es,
    Fr,
    Hi,
    Ta,
}

/// The instance that a subdomain names, if any.
pub open spec fn instance_of(subdomain: Seq<char>) -> Option<Instance> {
    if subdomain == "de"@ {
        Some(Instance::De)
    } else if subdomain == "en"@ {
        Some(Instance::En)
    } else if subdomain == "es"@ {
        Some(Instance::Es)
    } else if subdomain == "fr"@ {
        Some(Instance::Fr)
    } else if subdomain == "hi"@ {
        Some(Instance::Hi)
    } else if subdomain == "ta"@ {
        Some(Instance::Ta)
    } else {
        None
    }
}

impl Instance {
    /// Reads an instance from its subdomain.
    pub fn parse(subdomain: &str) -> (r: Option<Instance>)
        ensures
            r == instance_of(subdomain@),
    {
        if same_text(subdomain, "de") {
            Some(Instance::De)
        } else if same_text(subdomain, "en") {
            Some(Instance::En)
        } else if same_text(subdomain, "es") {
            Some(Instance::Es)
        } else if same_text(subdomain, "fr") {
            Some(Instance::Fr)
        } else if same_text(subdomain, "hi") {
            Some(Instance::Hi)
        } else if same_text(subdomain, "ta") {
            Some(Instance::Ta)
        } else {
            None
        }
    }

}

} // verus!
