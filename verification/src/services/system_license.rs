use vstd::prelude::*;
use crate::handlers::auto_publish_flow::copy_templates;
use crate::types::license::{find_template, template_position, SystemLicense};

verus! {

/// The templates of the system as they were loaded last.
pub struct SystemLicenseCache {
    licenses: Vec<SystemLicense>,
}

impl View for SystemLicenseCache {
    type V = Seq<SystemLicense>;

    closed spec fn view(&self) -> Seq<SystemLicense> {
        self.licenses@
    }
}

impl SystemLicenseCache {
    /// A cache that holds the given templates.
    pub fn new(licenses: Vec<SystemLicense>) -> (r: SystemLicenseCache)
        ensures
            r@ == licenses@,
    {
        SystemLicenseCache { licenses }
    }

    /// All templates, in the order in which they were loaded.
    pub fn get_all(&self) -> (r: Vec<SystemLicense>)
        ensures
            r@ == self@,
    {
        copy_templates(&self.licenses)
    }

    /// The first template with the given name.
    pub fn get_by_name(&self, name: &str) -> (r: Option<SystemLicense>)
        ensures
            r.is_some() == (template_position(self@, name@) < self@.len()),
            r.is_some() ==> r.unwrap() == self@[template_position(self@, name@)],
    {
        match find_template(&self.licenses, name) {
            Some(position) => Some(self.licenses[position].duplicate()),
            None => None,
        }
    }

    /// Replaces the templates by a newly loaded list.
    pub fn reload(&mut self, licenses: Vec<SystemLicense>)
        ensures
            final(self)@ == licenses@,
    {
        self.licenses = licenses;
    }
}

} // verus!
