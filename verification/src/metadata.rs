//! The application's own metadata: the developer's e-mail address and the
//! URL it is reached at.

use vstd::prelude::*;

verus! {

/// Represents an e-mail.
#[derive(Debug, Clone)]
pub struct Email(
    /// The address of the e-mail, e.g: "john.doe@email.com".
    pub String,
);

impl Email {
    /// Wraps the e-mail into an URL format that can be opened in the default
    /// mail client.
    pub fn as_url(&self) -> (r: String)
        ensures
            r@ == "mailto:"@ + self.0@,
    {
        let mut url = String::from_str("mailto:");
        url.append(self.0.as_str());
        url
    }
}

} // verus!
