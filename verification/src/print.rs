//! The texts the tool reports with: a severity label, an optional
//! package context, and the message. Writing them to a console — and
//! any colouring — is the shell's concern.

use vstd::prelude::*;
use vstd::string::*;

verus! {

/// `label`, a separating colon, and the message.
pub open spec fn labelled(label: Seq<char>, message: Seq<char>) -> Seq<char> {
    label + ": "@ + message
}

fn labelled_text(label: &str, message: &str) -> (r: String)
    ensures
        r@ == labelled(label@, message@),
{
    let mut s = String::from_str(label);
    s.append(": ");
    s.append(message);
    assert(s@ =~= labelled(label@, message@));
    s
}

/// The text of a success report.
pub fn success(message: &str) -> (r: String)
    ensures
        r@ == labelled("SUCCESS"@, message@),
{
    labelled_text("SUCCESS", message)
}

/// The text of a warning.
pub fn warning(message: &str) -> (r: String)
    ensures
        r@ == labelled("WARNING"@, message@),
{
    labelled_text("WARNING", message)
}

/// The text of an error report.
pub fn error(message: &str) -> (r: String)
    ensures
        r@ == labelled("ERROR"@, message@),
{
    labelled_text("ERROR", message)
}

/// The text of a fatal report.
pub fn fatal(message: &str) -> (r: String)
    ensures
        r@ == labelled("FATAL"@, message@),
{
    labelled_text("FATAL", message)
}

/// A reporting context scoped to one package: every text it produces
/// carries the package's name.
#[derive(Debug)]
pub struct Printer {
    pub package: String,
}

impl Printer {
    /// A reporting context for the named package.
    pub fn new(package: String) -> (r: Printer)
        ensures
            r.package == package,
    {
        Printer { package }
    }

    /// The text of a success report about this package.
    pub fn success(&self, message: &str) -> (r: String)
        ensures
            r@ == labelled("SUCCESS"@, labelled(self.package@, message@)),
    {
        let inner = labelled_text(self.package.as_str(), message);
        success(inner.as_str())
    }

    /// The text of a plain report about this package.
    pub fn info(&self, message: &str) -> (r: String)
        ensures
            r@ == labelled(self.package@, message@),
    {
        labelled_text(self.package.as_str(), message)
    }

    /// The text of a warning about this package.
    pub fn warning(&self, message: &str) -> (r: String)
        ensures
            r@ == labelled("WARNING"@, labelled(self.package@, message@)),
    {
        let inner = labelled_text(self.package.as_str(), message);
        warning(inner.as_str())
    }

    /// The text of a fatal report about this package.
    pub fn fatal(&self, message: &str) -> (r: String)
        ensures
            r@ == labelled("FATAL"@, labelled(self.package@, message@)),
    {
        let inner = labelled_text(self.package.as_str(), message);
        fatal(inner.as_str())
    }
}

} // verus!
