//! The question that is put to the user once a new version is installed.
//!
//! It is shown in a dialog with two ways out: to confirm means to restart
//! now, to cancel means to keep working on the running version.

use vstd::prelude::*;

verus! {

/// The title of the dialog.
pub fn title() -> (text: &'static str)
    ensures
        text@ == "Update"@,
{
    "Update"
}

/// The question itself.
pub fn message() -> (text: &'static str)
    ensures
        text@ == "Update ready, would you like to restart to update?"@,
{
    "Update ready, would you like to restart to update?"
}

} // verus!
