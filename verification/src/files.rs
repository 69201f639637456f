//! Which static page the administration panel serves.

use vstd::prelude::*;

verus! {

/// The two faces of the administration panel.
#[derive(Debug, Clone, Copy, PartialEq, Eq)]
pub enum PanelPage {
    /// The link editor, once an account exists.
    Standard,
    /// The form that creates the first account.
    NewUser,
}

/// The panel page to serve: the editor once the service is set up, the
/// account form before.
pub fn panel(is_init: bool) -> (r: PanelPage)
    ensures
        is_init ==> r == PanelPage::Standard,
        !is_init ==> r == PanelPage::NewUser,
{
    if is_init {
        PanelPage::Standard
    } else {
        PanelPage::NewUser
    }
}

} // verus!
