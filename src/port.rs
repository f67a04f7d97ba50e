use vstd::prelude::*;

verus! {

/// Position of the entry that the port menu starts on.
pub const DEFAULT_PORT_ENTRY: usize = 0;

/// The entry the port menu starts on, or `None` when there is no port to
/// offer and the menu cannot be shown.
pub fn port_menu_default(names: &Vec<String>) -> (r: Option<usize>)
    ensures
        names@.len() == 0 <==> r is None,
        names@.len() > 0 ==> r == Some(DEFAULT_PORT_ENTRY),
{
    if names.len() == 0 {
        None
    } else {
        Some(DEFAULT_PORT_ENTRY)
    }
}

/// The port identifier selected by entry `choice` of the port menu.
pub fn select_port(names: &Vec<String>, choice: usize) -> (r: String)
    requires
        choice < names@.len(),
    ensures
        r == names@[choice as int],
{
    names[choice].clone()
}

} // verus!
