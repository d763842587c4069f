//! The texts of the system tray: its tooltip and the disabled menu entry
//! naming the active process.

use crate::active_process::ActiveProcessInfo;
use vstd::prelude::*;

verus! {

/// The tooltip and menu text for the active process `label`, if any.
pub open spec fn tray_text_spec(label: Option<Seq<char>>) -> (Seq<char>, Seq<char>) {
    match label {
        Some(l) => ("GoLive — "@ + l, "Active: "@ + l),
        None => ("GoLive"@, "No active process"@),
    }
}

/// The tooltip and menu text for the active process `label`: both name
/// it when there is one, and say plainly when there is none.
pub fn tray_texts(label: Option<&str>) -> (r: (String, String))
    ensures
        (r.0@, r.1@) == tray_text_spec(
            match label {
                Some(l) => Some(l@),
                None => None,
            },
        ),
{
    match label {
        Some(l) => {
            let mut tooltip = String::from_str("GoLive — ");
            tooltip.append(l);
            let mut menu_text = String::from_str("Active: ");
            menu_text.append(l);
            (tooltip, menu_text)
        },
        None => (String::from_str("GoLive"), String::from_str("No active process")),
    }
}

/// The label naming an active process in the tray: its name, then its
/// project's.
pub open spec fn active_label_spec(process_name: Seq<char>, project_name: Seq<char>) -> Seq<char> {
    process_name + " — "@ + project_name
}

/// The tray label of the active process, if any.
pub fn active_process_label(active: Option<&ActiveProcessInfo>) -> (r: Option<String>)
    ensures
        match active {
            Some(a) => r matches Some(l) && l@ == active_label_spec(a.process_name@, a.project_name@),
            None => r is None,
        },
{
    match active {
        Some(a) => {
            let mut label = a.process_name.clone();
            label.append(" — ");
            label.append(a.project_name.as_str());
            Some(label)
        },
        None => None,
    }
}

} // verus!
