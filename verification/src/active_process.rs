//! The process captures are currently being collected for, shared by the
//! main window, the floating widget and the tray.

use vstd::prelude::*;

verus! {

/// The active process with its project, as shown across the app.
pub struct ActiveProcessInfo {
    pub process_id: String,
    pub process_name: String,
    pub project_id: String,
    pub project_name: String,
}

pub struct ActiveProcessInfoView {
    pub process_id: Seq<char>,
    pub process_name: Seq<char>,
    pub project_id: Seq<char>,
    pub project_name: Seq<char>,
}

impl View for ActiveProcessInfo {
    type V = ActiveProcessInfoView;

    open spec fn view(&self) -> ActiveProcessInfoView {
        ActiveProcessInfoView {
            process_id: self.process_id@,
            process_name: self.process_name@,
            project_id: self.project_id@,
            project_name: self.project_name@,
        }
    }
}

impl ActiveProcessInfo {
    /// A field-by-field copy.
    pub fn duplicate(&self) -> (r: ActiveProcessInfo)
        ensures
            r@ == self@,
    {
        ActiveProcessInfo {
            process_id: self.process_id.clone(),
            process_name: self.process_name.clone(),
            project_id: self.project_id.clone(),
            project_name: self.project_name.clone(),
        }
    }
}

/// The view of an optional active process.
pub open spec fn info_view(o: Option<ActiveProcessInfo>) -> Option<ActiveProcessInfoView> {
    match o {
        Some(i) => Some(i@),
        None => None,
    }
}

/// The active process, if any; none at start.
pub struct ActiveProcessState {
    current: Option<ActiveProcessInfo>,
}

impl ActiveProcessState {
    /// The active process, if any.
    pub closed spec fn active(&self) -> Option<ActiveProcessInfoView> {
        info_view(self.current)
    }

    /// The active process, if any.
    pub fn get(&self) -> (r: Option<ActiveProcessInfo>)
        ensures
            info_view(r) == self.active(),
    {
        match &self.current {
            Some(info) => Some(info.duplicate()),
            None => None,
        }
    }

    /// Makes `value` the active process; `None` clears it.
    pub fn set(&mut self, value: Option<ActiveProcessInfo>)
        ensures
            final(self).active() == info_view(value),
    {
        self.current = value;
    }
}

impl Default for ActiveProcessState {
    fn default() -> (r: Self)
        ensures
            r.active() is None,
    {
        ActiveProcessState { current: None }
    }
}

/// Setting a value and reading it back gives that value; setting
/// nothing clears whatever was set before.
pub proof fn lemma_set_then_get(value: Option<ActiveProcessInfo>, after: ActiveProcessState)
    requires
        after.active() == info_view(value),
    ensures
        value matches Some(v) ==> after.active() == Some(v@),
        value is None ==> after.active() is None,
{
}

} // verus!
