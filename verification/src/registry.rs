//! Resolving the global registry: matching announced interface names
//! against the fixed allow-list and recording one bound handle per role.

use vstd::prelude::*;
use vstd::string::StrSliceExecFns;

verus! {

/// The four capability roles this client must bind before it can capture.
#[derive(Clone, Copy, Debug, PartialEq, Eq, Structural)]
pub enum Role {
    Compositor,
    Output,
    Shm,
    ScreencopyManager,
}

/// An instruction to the transport layer: bind the global `name` at
/// `version` and hold the resulting handle under `role`.
#[derive(Clone, Copy, Debug, PartialEq, Eq, Structural)]
pub struct BindDirective {
    pub role: Role,
    pub name: u32,
    pub version: u32,
}

/// Which handles are bound, by role. Each field holds the numeric name of
/// the global the handle was bound from.
#[derive(Clone, Copy, Debug, PartialEq, Eq)]
pub struct RegistryState {
    pub compositor: Option<u32>,
    pub output: Option<u32>,
    pub shm: Option<u32>,
    pub screencopy_manager: Option<u32>,
}

/// Character-by-character string equality, so interface names can be
/// matched against the allow-list inside verified code.
pub fn str_eq(a: &str, b: &str) -> (r: bool)
    ensures
        r == (a@ == b@),
{
    let alen = a.unicode_len();
    let blen = b.unicode_len();
    if alen != blen {
        return false;
    }
    let mut i: usize = 0;
    while i < alen
        invariant
            i <= alen,
            alen == a@.len(),
            alen == b@.len(),
            forall|k: int| 0 <= k < i ==> a@[k] == b@[k],
        decreases alen - i,
    {
        if a.get_char(i) != b.get_char(i) {
            return false;
        }
        i += 1;
    }
    proof {
        assert(a@ =~= b@);
    }
    true
}

/// The allow-list: which role, if any, an announced interface name binds.
pub open spec fn role_of_spec(interface: Seq<char>) -> Option<Role> {
    if interface == "zwlr_screencopy_manager_v1"@ {
        Some(Role::ScreencopyManager)
    } else if interface == "wl_output"@ {
        Some(Role::Output)
    } else if interface == "wl_compositor"@ {
        Some(Role::Compositor)
    } else if interface == "wl_shm"@ {
        Some(Role::Shm)
    } else {
        None
    }
}

pub fn role_of(interface: &str) -> (r: Option<Role>)
    ensures
        r == role_of_spec(interface@),
{
    if str_eq(interface, "zwlr_screencopy_manager_v1") {
        Some(Role::ScreencopyManager)
    } else if str_eq(interface, "wl_output") {
        Some(Role::Output)
    } else if str_eq(interface, "wl_compositor") {
        Some(Role::Compositor)
    } else if str_eq(interface, "wl_shm") {
        Some(Role::Shm)
    } else {
        None
    }
}

impl RegistryState {
    pub open spec fn init_spec() -> RegistryState {
        RegistryState { compositor: None, output: None, shm: None, screencopy_manager: None }
    }

    pub fn new() -> (s: RegistryState)
        ensures
            s == RegistryState::init_spec(),
    {
        RegistryState { compositor: None, output: None, shm: None, screencopy_manager: None }
    }

    /// Ready to capture: every required role has been bound.
    pub open spec fn ready_spec(self) -> bool {
        &&& self.compositor is Some
        &&& self.output is Some
        &&& self.shm is Some
        &&& self.screencopy_manager is Some
    }

    pub fn is_ready(&self) -> (r: bool)
        ensures
            r == self.ready_spec(),
    {
        self.compositor.is_some() && self.output.is_some() && self.shm.is_some()
            && self.screencopy_manager.is_some()
    }

    /// Which role an announcement binds in this state: the allow-list
    /// verdict, except that a second output announcement binds nothing —
    /// only the first-bound output is retained. Every other duplicate
    /// rebinds its role, so for those the last announcement wins.
    pub open spec fn bind_decision_spec(self, interface: Seq<char>) -> Option<Role> {
        match role_of_spec(interface) {
            Some(Role::Output) => if self.output is Some {
                None
            } else {
                Some(Role::Output)
            },
            r => r,
        }
    }

    /// The full bind directive an announcement produces, if any.
    pub open spec fn directive_spec(self, name: u32, interface: Seq<char>, version: u32) -> Option<
        BindDirective,
    > {
        match self.bind_decision_spec(interface) {
            None => None,
            Some(role) => Some(BindDirective { role, name, version }),
        }
    }

    /// The state after consuming one announcement.
    pub open spec fn record_spec(self, name: u32, interface: Seq<char>) -> RegistryState {
        match self.bind_decision_spec(interface) {
            None => self,
            Some(Role::Compositor) => RegistryState { compositor: Some(name), ..self },
            Some(Role::Output) => RegistryState { output: Some(name), ..self },
            Some(Role::Shm) => RegistryState { shm: Some(name), ..self },
            Some(Role::ScreencopyManager) => RegistryState {
                screencopy_manager: Some(name),
                ..self
            },
        }
    }

    /// Consume one "global announced" event: record the binding this
    /// state calls for and return the directive the transport must carry
    /// out, or `None` when the announcement is ignored.
    pub fn handle_global(&mut self, name: u32, interface: &str, version: u32) -> (r: Option<
        BindDirective,
    >)
        ensures
            *final(self) == old(self).record_spec(name, interface@),
            r == old(self).directive_spec(name, interface@, version),
    {
        match role_of(interface) {
            None => None,
            Some(Role::Compositor) => {
                self.compositor = Some(name);
                Some(BindDirective { role: Role::Compositor, name, version })
            },
            Some(Role::Output) => {
                if self.output.is_some() {
                    None
                } else {
                    self.output = Some(name);
                    Some(BindDirective { role: Role::Output, name, version })
                }
            },
            Some(Role::Shm) => {
                self.shm = Some(name);
                Some(BindDirective { role: Role::Shm, name, version })
            },
            Some(Role::ScreencopyManager) => {
                self.screencopy_manager = Some(name);
                Some(BindDirective { role: Role::ScreencopyManager, name, version })
            },
        }
    }

    /// Recording an announcement never unbinds a role: readiness, once
    /// reached, is kept.
    pub proof fn lemma_record_monotone(self, name: u32, interface: Seq<char>)
        ensures
            self.ready_spec() ==> self.record_spec(name, interface).ready_spec(),
            self.record_spec(name, interface).output is Some <==> (self.output is Some
                || role_of_spec(interface) == Some(Role::Output)),
            self.output is Some ==> self.record_spec(name, interface).output == self.output,
    {
    }
}

} // verus!
