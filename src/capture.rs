//! Network interfaces: their description, and the choice of the one to watch.
use vstd::prelude::*;
use crate::error::NetGuardError;

verus! {

/// A network interface as listed to the user.
#[derive(Clone, Debug)]
pub struct InterfaceInfo {
    pub name: String,
    pub description: Option<String>,
    pub mac: Option<String>,
    pub ips: Vec<String>,
}

/// What the choice of an interface looks at.
#[derive(Clone, Debug)]
pub struct InterfaceStatus {
    pub name: String,
    pub has_addresses: bool,
    pub is_up: bool,
}

/// An interface that can be watched without being named: it is up and has
/// an address.
pub open spec fn usable(c: InterfaceStatus) -> bool {
    c.has_addresses && c.is_up
}

/// The index of the interface to watch: the first named `wanted`, or, with no
/// name given, the first usable one.
pub fn select_interface(candidates: &Vec<InterfaceStatus>, wanted: Option<String>) -> (r: Result<
    usize,
    NetGuardError,
>)
    ensures
        wanted is Some ==> match r {
            Ok(i) => i < candidates.len() && candidates@[i as int].name@ == wanted->0@ && forall|
                j: int,
            | 0 <= j < i ==> candidates@[j].name@ != wanted->0@,
            Err(e) => e == NetGuardError::InterfaceNotFound(wanted->0) && forall|j: int|
                0 <= j < candidates.len() ==> candidates@[j].name@ != wanted->0@,
        },
        wanted is None ==> match r {
            Ok(i) => i < candidates.len() && usable(candidates@[i as int]) && forall|j: int|
                0 <= j < i ==> !usable(candidates@[j]),
            Err(e) => e == NetGuardError::NoInterfaceFound && forall|j: int|
                0 <= j < candidates.len() ==> !usable(candidates@[j]),
        },
{
    let mut i: usize = 0;
    match wanted {
        Some(name) => {
            while i < candidates.len()
                invariant
                    i <= candidates.len(),
                    wanted == Some(name),
                    forall|j: int| 0 <= j < i ==> candidates@[j].name@ != name@,
                decreases candidates.len() - i,
            {
                if candidates[i].name == name {
                    return Ok(i);
                }
                i = i + 1;
            }
            Err(NetGuardError::InterfaceNotFound(name))
        },
        None => {
            while i < candidates.len()
                invariant
                    i <= candidates.len(),
                    wanted is None,
                    forall|j: int| 0 <= j < i ==> !usable(candidates@[j]),
                decreases candidates.len() - i,
            {
                if candidates[i].has_addresses && candidates[i].is_up {
                    return Ok(i);
                }
                i = i + 1;
            }
            Err(NetGuardError::NoInterfaceFound)
        },
    }
}

} // verus!
