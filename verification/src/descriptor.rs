//! Finding an interface in a USB configuration descriptor.
//!
//! A configuration descriptor is a chain of descriptors. Each starts with its
//! own length and its type; an interface descriptor has type 4 and carries
//! the interface's number in its third byte.

use vstd::prelude::*;

verus! {

/// Type of an interface descriptor.
pub const INTERFACE_DESCRIPTOR: u8 = 4;

/// Where the interface descriptor of `iface_num` starts, walking the chain
/// from the descriptor at `idx`. The walk ends without a find at a
/// descriptor of length 0, at the end of the bytes, and at a descriptor that
/// the bytes cut short.
pub open spec fn find_from(descriptors: Seq<u8>, idx: int, iface_num: u8) -> Option<int>
    decreases descriptors.len() - idx,
{
    if idx < 0 || idx + 1 >= descriptors.len() || descriptors[idx] == 0 {
        None
    } else if descriptors[idx + 1] == INTERFACE_DESCRIPTOR && idx + 2 >= descriptors.len() {
        None
    } else if descriptors[idx + 1] == INTERFACE_DESCRIPTOR && descriptors[idx + 2] == iface_num {
        Some(idx)
    } else if idx + descriptors[idx] > descriptors.len() {
        None
    } else {
        find_from(descriptors, idx + descriptors[idx], iface_num)
    }
}

/// Where the interface descriptor of `iface_num` starts in the
/// configuration descriptor, if the chain holds one.
pub fn find_iface_pos(descriptors: &[u8], iface_num: u8) -> (pos: Option<usize>)
    ensures
        pos is Some <==> find_from(descriptors@, 0, iface_num) is Some,
        pos matches Some(at) ==> find_from(descriptors@, 0, iface_num) == Some(at as int) && at
            + 2 < descriptors@.len() && descriptors@[at + 1] == INTERFACE_DESCRIPTOR
            && descriptors@[at + 2] == iface_num,
{
    let mut idx: usize = 0;
    while idx < descriptors.len()
        invariant
            find_from(descriptors@, 0, iface_num) == find_from(descriptors@, idx as int, iface_num),
        decreases descriptors@.len() - idx,
    {
        let len = descriptors[idx];
        if len == 0 || idx + 1 >= descriptors.len() {
            return None;
        }
        if descriptors[idx + 1] == INTERFACE_DESCRIPTOR {
            if idx + 2 >= descriptors.len() {
                return None;
            }
            if descriptors[idx + 2] == iface_num {
                return Some(idx);
            }
        }
        if len as usize > descriptors.len() - idx {
            return None;
        }
        idx += len as usize;
    }
    None
}

} // verus!
