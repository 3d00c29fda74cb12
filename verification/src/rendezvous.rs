//! The two rendezvous points between the host and its plugins.

use vstd::prelude::*;
use vstd::string::*;

verus! {

/// The address on which the host publishes events and the plugins subscribe.
pub const BENDER_TO_PLUGIN: &'static str = "ipc:///tmp/bender2plugin.ipc";

/// The address to which the plugins push commands and from which the host pulls.
pub const PLUGIN_TO_BENDER: &'static str = "ipc:///tmp/plugin2bender.ipc";

/// The permissions that the host gives to the file of a rendezvous point once
/// it is bound: plugins run as other users and must be able to open it.
pub const SOCKET_MODE: u32 = 0o777;

/// The file behind an address: what follows `ipc://`. An address of another
/// scheme has none.
pub open spec fn ipc_file(address: Seq<char>) -> Option<Seq<char>> {
    if address.len() >= 6 && address.take(6) == "ipc://"@ {
        Some(address.skip(6))
    } else {
        None
    }
}

/// The path of the file behind an `ipc://` address.
pub fn ipc_path(address: &str) -> (r: Option<String>)
    ensures
        match r {
            Some(path) => ipc_file(address@) == Some(path@),
            None => ipc_file(address@) is None,
        },
{
    proof {
        reveal_strlit("ipc://");
    }
    let len = address.unicode_len();
    if len < 6 {
        return None;
    }
    let scheme = "ipc://";
    let mut i: usize = 0;
    while i < 6
        invariant
            i <= 6,
            6 <= len,
            len == address@.len(),
            scheme@ == "ipc://"@,
            scheme@.len() == 6,
            forall|j: int| 0 <= j < i ==> address@[j] == scheme@[j],
        decreases 6 - i,
    {
        if address.get_char(i) != scheme.get_char(i) {
            proof {
                assert(address@.take(6)[i as int] != scheme@[i as int]);
            }
            return None;
        }
        i = i + 1;
    }
    proof {
        assert(address@.take(6) == scheme@);
    }
    Some(address.substring_char(6, len).to_owned())
}

} // verus!
