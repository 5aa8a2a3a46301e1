//! The serial ports of the host, by name.

use vstd::prelude::*;

verus! {

/// What the host reports of one serial port.
#[derive(Debug, PartialEq, Eq)]
pub struct PortInfo {
    /// The name under which the port can be opened.
    pub port_name: String,
}

/// The names that a scan of the host brought, in the order of the scan. A
/// scan that failed brought none.
pub open spec fn names_found(scan: Result<Vec<PortInfo>, String>) -> Seq<Seq<char>> {
    match scan {
        Ok(ports) => ports@.map_values(|port: PortInfo| port.port_name@),
        Err(_) => Seq::empty(),
    }
}

/// Lists the ports found by `scan`, the host's answer when asked for its
/// serial ports. A failed scan is not told apart from a host without ports:
/// both give the empty list.
pub fn list_ports(scan: &Result<Vec<PortInfo>, String>) -> (names: Vec<String>)
    ensures
        names@.map_values(|name: String| name@) == names_found(*scan),
        names@.len() == names_found(*scan).len(),
{
    let mut names: Vec<String> = Vec::new();
    match scan {
        Ok(ports) => {
            let mut i: usize = 0;
            while i < ports.len()
                invariant
                    i <= ports.len(),
                    names@.map_values(|name: String| name@) == ports@.take(i as int).map_values(
                        |port: PortInfo| port.port_name@,
                    ),
                decreases ports.len() - i,
            {
                let name = ports[i].port_name.clone();
                proof {
                    assert(names@.push(name).map_values(|name: String| name@)
                        =~= names@.map_values(|name: String| name@).push(name@));
                }
                names.push(name);
                i += 1;
            }
        },
        Err(_) => {},
    }
    names
}

} // verus!
