//! The choice of the serial device: the first USB port, in the order in
//! which the system lists them.
use vstd::prelude::*;

use crate::error::Failure;

verus! {

/// How a serial port is attached.
#[derive(Debug, Clone, Copy, PartialEq, Eq, Structural)]
pub enum PortKind {
    Usb,
    Pci,
    Bluetooth,
    Unknown,
}

/// A serial port as the system lists it.
#[derive(Debug)]
pub struct PortEntry {
    pub name: String,
    pub kind: PortKind,
}

/// The names of the USB ports of `ports`, in their order.
pub open spec fn usb_names(ports: Seq<PortEntry>) -> Seq<Seq<char>>
    decreases ports.len(),
{
    if ports.len() == 0 {
        Seq::empty()
    } else if ports.last().kind == PortKind::Usb {
        usb_names(ports.drop_last()).push(ports.last().name@)
    } else {
        usb_names(ports.drop_last())
    }
}

/// The names of the USB ports among `ports`, in their order.
pub fn find_ports(ports: &[PortEntry]) -> (r: Vec<String>)
    ensures
        r@.len() == usb_names(ports@).len(),
        forall|j: int| 0 <= j < r@.len() ==> #[trigger] r@[j]@ == usb_names(ports@)[j],
{
    let mut r: Vec<String> = Vec::new();
    let mut i: usize = 0;
    while i < ports.len()
        invariant
            i <= ports@.len(),
            r@.len() == usb_names(ports@.subrange(0, i as int)).len(),
            forall|j: int|
                0 <= j < r@.len() ==> #[trigger] r@[j]@ == usb_names(
                    ports@.subrange(0, i as int),
                )[j],
        decreases ports@.len() - i,
    {
        assert(ports@.subrange(0, i + 1).drop_last() =~= ports@.subrange(0, i as int));
        if ports[i].kind == PortKind::Usb {
            r.push(ports[i].name.clone());
        }
        i = i + 1;
    }
    assert(ports@.subrange(0, i as int) =~= ports@);
    r
}

/// The port to open: the first USB port, or `NoScanner` when there is none.
pub fn select_port(ports: &[PortEntry]) -> (r: Result<String, Failure>)
    ensures
        usb_names(ports@).len() == 0 ==> r == Err::<String, Failure>(Failure::NoScanner),
        usb_names(ports@).len() > 0 ==> r is Ok && r->Ok_0@ == usb_names(ports@)[0],
{
    let mut found = find_ports(ports);
    if found.len() == 0 {
        return Err(Failure::NoScanner);
    }
    let first = found.swap_remove(0);
    Ok(first)
}

} // verus!
