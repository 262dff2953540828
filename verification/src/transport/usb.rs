//! Choosing the USB interface and endpoints of a Fujifilm camera in PTP mode.
use vstd::prelude::*;

verus! {

/// Fujifilm's USB vendor id.
pub const FUJI_VENDOR_ID: u16 = 0x04cb;

/// The USB interface class of still-image (PTP) devices.
pub const PTP_INTERFACE_CLASS: u8 = 0x06;

/// What the choice needs to know of an endpoint descriptor.
#[derive(Debug, Clone, Copy, PartialEq, Eq, Structural)]
pub struct Endpoint {
    /// A bulk endpoint.
    pub bulk: bool,
    /// Direction device-to-host.
    pub input: bool,
    pub address: u8,
}

/// The address of the last bulk endpoint of the given direction.
pub open spec fn last_bulk(endpoints: Seq<Endpoint>, input: bool) -> Option<u8>
    decreases endpoints.len(),
{
    if endpoints.len() == 0 {
        None
    } else {
        let e = endpoints.last();
        if e.bulk && e.input == input {
            Some(e.address)
        } else {
            last_bulk(endpoints.drop_last(), input)
        }
    }
}

/// A device of the camera maker.
pub fn is_fuji_device(vendor_id: u16) -> (b: bool)
    ensures
        b == (vendor_id == FUJI_VENDOR_ID),
{
    vendor_id == FUJI_VENDOR_ID
}

/// An interface that speaks PTP.
pub fn is_ptp_interface(class_code: u8) -> (b: bool)
    ensures
        b == (class_code == PTP_INTERFACE_CLASS),
{
    class_code == PTP_INTERFACE_CLASS
}

/// The bulk IN and bulk OUT endpoint addresses of an interface (the last of each), when it
/// has both.
pub fn bulk_endpoints(endpoints: &Vec<Endpoint>) -> (r: Option<(u8, u8)>)
    ensures
        match (last_bulk(endpoints@, true), last_bulk(endpoints@, false)) {
            (Some(i), Some(o)) => r == Some((i, o)),
            _ => r is None,
        },
{
    let mut bulk_in: Option<u8> = None;
    let mut bulk_out: Option<u8> = None;
    let mut k: usize = 0;
    while k < endpoints.len()
        invariant
            0 <= k <= endpoints@.len(),
            bulk_in == last_bulk(endpoints@.take(k as int), true),
            bulk_out == last_bulk(endpoints@.take(k as int), false),
        decreases endpoints@.len() - k,
    {
        let e = endpoints[k];
        assert(endpoints@.take(k + 1).drop_last() =~= endpoints@.take(k as int));
        if e.bulk {
            if e.input {
                bulk_in = Some(e.address);
            } else {
                bulk_out = Some(e.address);
            }
        }
        k = k + 1;
    }
    assert(endpoints@.take(k as int) =~= endpoints@);
    match (bulk_in, bulk_out) {
        (Some(i), Some(o)) => Some((i, o)),
        _ => None,
    }
}

/// Fujifilm's vendor id is 0x04CB and still-image interfaces have class 6; of the
/// endpoints of an interface the last bulk one of a direction is chosen: an endpoint added
/// at the end is chosen when it is bulk in that direction, and otherwise the choice stays.
pub proof fn law_usb_choice(endpoints: Seq<Endpoint>, e: Endpoint, input: bool)
    ensures
        FUJI_VENDOR_ID == 0x04cb,
        PTP_INTERFACE_CLASS == 6,
        last_bulk(Seq::<Endpoint>::empty(), input) is None,
        last_bulk(endpoints.push(e), input) == if e.bulk && e.input == input {
            Some(e.address)
        } else {
            last_bulk(endpoints, input)
        },
{
    assert(endpoints.push(e).drop_last() =~= endpoints);
}

} // verus!
