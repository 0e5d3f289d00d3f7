//! What is known of a device by its name.
use vstd::prelude::*;

use crate::text;
use crate::text::has_text;

verus! {

/// A device that is known by a part of its name.
pub enum KnownDevice {
    Rx7900Xtx,
    Rx7600Xt,
    R9600D,
}

/// The device that a name stands for; the first that it mentions.
pub open spec fn known_device(name: Seq<char>) -> Option<KnownDevice> {
    if text::contains_text(name, "7900 XTX"@) {
        Some(KnownDevice::Rx7900Xtx)
    } else if text::contains_text(name, "7600 XT"@) {
        Some(KnownDevice::Rx7600Xt)
    } else if text::contains_text(name, "R9600D"@) {
        Some(KnownDevice::R9600D)
    } else {
        None
    }
}

fn find_device(name: &str) -> (r: Option<KnownDevice>)
    ensures
        r == known_device(name@),
{
    if has_text(name, "7900 XTX") {
        Some(KnownDevice::Rx7900Xtx)
    } else if has_text(name, "7600 XT") {
        Some(KnownDevice::Rx7600Xt)
    } else if has_text(name, "R9600D") {
        Some(KnownDevice::R9600D)
    } else {
        None
    }
}

/// The memory bandwidth of the named device in GB/s; `None` for an unknown
/// device and for one whose name could not be read.
pub fn rocm_bandwidth_gbps(name: Option<&str>) -> (r: Option<usize>)
    ensures
        r == (match name {
            Some(name) => match known_device(name@) {
                Some(KnownDevice::Rx7900Xtx) => Some(960usize),
                Some(KnownDevice::Rx7600Xt) => Some(288usize),
                Some(KnownDevice::R9600D) => Some(640usize),
                None => None::<usize>,
            },
            None => None::<usize>,
        }),
{
    match name {
        Some(name) => match find_device(name) {
            Some(KnownDevice::Rx7900Xtx) => Some(960),
            Some(KnownDevice::Rx7600Xt) => Some(288),
            Some(KnownDevice::R9600D) => Some(640),
            None => None,
        },
        None => None,
    }
}

/// The single-precision throughput of the named device in TFLOP/s; `None` for
/// an unknown device and for one whose name could not be read.
pub fn rocm_compute_f32_tflops(name: Option<&str>) -> (r: Option<usize>)
    ensures
        r == (match name {
            Some(name) => match known_device(name@) {
                Some(KnownDevice::Rx7900Xtx) => Some(61usize),
                Some(KnownDevice::Rx7600Xt) => Some(23usize),
                Some(KnownDevice::R9600D) => Some(25usize),
                None => None::<usize>,
            },
            None => None::<usize>,
        }),
{
    match name {
        Some(name) => match find_device(name) {
            Some(KnownDevice::Rx7900Xtx) => Some(61),
            Some(KnownDevice::Rx7600Xt) => Some(23),
            Some(KnownDevice::R9600D) => Some(25),
            None => None,
        },
        None => None,
    }
}

/// A device is known by the model that its name mentions, wherever in the name
/// that stands: its bandwidth in GB/s and its throughput in TFLOP/s are those of
/// the model. A name that mentions none, and no name, says nothing.
pub proof fn devices_are_known_by_their_model(
    name: &str,
    bandwidth: Option<usize>,
    throughput: Option<usize>,
    nameless_bandwidth: Option<usize>,
    nameless_throughput: Option<usize>,
)
    requires
        call_ensures(rocm_bandwidth_gbps, (Some(name),), bandwidth),
        call_ensures(rocm_compute_f32_tflops, (Some(name),), throughput),
        call_ensures(rocm_bandwidth_gbps, (None::<&str>,), nameless_bandwidth),
        call_ensures(rocm_compute_f32_tflops, (None::<&str>,), nameless_throughput),
    ensures
        ({
            let xtx = exists|i: int| text::occurs_at(name@, "7900 XTX"@, i);
            let xt = exists|i: int| text::occurs_at(name@, "7600 XT"@, i);
            let r9600 = exists|i: int| text::occurs_at(name@, "R9600D"@, i);
            &&& xtx ==> bandwidth == Some(960usize) && throughput == Some(61usize)
            &&& !xtx && xt ==> bandwidth == Some(288usize) && throughput == Some(23usize)
            &&& !xtx && !xt && r9600 ==> bandwidth == Some(640usize) && throughput == Some(25usize)
            &&& !xtx && !xt && !r9600 ==> bandwidth is None && throughput is None
        }),
        nameless_bandwidth is None,
        nameless_throughput is None,
{
}

} // verus!
