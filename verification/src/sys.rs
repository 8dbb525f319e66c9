//! Constants and plain data types shared with the datalink provider.
//!
//! The provider reports every operation's outcome as an integer result code
//! drawn from one code space (`DLPI_SUCCESS` and the failure codes after
//! it), with one sentinel (`DL_SYSERR`) set aside to say "the failure is a
//! generic OS error, look at the last OS error instead". The structs here
//! carry the plain values that cross the provider boundary: send priority,
//! per-send overrides, and per-receive metadata.

#![allow(non_camel_case_types)]

use vstd::prelude::*;

verus! {

/// Maximum length in bytes of a physical (link-layer) address.
pub const DLPI_PHYSADDR_MAX: usize = 64;

/// Exclusive open.
pub const DLPI_EXCL: u32 = 0x0001;

/// Open the link in passive mode.
pub const DLPI_PASSIVE: u32 = 0x0002;

/// Open the link in raw mode.
pub const DLPI_RAW: u32 = 0x0004;

/// Synchronous serial line interface.
pub const DLPI_SERIAL: u32 = 0x0008;

/// Do not attach the physical point of attachment.
pub const DLPI_NOATTACH: u32 = 0x0010;

/// Open the link in native mode.
pub const DLPI_NATIVE: u32 = 0x0020;

/// Open the link under /dev only.
pub const DLPI_DEVONLY: u32 = 0x0040;

/// Open an IP link under /dev/ipnet.
pub const DLPI_DEVIPNET: u32 = 0x0080;

/// Request ipnetinfo headers.
pub const DLPI_IPNETINFO: u32 = 0x0100;

/// Promiscuous mode at the physical level.
pub const DL_PROMISC_PHYS: u32 = 0x01;

/// Promiscuous mode at the service-access-point level.
pub const DL_PROMISC_SAP: u32 = 0x02;

/// Promiscuous mode for multicast.
pub const DL_PROMISC_MULTI: u32 = 0x03;

/// Promiscuous mode for reception only.
pub const DL_PROMISC_RX_ONLY: u32 = 0x04;

/// The operation succeeded.
pub const DLPI_SUCCESS: i32 = 10000;

/// Invalid argument.
pub const DLPI_EINVAL: i32 = 10001;

/// Invalid link name.
pub const DLPI_ELINKNAMEINVAL: i32 = 10002;

/// The link does not exist.
pub const DLPI_ENOLINK: i32 = 10003;

/// Bad link.
pub const DLPI_EBADLINK: i32 = 10004;

/// Invalid handle.
pub const DLPI_EINHANDLE: i32 = 10005;

/// The operation timed out.
pub const DLPI_ETIMEDOUT: i32 = 10006;

/// Unsupported provider version.
pub const DLPI_EVERNOTSUP: i32 = 10007;

/// Unsupported connection mode.
pub const DLPI_EMODENOTSUP: i32 = 10008;

/// Unavailable service access point.
pub const DLPI_EUNAVAILSAP: i32 = 10009;

/// The operation failed.
pub const DLPI_FAILURE: i32 = 10010;

/// A style-2 node reports style-1.
pub const DLPI_ENOTSTYLE2: i32 = 10011;

/// Bad message.
pub const DLPI_EBADMSG: i32 = 10012;

/// Raw mode not supported.
pub const DLPI_ERAWNOTSUP: i32 = 10013;

/// Invalid notification type.
pub const DLPI_ENOTEINVAL: i32 = 10014;

/// Notification not supported by the link.
pub const DLPI_ENOTENOTSUP: i32 = 10015;

/// Invalid notification id.
pub const DLPI_ENOTEIDINVAL: i32 = 10016;

/// ipnetinfo not supported.
pub const DLPI_EIPNETINFONOTSUP: i32 = 10017;

/// One past the highest code the provider defines.
pub const DLPI_ERRMAX: i32 = DLPI_EIPNETINFONOTSUP + 1;

/// Sentinel in the result-code space: the failure is a generic OS error,
/// not a provider-specific code.
pub const DL_SYSERR: i32 = 0x04;

/// Priority of sent traffic. The range spans 0 to 100, where 0 is the
/// highest priority.
#[derive(Clone, Copy, Debug, PartialEq, Eq, Structural)]
pub struct dl_priority_t {
    pub dl_min: u32,
    pub dl_max: u32,
}

/// Per-send overrides: a service access point (for ethernet, the ethertype)
/// and a priority.
#[derive(Clone, Copy, Debug, PartialEq, Eq, Structural)]
pub struct dlpi_sendinfo_t {
    /// Service access point to use for this send.
    pub dsi_sap: u32,
    /// Priority of this send.
    pub dsi_prio: dl_priority_t,
}

/// Whether a destination address is unicast or a group address.
#[derive(Clone, Copy, Debug, PartialEq, Eq, Structural)]
pub enum dlpi_addrtype_t {
    DLPI_ADDRTYPE_UNICAST,
    DLPI_ADDRTYPE_GROUP,
}

/// Metadata reported with one received message: the destination address the
/// frame was sent to, its class, and the total length of the message as it
/// was sent. When the caller's buffer was smaller than the message, the
/// message is truncated and `dri_totmsglen` still reports the full length —
/// truncation is signaled here, never as an error.
#[derive(Debug, PartialEq, Eq)]
pub struct dlpi_recvinfo_t {
    /// Destination address bytes of the received frame.
    pub dri_destaddr: Vec<u8>,
    /// Class of the destination address.
    pub dri_destaddrtype: dlpi_addrtype_t,
    /// Total length of the message as sent, before any truncation.
    pub dri_totmsglen: usize,
}

impl dlpi_recvinfo_t {
    /// A physical address never exceeds `DLPI_PHYSADDR_MAX` bytes.
    pub open spec fn wf(self) -> bool {
        self.dri_destaddr@.len() <= DLPI_PHYSADDR_MAX
    }
}

impl Default for dlpi_recvinfo_t {
    /// An empty record, ready to be filled by a receive.
    fn default() -> (r: Self)
        ensures
            r.dri_destaddr@.len() == 0,
            r.dri_destaddrtype is DLPI_ADDRTYPE_UNICAST,
            r.dri_totmsglen == 0,
            r.wf(),
    {
        dlpi_recvinfo_t {
            dri_destaddr: Vec::new(),
            dri_destaddrtype: dlpi_addrtype_t::DLPI_ADDRTYPE_UNICAST,
            dri_totmsglen: 0,
        }
    }
}

/// One native link instance, as the logic sees it: the address of the
/// provider's dynamically allocated handle. The address 0 stands for the
/// null reference that `open` later fills in; every open link has a nonzero
/// address.
#[derive(Clone, Copy, Debug, PartialEq, Eq, Structural)]
pub struct dlpi_handle {
    pub addr: usize,
}

/// The same instance reference under the name the provider's own headers
/// give it.
pub type dlpi_handle_t = dlpi_handle;

/// The null instance reference, to be filled in by `open`.
pub fn null_dlpi_handle() -> (h: dlpi_handle)
    ensures
        h.addr == 0,
{
    dlpi_handle { addr: 0 }
}

} // verus!
