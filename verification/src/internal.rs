//! The kernel-facing data model: the link-settings command structure and the
//! per-device command context.

use vstd::prelude::*;
use vstd::string::StringSliceAdditionalSpecFns;

use crate::errors::EthtoolError;
use crate::errors::EthtoolErrorKind;

verus! {

/// Size of the fixed interface-name buffer, a kernel-imposed limit.
pub const IFNAME_LEN: usize = 16;

/// Number of 32-bit words in the trailing capability-bitmap buffer: three
/// masks (supported, advertising, partner) of up to 128 words each.
pub const LINK_MODE_DATA_WORDS: usize = 3 * 128;

/// The fixed-field portion of the kernel's link-settings command structure.
///
/// `link_mode_masks_nwords` is sign-encoded during the handshake: the kernel
/// answers an unexpected word count with the negative of the count it expects,
/// while a positive value accompanies valid data of that length.
#[derive(Debug, Copy, Clone)]
pub struct EthtoolLinkSettings {
    pub cmd: u32,
    pub speed: u32,
    pub duplex: u8,
    pub port: u8,
    pub phy_address: u8,
    pub autoneg: u8,
    pub mdio_support: u8,
    pub eth_tp_mdix: u8,
    pub eth_tp_mdix_ctrl: u8,
    pub link_mode_masks_nwords: i8,
    pub reserved1: [u8; 3],
    pub reserved: [u32; 7],
    pub link_mode_masks: [u32; LINK_MODE_DATA_WORDS],
}

/// Holds when every field of `s` is zero except the command code, which is
/// `cmd`: the shape of a freshly built request.
pub open spec fn settings_zeroed_with_cmd(s: EthtoolLinkSettings, cmd: u32) -> bool {
    &&& s.cmd == cmd
    &&& s.speed == 0
    &&& s.duplex == 0
    &&& s.port == 0
    &&& s.phy_address == 0
    &&& s.autoneg == 0
    &&& s.mdio_support == 0
    &&& s.eth_tp_mdix == 0
    &&& s.eth_tp_mdix_ctrl == 0
    &&& s.link_mode_masks_nwords == 0
    &&& forall|i: int| 0 <= i < 3 ==> s.reserved1@[i] == 0
    &&& forall|i: int| 0 <= i < 7 ==> s.reserved@[i] == 0
    &&& forall|i: int| 0 <= i < LINK_MODE_DATA_WORDS ==> s.link_mode_masks@[i] == 0
}

/// One handshake round's request/response buffer: the fixed fields plus spare
/// room for the largest capability bitmap the kernel may write back.
#[derive(Debug, Copy, Clone)]
pub struct EthtoolCommnad {
    pub req: EthtoolLinkSettings,
    pub link_mode_data: [u32; LINK_MODE_DATA_WORDS],
}

impl EthtoolCommnad {
    /// Builds a zero-initialized command carrying only the command code.
    pub fn new(cmd: u32) -> (r: Result<Self, EthtoolError>)
        ensures
            r is Ok,
            settings_zeroed_with_cmd(r->Ok_0.req, cmd),
            forall|i: int| 0 <= i < LINK_MODE_DATA_WORDS ==> r->Ok_0.link_mode_data@[i] == 0,
    {
        let req = EthtoolLinkSettings {
            cmd,
            speed: 0,
            duplex: 0,
            port: 0,
            phy_address: 0,
            autoneg: 0,
            mdio_support: 0,
            eth_tp_mdix: 0,
            eth_tp_mdix_ctrl: 0,
            link_mode_masks_nwords: 0,
            reserved1: [0u8; 3],
            reserved: [0u32; 7],
            link_mode_masks: [0u32; LINK_MODE_DATA_WORDS],
        };
        Ok(EthtoolCommnad { req, link_mode_data: [0u32; LINK_MODE_DATA_WORDS] })
    }
}

/// An open control channel to one interface: the zero-padded interface name
/// and the descriptor of the control socket.
#[derive(Debug, Clone)]
pub struct CmdContext {
    pub devname: [u8; IFNAME_LEN],
    pub fd: i32,
}

impl CmdContext {
    /// A context is well formed when its descriptor is valid.
    pub open spec fn wf(&self) -> bool {
        self.fd >= 0
    }

    /// Checks the interface name against the fixed 16-byte kernel buffer and
    /// returns it zero-padded to that size. Rejects longer names with
    /// `InvalidName`; no other work is done for them.
    pub fn prepare_devname(dev_name: &str) -> (r: Result<[u8; IFNAME_LEN], EthtoolError>)
        ensures
            r is Ok <==> dev_name.spec_bytes().len() <= IFNAME_LEN,
            r matches Ok(buf) ==> {
                &&& forall|i: int|
                    0 <= i < dev_name.spec_bytes().len() ==> buf@[i] == dev_name.spec_bytes()[i]
                &&& forall|i: int| dev_name.spec_bytes().len() <= i < IFNAME_LEN ==> buf@[i] == 0
            },
            r matches Err(e) ==> e.spec_kind() == EthtoolErrorKind::InvalidName,
    {
        let bytes = dev_name.as_bytes();
        if bytes.len() > IFNAME_LEN {
            return Err(
                EthtoolError::with_kind(
                    EthtoolErrorKind::InvalidName,
                    "The device name is too long.",
                ),
            );
        }
        let mut buf = [0u8; IFNAME_LEN];
        let mut i: usize = 0;
        while i < bytes.len()
            invariant
                i <= bytes.len() <= IFNAME_LEN,
                bytes@ == dev_name.spec_bytes(),
                forall|j: int| 0 <= j < i ==> buf@[j] == bytes@[j],
                forall|j: int| i <= j < IFNAME_LEN ==> buf@[j] == 0,
            decreases bytes.len() - i,
        {
            buf[i] = bytes[i];
            i += 1;
        }
        Ok(buf)
    }

    /// Pairs a prepared name with the descriptor the socket fallback produced.
    /// A negative descriptor means both socket families failed to open, which
    /// is reported as `SocketUnavailable`.
    pub fn with_socket(devname: [u8; IFNAME_LEN], socket_fd: i32) -> (r: Result<CmdContext, EthtoolError>)
        ensures
            r is Ok <==> socket_fd >= 0,
            r matches Ok(ctx) ==> {
                &&& ctx.devname@ == devname@
                &&& ctx.fd == socket_fd
                &&& ctx.wf()
            },
            r matches Err(e) ==> e.spec_kind() == EthtoolErrorKind::SocketUnavailable,
    {
        if socket_fd < 0 {
            return Err(
                EthtoolError::with_kind(
                    EthtoolErrorKind::SocketUnavailable,
                    "Can't create socket control.",
                ),
            );
        }
        Ok(CmdContext { devname, fd: socket_fd })
    }
}

} // verus!
