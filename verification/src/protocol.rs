//! The constants of one peripheral's protocol, gathered into the
//! configuration that a session is built from.

use vstd::prelude::*;

verus! {

/// The address of the controller.
pub const DEVICE_ADDR: [u8; 6] = [0xDE, 0x85, 0xF6, 0xD0, 0xB1, 0xF2];

pub const UUID_TOURBOX_SERVICE: u128 = 0xfff000001000800000805f9b34fb;

pub const UUID_CHAR0011: u128 = 0xfff300001000800000805f9b34fb;

pub const UUID_CHAR0011_DESC0013: u128 = 0x290200001000800000805f9b34fb;

pub const UUID_CHAR000F: u128 = 0xfff200001000800000805f9b34fb;

pub const UUID_CHAR000C: u128 = 0xfff100001000800000805f9b34fb;

pub const UUID_CHAR000C_DESC000E: u128 = 0x290200001000800000805f9b34fb;

/// The identifiers of the six endpoints that a session resolves.
#[derive(Clone, Copy, Debug, PartialEq, Eq, Structural)]
pub struct Identifiers {
    pub service: u128,
    pub char0011: u128,
    pub char0011_desc0013: u128,
    pub char000f: u128,
    pub char000c: u128,
    pub char000c_desc000e: u128,
}

/// What a session is told about its peripheral: where it is, which
/// endpoints it offers and which frames initialise it.
#[derive(Clone, Debug, PartialEq, Eq)]
pub struct Protocol {
    pub address: [u8; 6],
    pub identifiers: Identifiers,
    /// The handshake frames, in the order in which they are written.
    pub frames: Vec<Vec<u8>>,
}

/// A protocol as plain values.
#[verifier::ext_equal]
pub struct ProtocolView {
    pub address: Seq<u8>,
    pub identifiers: Identifiers,
    /// The handshake frames, in the order in which they are written.
    pub frames: Seq<Seq<u8>>,
}

impl View for Protocol {
    type V = ProtocolView;

    open spec fn view(&self) -> ProtocolView {
        ProtocolView {
            address: self.address@,
            identifiers: self.identifiers,
            frames: Seq::new(self.frames@.len(), |i: int| self.frames@[i]@),
        }
    }
}

/// The six handshake frames of the controller: the opening frame, then the
/// key-mapping table in `08 NN` pairs, closed by `08 fe`.
pub open spec fn handshake_frames() -> Seq<Seq<u8>> {
    seq![
        seq![0x55u8, 0x00, 0x07, 0x88, 0x94, 0x00, 0x1a, 0xfe],
        seq![
            0xb5u8, 0x00, 0x5d, 0x04, 0x08, 0x05, 0x08, 0x06, 0x08, 0x07,
            0x08, 0x08, 0x08, 0x09, 0x08, 0x0b, 0x08, 0x0c, 0x08, 0x0d,
        ],
        seq![
            0x08u8, 0x0e, 0x08, 0x0f, 0x08, 0x26, 0x08, 0x27, 0x08, 0x28,
            0x08, 0x29, 0x08, 0x3b, 0x08, 0x3c, 0x08, 0x3d, 0x08, 0x3e,
        ],
        seq![
            0x08u8, 0x3f, 0x08, 0x40, 0x08, 0x41, 0x08, 0x42, 0x08, 0x43,
            0x08, 0x44, 0x08, 0x45, 0x08, 0x46, 0x08, 0x47, 0x08, 0x48,
        ],
        seq![
            0x08u8, 0x49, 0x08, 0x4a, 0x08, 0x4b, 0x08, 0x4c, 0x08, 0x4d,
            0x08, 0x4e, 0x08, 0x4f, 0x08, 0x50, 0x08, 0x51, 0x08, 0x52,
        ],
        seq![
            0x08u8, 0x53, 0x08, 0x54, 0x08, 0xa8, 0x08, 0xa9, 0x08, 0xaa,
            0x08, 0xab, 0x08, 0xfe,
        ],
    ]
}

/// The identifiers of the controller's endpoints.
pub open spec fn tourbox_identifiers() -> Identifiers {
    Identifiers {
        service: UUID_TOURBOX_SERVICE,
        char0011: UUID_CHAR0011,
        char0011_desc0013: UUID_CHAR0011_DESC0013,
        char000f: UUID_CHAR000F,
        char000c: UUID_CHAR000C,
        char000c_desc000e: UUID_CHAR000C_DESC000E,
    }
}

/// The protocol of the controller.
pub open spec fn tourbox_protocol() -> ProtocolView {
    ProtocolView {
        address: DEVICE_ADDR@,
        identifiers: tourbox_identifiers(),
        frames: handshake_frames(),
    }
}

impl Protocol {
    /// The protocol of the controller, with every constant as the
    /// controller expects it.
    pub fn tourbox() -> (protocol: Protocol)
        ensures
            protocol@ == tourbox_protocol(),
    {
        let line_1: Vec<u8> = vec![0x55, 0x00, 0x07, 0x88, 0x94, 0x00, 0x1a, 0xfe];
        let line_2: Vec<u8> = vec![
            0xb5, 0x00, 0x5d, 0x04, 0x08, 0x05, 0x08, 0x06, 0x08, 0x07,
            0x08, 0x08, 0x08, 0x09, 0x08, 0x0b, 0x08, 0x0c, 0x08, 0x0d,
        ];
        let line_3: Vec<u8> = vec![
            0x08, 0x0e, 0x08, 0x0f, 0x08, 0x26, 0x08, 0x27, 0x08, 0x28,
            0x08, 0x29, 0x08, 0x3b, 0x08, 0x3c, 0x08, 0x3d, 0x08, 0x3e,
        ];
        let line_4: Vec<u8> = vec![
            0x08, 0x3f, 0x08, 0x40, 0x08, 0x41, 0x08, 0x42, 0x08, 0x43,
            0x08, 0x44, 0x08, 0x45, 0x08, 0x46, 0x08, 0x47, 0x08, 0x48,
        ];
        let line_5: Vec<u8> = vec![
            0x08, 0x49, 0x08, 0x4a, 0x08, 0x4b, 0x08, 0x4c, 0x08, 0x4d,
            0x08, 0x4e, 0x08, 0x4f, 0x08, 0x50, 0x08, 0x51, 0x08, 0x52,
        ];
        let line_6: Vec<u8> = vec![
            0x08, 0x53, 0x08, 0x54, 0x08, 0xa8, 0x08, 0xa9, 0x08, 0xaa,
            0x08, 0xab, 0x08, 0xfe,
        ];
        assert(line_1@ =~= handshake_frames()[0]);
        assert(line_2@ =~= handshake_frames()[1]);
        assert(line_3@ =~= handshake_frames()[2]);
        assert(line_4@ =~= handshake_frames()[3]);
        assert(line_5@ =~= handshake_frames()[4]);
        assert(line_6@ =~= handshake_frames()[5]);
        let frames: Vec<Vec<u8>> = vec![line_1, line_2, line_3, line_4, line_5, line_6];
        let protocol = Protocol {
            address: DEVICE_ADDR,
            identifiers: Identifiers {
                service: UUID_TOURBOX_SERVICE,
                char0011: UUID_CHAR0011,
                char0011_desc0013: UUID_CHAR0011_DESC0013,
                char000f: UUID_CHAR000F,
                char000c: UUID_CHAR000C,
                char000c_desc000e: UUID_CHAR000C_DESC000E,
            },
            frames,
        };
        assert(protocol@.frames =~= handshake_frames());
        protocol
    }
}

} // verus!
