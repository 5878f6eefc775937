//! What the wire formats and the supervisor need to know of the machine they run on.

use crate::bytes::{int_bytes, le_bytes};
use nix::errno::Errno;
use vstd::prelude::*;

verus! {

/// The order in which the bytes of an integer follow each other.
#[derive(Clone, Copy, Debug, PartialEq, Eq, Structural)]
pub enum ByteOrder {
    /// Least significant byte first.
    Little,
    /// Most significant byte first.
    Big,
}

/// The facts of the machine that the formats and decisions depend on: the
/// byte order of its integers and the numbers of two of its OS errors.
#[derive(Clone, Copy, Debug, PartialEq, Eq, Structural)]
pub struct Platform {
    /// The byte order of integers in memory.
    pub order: ByteOrder,
    /// The OS error code of a system call that a signal interrupted.
    pub interrupted: i32,
    /// The OS error code of a wait that found no child to wait for.
    pub no_child: i32,
}

/// `u16::to_ne_bytes` of std: the two bytes of `x` as this machine holds them
/// in memory. Trusted: they are the low byte and the high byte of `x`, in one
/// of the two orders.
#[verifier::external_body]
fn native_layout(x: u16) -> (b: [u8; 2])
    ensures
        b@ == seq![(x % 256) as u8, (x / 256) as u8] || b@ == seq![
            (x / 256) as u8,
            (x % 256) as u8,
        ],
{
    x.to_ne_bytes()
}

/// `nix::errno::Errno::EINTR` and `nix::errno::Errno::ECHILD`, as their
/// numbers on this platform, in this order. Trusted: the two differ from
/// each other and from 0. They are discriminants of two variants of the one
/// enum `Errno`, whose variant `UnknownErrno` has the discriminant 0, and no
/// two variants of an enum share a discriminant. Nothing else is claimed of
/// the numbers.
#[verifier::external_body]
fn wait_codes() -> (codes: (i32, i32))
    ensures
        codes.0 != 0,
        codes.1 != 0,
        codes.0 != codes.1,
{
    (Errno::EINTR as i32, Errno::ECHILD as i32)
}

/// `nix::errno::Errno::from_i32`, with the variant it picks turned back into
/// its number. Trusted: a code that the table of this platform lists comes
/// back as it is, any other comes back as 0, the number of `UnknownErrno`.
#[verifier::external_body]
pub(crate) fn listed_code(code: i32) -> (r: i32)
    ensures
        r == code || r == 0,
{
    Errno::from_i32(code) as i32
}

impl ByteOrder {
    /// The byte order that two bytes show which hold the number 1: least
    /// significant byte first where the first of them is 1, most significant
    /// byte first where it is not.
    pub open spec fn holding_one(layout: Seq<u8>) -> ByteOrder {
        if layout.len() == 2 && layout[0] == 1 {
            ByteOrder::Little
        } else {
            ByteOrder::Big
        }
    }

    /// Reads the byte order off `layout`, the two bytes in which a machine
    /// holds the number 1: whichever order wrote them is the one that comes
    /// back.
    pub fn of_layout(layout: [u8; 2]) -> (order: ByteOrder)
        ensures
            order == Self::holding_one(layout@),
            forall|written: ByteOrder| layout@ == #[trigger] int_bytes(1, 2, written) ==> order == written,
    {
        proof {
            reveal_with_fuel(le_bytes, 3);
            assert(le_bytes(1, 2) =~= seq![1u8, 0u8]);
            assert(le_bytes(1, 2).reverse() =~= seq![0u8, 1u8]);
        }
        if layout[0] == 1 {
            ByteOrder::Little
        } else {
            ByteOrder::Big
        }
    }

    /// The byte order of the machine that runs this call: what
    /// [`ByteOrder::of_layout`] reads off the bytes in which the machine holds
    /// the number 1. Which of the two orders that is, the machine decides.
    pub fn native() -> (order: ByteOrder) {
        Self::of_layout(native_layout(1))
    }
}

impl Platform {
    /// Whether the two OS error codes can be told apart from each other and
    /// from 0, the code that stands for no OS error.
    pub open spec fn wf(&self) -> bool {
        self.interrupted != 0 && self.no_child != 0 && self.interrupted != self.no_child
    }

    /// The platform that runs this call: its byte order, and the numbers that
    /// it gives to the two OS errors, which it tells apart.
    pub fn native() -> (platform: Platform)
        ensures
            platform.wf(),
    {
        let codes = wait_codes();
        Platform { order: ByteOrder::native(), interrupted: codes.0, no_child: codes.1 }
    }
}

} // verus!
