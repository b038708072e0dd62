use vstd::prelude::*;

use crate::reader::{next_frame_taken, Reader};
use crate::frame::{
    format_header_only, header_frame, Address, ControlField, Function, Header, MIN_LENGTH,
};

verus! {

/// Secondary station state: not reset, or reset and expecting the given frame count bit.
#[derive(Copy, Clone, Debug, PartialEq, Eq, Structural)]
pub enum SecondaryState {
    NotReset,
    Reset(bool),
}

/// What the station does with one inbound frame.
#[derive(Copy, Clone, Debug, PartialEq, Eq, Structural)]
pub enum LinkAction {
    /// Drop the frame silently.
    Ignore,
    /// Hand the frame's payload, from these addresses, to the caller.
    Surface(Address),
    /// Send a secondary acknowledgement to this destination; surface nothing.
    Acknowledge(u16),
}

/// Whether a frame concerns a station of role `is_master` at `address`.
pub open spec fn frame_for_station(is_master: bool, address: u16, header: Header) -> bool {
    header.control.master != is_master && header.address.destination == address
}

/// The next secondary state and the action for one inbound frame.
pub open spec fn link_step(state: SecondaryState, is_master: bool, address: u16, header: Header) -> (
    SecondaryState,
    LinkAction,
) {
    if !frame_for_station(is_master, address, header) {
        (state, LinkAction::Ignore)
    } else {
        match header.control.func {
            Function::PriUnconfirmedUserData => (state, LinkAction::Surface(header.address)),
            Function::PriResetLinkStates => (
                SecondaryState::Reset(true),
                LinkAction::Acknowledge(header.address.source),
            ),
            Function::PriConfirmedUserData => match state {
                SecondaryState::NotReset => (state, LinkAction::Ignore),
                SecondaryState::Reset(expected) => if header.control.fcb == expected {
                    (SecondaryState::Reset(!expected), LinkAction::Surface(header.address))
                } else {
                    (state, LinkAction::Ignore)
                },
            },
            _ => (state, LinkAction::Ignore),
        }
    }
}

/// Link layer of one station: its role, its address and its secondary state.
pub struct Layer {
    secondary_state: SecondaryState,
    is_master: bool,
    address: u16,
    reader: Reader,
}

impl Layer {
    pub closed spec fn state(&self) -> SecondaryState {
        self.secondary_state
    }

    pub closed spec fn master(&self) -> bool {
        self.is_master
    }

    pub closed spec fn own_address(&self) -> u16 {
        self.address
    }

    /// Bytes received and not yet taken as frames.
    pub closed spec fn pending(&self) -> Seq<u8> {
        self.reader.pending()
    }

    pub fn new(is_master: bool, address: u16) -> (r: Self)
        ensures
            r.state() == SecondaryState::NotReset,
            r.master() == is_master,
            r.own_address() == address,
            r.pending() == Seq::<u8>::empty(),
    {
        Self { secondary_state: SecondaryState::NotReset, is_master, address, reader: Reader::new() }
    }

    /// Returns the station to the not-reset state and drops any partly read frame.
    pub fn reset(&mut self)
        ensures
            final(self).state() == SecondaryState::NotReset,
            final(self).master() == old(self).master(),
            final(self).own_address() == old(self).own_address(),
            final(self).pending() == Seq::<u8>::empty(),
    {
        self.secondary_state = SecondaryState::NotReset;
        self.reader.reset();
    }

    /// Appends bytes received from the transport.
    pub fn push_bytes(&mut self, data: &[u8])
        ensures
            final(self).pending() == old(self).pending() + data@,
            final(self).state() == old(self).state(),
            final(self).master() == old(self).master(),
            final(self).own_address() == old(self).own_address(),
    {
        self.reader.push(data);
    }

    /// Takes the next whole valid frame from the received bytes, dropping bytes
    /// that begin none; `None` when more bytes are needed.
    pub fn next_frame(&mut self) -> (r: Option<(Header, Vec<u8>)>)
        ensures
            exists|k: int| next_frame_taken(old(self).pending(), k, final(self).pending(), r),
            final(self).state() == old(self).state(),
            final(self).master() == old(self).master(),
            final(self).own_address() == old(self).own_address(),
    {
        let r = self.reader.next_frame();
        proof {
            let k = choose|k: int|
                next_frame_taken(old(self).reader.pending(), k, self.reader.pending(), r);
            assert(next_frame_taken(old(self).pending(), k, self.pending(), r));
        }
        r
    }

    pub fn secondary_state(&self) -> (r: SecondaryState)
        ensures
            r == self.state(),
    {
        self.secondary_state
    }

    pub fn is_master(&self) -> (r: bool)
        ensures
            r == self.master(),
    {
        self.is_master
    }

    pub fn get_address(&self) -> (r: u16)
        ensures
            r == self.own_address(),
    {
        self.address
    }

    /// Decides what to do with one inbound frame header and updates the secondary state.
    pub fn on_frame(&mut self, header: &Header) -> (r: LinkAction)
        ensures
            (final(self).state(), r) == link_step(
                old(self).state(),
                old(self).master(),
                old(self).own_address(),
                *header,
            ),
            final(self).master() == old(self).master(),
            final(self).own_address() == old(self).own_address(),
            final(self).pending() == old(self).pending(),
    {
        if header.control.master == self.is_master {
            return LinkAction::Ignore;
        }
        if header.address.destination != self.address {
            return LinkAction::Ignore;
        }
        match header.control.func {
            Function::PriUnconfirmedUserData => LinkAction::Surface(header.address),
            Function::PriResetLinkStates => {
                self.secondary_state = SecondaryState::Reset(true);
                LinkAction::Acknowledge(header.address.source)
            },
            Function::PriConfirmedUserData => match self.secondary_state {
                SecondaryState::NotReset => LinkAction::Ignore,
                SecondaryState::Reset(expected) => {
                    if header.control.fcb == expected {
                        self.secondary_state = SecondaryState::Reset(!expected);
                        LinkAction::Surface(header.address)
                    } else {
                        LinkAction::Ignore
                    }
                },
            },
            _ => LinkAction::Ignore,
        }
    }

    /// The control field of an acknowledgement sent by this station.
    pub fn ack_control(&self) -> (r: ControlField)
        ensures
            r == (ControlField { master: self.master(), fcb: false, fcv: false, func: Function::SecAck }),
    {
        ControlField::new(self.is_master, Function::SecAck)
    }

    /// The acknowledgement frame that this station sends to `destination`.
    pub fn ack_frame(&self, destination: u16) -> (r: Vec<u8>)
        ensures
            r@ == header_frame(
                MIN_LENGTH,
                (ControlField {
                    master: self.master(),
                    fcb: false,
                    fcv: false,
                    func: Function::SecAck,
                }).encode(),
                destination,
                self.own_address(),
            ),
    {
        format_header_only(self.ack_control(), destination, self.address)
    }
}

/// A frame sent by a station of the same role, or addressed to another station,
/// is ignored and leaves the state as it was, whatever its function and the state.
pub proof fn lemma_foreign_frames_ignored(
    state: SecondaryState,
    is_master: bool,
    address: u16,
    header: Header,
)
    requires
        header.control.master == is_master || header.address.destination != address,
    ensures
        link_step(state, is_master, address, header) == (state, LinkAction::Ignore),
{
}

/// Confirmed user data is ignored before a reset; a reset is acknowledged and
/// expects a set frame count bit; the first such frame is surfaced and flips the
/// expectation; its repetition is ignored as a duplicate.
pub proof fn lemma_reset_then_confirmed_data(
    is_master: bool,
    address: u16,
    reset: Header,
    data: Header,
)
    requires
        frame_for_station(is_master, address, reset),
        frame_for_station(is_master, address, data),
        reset.control.func == Function::PriResetLinkStates,
        data.control.func == Function::PriConfirmedUserData,
        data.control.fcb,
    ensures
        link_step(SecondaryState::NotReset, is_master, address, data) == (
            SecondaryState::NotReset,
            LinkAction::Ignore,
        ),
        link_step(SecondaryState::NotReset, is_master, address, reset) == (
            SecondaryState::Reset(true),
            LinkAction::Acknowledge(reset.address.source),
        ),
        link_step(SecondaryState::Reset(true), is_master, address, data) == (
            SecondaryState::Reset(false),
            LinkAction::Surface(data.address),
        ),
        link_step(SecondaryState::Reset(false), is_master, address, data) == (
            SecondaryState::Reset(false),
            LinkAction::Ignore,
        ),
{
}

} // verus!
