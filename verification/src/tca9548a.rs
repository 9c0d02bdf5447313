//! State machine of the TCA9548A-style bus multiplexer: which channel is
//! selected, and which byte-wide control transactions have been handed to
//! the shared bus. The caller that owns the physical bus issues the
//! recorded transactions in order; selecting a channel and the following
//! display traffic must not be interleaved with another select on the
//! same bus.

use vstd::prelude::*;

verus! {

/// Default bus address of the multiplexer part.
pub const TCA9548A_ADDRESS: u8 = 0x70;

/// One byte-wide control transaction for the shared bus: the device
/// address it is aimed at, and the single data byte.
#[derive(Clone, Copy, PartialEq, Eq, Structural, Debug)]
pub struct BusWrite {
    pub address: u8,
    pub byte: u8,
}

/// Rejection of a channel outside 0..=7; carries the offending channel.
#[derive(Clone, Copy, PartialEq, Eq, Structural, Debug)]
pub enum MuxError {
    InvalidChannel(u8),
}

/// The multiplexer: bound to one bus address, it tracks the selected
/// channel and logs every control byte it asks the bus to carry.
pub struct Tca9548a {
    address: u8,
    current_channel: Option<u8>,
    issued_writes: Vec<BusWrite>,
}

impl Tca9548a {
    /// The bus address this multiplexer answers on.
    pub closed spec fn addr(self) -> u8 {
        self.address
    }

    /// The channel recorded as selected, if any.
    pub closed spec fn selected(self) -> Option<u8> {
        self.current_channel
    }

    /// All control transactions handed to the bus so far, oldest first.
    pub closed spec fn writes(self) -> Seq<BusWrite> {
        self.issued_writes@
    }

    /// A multiplexer on the default address; no transaction is issued.
    pub fn new() -> (r: Self)
        ensures
            r.addr() == TCA9548A_ADDRESS,
            r.selected() is None,
            r.writes() == Seq::<BusWrite>::empty(),
    {
        Self::with_address(TCA9548A_ADDRESS)
    }

    /// A multiplexer on the given address; no transaction is issued.
    pub fn with_address(address: u8) -> (r: Self)
        ensures
            r.addr() == address,
            r.selected() is None,
            r.writes() == Seq::<BusWrite>::empty(),
    {
        Self { address, current_channel: None, issued_writes: Vec::new() }
    }

    /// Routes the bus to one downstream channel. For a channel in 0..=7
    /// exactly one write of the byte `1 << channel` is issued and the
    /// channel is recorded as selected; for a larger channel the call
    /// fails with `InvalidChannel` and issues no write.
    pub fn select_channel(&mut self, channel: u8) -> (r: Result<(), MuxError>)
        ensures
            channel <= 7 ==> {
                &&& r is Ok
                &&& final(self).selected() == Some(channel)
                &&& final(self).writes() == old(self).writes().push(
                    (BusWrite { address: old(self).addr(), byte: 1u8 << channel }),
                )
                &&& final(self).addr() == old(self).addr()
            },
            channel > 7 ==> {
                &&& r == Err::<(), MuxError>(MuxError::InvalidChannel(channel))
                &&& *final(self) == *old(self)
            },
    {
        if channel > 7 {
            return Err(MuxError::InvalidChannel(channel));
        }
        let channel_mask: u8 = 1u8 << channel;
        self.issued_writes.push(BusWrite { address: self.address, byte: channel_mask });
        self.current_channel = Some(channel);
        Ok(())
    }

    /// Cuts the bus off from every downstream channel: issues one write of
    /// the byte `0x00` and clears the recorded channel.
    pub fn disable_all_channels(&mut self)
        ensures
            final(self).selected() is None,
            final(self).writes() == old(self).writes().push(
                (BusWrite { address: old(self).addr(), byte: 0x00 }),
            ),
            final(self).addr() == old(self).addr(),
    {
        self.issued_writes.push(BusWrite { address: self.address, byte: 0x00 });
        self.current_channel = None;
    }

    /// The channel recorded as selected, if any.
    pub fn get_current_channel(&self) -> (r: Option<u8>)
        ensures
            r == self.selected(),
    {
        self.current_channel
    }

    /// The control transactions issued so far, oldest first.
    pub fn issued_writes(&self) -> (r: &Vec<BusWrite>)
        ensures
            r@ == self.writes(),
    {
        &self.issued_writes
    }

    /// Hands the pending control transactions to the caller that owns the
    /// physical bus, leaving the log empty.
    pub fn take_issued_writes(&mut self) -> (r: Vec<BusWrite>)
        ensures
            r@ == old(self).writes(),
            final(self).writes() == Seq::<BusWrite>::empty(),
            final(self).addr() == old(self).addr(),
            final(self).selected() == old(self).selected(),
    {
        let mut taken: Vec<BusWrite> = Vec::new();
        core::mem::swap(&mut taken, &mut self.issued_writes);
        taken
    }
}

} // verus!
