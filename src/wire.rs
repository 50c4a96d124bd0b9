use vstd::prelude::*;
use vstd::string::StrSliceExecFns;

verus! {

/// One unit of the relay protocol: a request that the toggle be on or off.
#[derive(Clone, Copy, Debug, PartialEq, Eq, Structural)]
pub enum WireMessage {
    SetOn,
    SetOff,
}

/// The text payload that carries a message: `"1"` for on, `"0"` for off.
pub open spec fn payload_of(m: WireMessage) -> Seq<char> {
    match m {
        WireMessage::SetOn => seq!['1'],
        WireMessage::SetOff => seq!['0'],
    }
}

/// What a received payload means: a message only when it is exactly `"1"` or `"0"`.
pub open spec fn parse_payload(p: Seq<char>) -> Option<WireMessage> {
    if p == seq!['1'] {
        Some(WireMessage::SetOn)
    } else if p == seq!['0'] {
        Some(WireMessage::SetOff)
    } else {
        None
    }
}

impl WireMessage {
    /// The toggle state that the message asks for.
    pub open spec fn requested(self) -> bool {
        self == WireMessage::SetOn
    }

    /// The message that announces the given toggle state.
    pub open spec fn announcing(on: bool) -> WireMessage {
        if on {
            WireMessage::SetOn
        } else {
            WireMessage::SetOff
        }
    }

    pub fn from_state(on: bool) -> (r: WireMessage)
        ensures
            r == WireMessage::announcing(on),
            r.requested() == on,
    {
        if on {
            WireMessage::SetOn
        } else {
            WireMessage::SetOff
        }
    }

    pub fn requested_state(&self) -> (r: bool)
        ensures
            r == self.requested(),
    {
        match self {
            WireMessage::SetOn => true,
            WireMessage::SetOff => false,
        }
    }

    /// The text payload to put on the wire.
    pub fn payload(&self) -> (r: &'static str)
        ensures
            r@ == payload_of(*self),
    {
        match self {
            WireMessage::SetOn => {
                proof {
                    reveal_strlit("1");
                }
                "1"
            },
            WireMessage::SetOff => {
                proof {
                    reveal_strlit("0");
                }
                "0"
            },
        }
    }

    /// Reads a received text payload; anything but exactly `"1"` or `"0"` is no message.
    pub fn parse(payload: &str) -> (r: Option<WireMessage>)
        ensures
            r == parse_payload(payload@),
    {
        if payload.unicode_len() != 1 {
            return None;
        }
        let c = payload.get_char(0);
        if c == '1' {
            assert(payload@ =~= seq!['1']);
            Some(WireMessage::SetOn)
        } else if c == '0' {
            assert(payload@ =~= seq!['0']);
            Some(WireMessage::SetOff)
        } else {
            assert(payload@ != seq!['1']);
            assert(payload@ != seq!['0']);
            None
        }
    }
}

} // verus!
