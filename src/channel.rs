use vstd::prelude::*;

verus! {

/// Why a step of the client failed.
#[derive(Clone, Copy, Debug, PartialEq, Eq, Structural)]
pub enum Error {
    /// An inbound message of a kind that this side of the channel never receives.
    UnexpectedMessage,
    /// A message that should carry a state channel carried none.
    ChannelNotFound,
    /// A state channel that failed its validity check (structure, signature, owner).
    InvalidChannel,
    /// A state channel that was valid but refused by the acceptance rule.
    Refused,
    /// The transport or the store failed.
    Transport,
}

/// A state channel as plain values: its id and its encoded wire state.
pub struct StateChannel {
    pub id: Vec<u8>,
    pub state: Vec<u8>,
}

/// What a state channel is: its id and its state, as byte sequences.
pub struct ChannelView {
    pub id: Seq<u8>,
    pub state: Seq<u8>,
}

impl View for StateChannel {
    type V = ChannelView;

    open spec fn view(&self) -> ChannelView {
        ChannelView { id: self.id@, state: self.state@ }
    }
}

impl StateChannel {
    pub fn new(id: Vec<u8>, state: Vec<u8>) -> (r: StateChannel)
        ensures
            r.id@ == id@,
            r.state@ == state@,
    {
        StateChannel { id, state }
    }

    /// Whether the two channels carry the same id.
    pub fn same_id(&self, other: &StateChannel) -> (r: bool)
        ensures
            r == (self.id@ == other.id@),
    {
        bytes_equal(&self.id, &other.id)
    }
}

/// Byte-wise equality of two byte strings.
pub fn bytes_equal(a: &Vec<u8>, b: &Vec<u8>) -> (r: bool)
    ensures
        r == (a@ == b@),
{
    if a.len() != b.len() {
        return false;
    }
    let mut i: usize = 0;
    while i < a.len()
        invariant
            a@.len() == b@.len(),
            0 <= i <= a@.len(),
            forall|j: int| 0 <= j < i ==> a@[j] == b@[j],
        decreases a@.len() - i,
    {
        if a[i] != b[i] {
            return false;
        }
        i = i + 1;
    }
    assert(a@ =~= b@);
    true
}

} // verus!
