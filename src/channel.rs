use vstd::prelude::*;
use vstd::utf8::{decode_utf8, valid_utf8};

verus! {

/// Relies on `String::from_utf8`: `Ok` exactly when the bytes are valid
/// UTF-8, holding the characters they encode.
#[verifier::external_body]
fn text_from_bytes(bytes: &Vec<u8>) -> (r: Option<String>)
    ensures
        r is Some <==> valid_utf8(bytes@),
        r matches Some(s) ==> s@ == decode_utf8(bytes@),
{
    String::from_utf8(bytes.clone()).ok()
}

/// What one read on the connection to the remote player gave.
#[derive(Clone, Debug)]
pub enum ReadEvent {
    /// Some bytes arrived.
    Data(Vec<u8>),
    /// The read returned no bytes: the peer closed the connection.
    Closed,
    /// The connection has nothing to give yet.
    WouldBlock,
    /// Any other failure of the read.
    Failed,
}

/// What the reader does next.
#[derive(Clone, Debug)]
pub enum ReadAction {
    /// A whole guess arrived: hand it to the game.
    Deliver(String),
    /// The bytes so far do not decode yet: read again at once.
    ReadAgain,
    /// Nothing was ready: sleep a short while, then read again.
    Wait,
    /// The peer closed the connection: the game ends.
    Abort,
    /// The read failed: pass its error on.
    Fail,
}

/// Receives one remote guess: bytes accumulate in a buffer until they decode
/// as text, which is then delivered and the buffer cleared.
#[derive(Clone, Debug)]
pub struct GuessReceiver {
    buffer: Vec<u8>,
}

impl View for GuessReceiver {
    type V = Seq<u8>;

    /// The bytes received and not yet delivered.
    closed spec fn view(&self) -> Seq<u8> {
        self.buffer@
    }
}

impl GuessReceiver {
    pub fn new() -> (r: GuessReceiver)
        ensures
            r@ == Seq::<u8>::empty(),
    {
        GuessReceiver { buffer: Vec::new() }
    }

    /// Takes the result of one read and says what to do next.
    pub fn on_read(&mut self, event: ReadEvent) -> (r: ReadAction)
        ensures
            match event {
                ReadEvent::Data(bytes) => {
                    let all = old(self)@ + bytes@;
                    if valid_utf8(all) {
                        &&& r matches ReadAction::Deliver(s)
                        &&& s@ == decode_utf8(all)
                        &&& final(self)@ == Seq::<u8>::empty()
                    } else {
                        r is ReadAgain && final(self)@ == all
                    }
                },
                ReadEvent::Closed => r is Abort && final(self)@ == old(self)@,
                ReadEvent::WouldBlock => r is Wait && final(self)@ == old(self)@,
                ReadEvent::Failed => r is Fail && final(self)@ == old(self)@,
            },
    {
        match event {
            ReadEvent::Data(bytes) => {
                let mut i: usize = 0;
                while i < bytes.len()
                    invariant
                        i <= bytes@.len(),
                        self.buffer@ == old(self)@ + bytes@.subrange(0, i as int),
                    decreases bytes@.len() - i,
                {
                    self.buffer.push(bytes[i]);
                    i = i + 1;
                    assert(self.buffer@ =~= old(self)@ + bytes@.subrange(0, i as int));
                }
                assert(bytes@.subrange(0, bytes@.len() as int) =~= bytes@);
                match text_from_bytes(&self.buffer) {
                    Some(text) => {
                        self.buffer = Vec::new();
                        ReadAction::Deliver(text)
                    },
                    None => ReadAction::ReadAgain,
                }
            },
            ReadEvent::Closed => ReadAction::Abort,
            ReadEvent::WouldBlock => ReadAction::Wait,
            ReadEvent::Failed => ReadAction::Fail,
        }
    }
}

} // verus!
