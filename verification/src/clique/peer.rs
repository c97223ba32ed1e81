//! Peers, their addresses and the connections to them.

use vstd::prelude::*;
use vstd::string::{StrSliceExecFns, StringExecFns};
use vstd::utf8::encode_utf8;

verus! {

/// A basic alias for properties we expect basic data to satisfy.
pub trait Data: Clone + Send + Sync + 'static {

}

impl<D: Clone + Send + Sync + 'static> Data for D {

}

/// Ids whose text has at most this many bytes are logged as they are.
pub const SHORT_ID_BYTES: usize = 12;

/// How many characters of the start of a longer id are logged.
pub const ID_PREFIX_CHARS: usize = 4;

/// How many bytes of the end of a longer id are logged.
pub const ID_SUFFIX_BYTES: usize = 8;

/// The shorter version of a text: its start and its end. How much of the start
/// is left out is counted in characters, as many as the text has bytes but for
/// the last few.
pub open spec fn short_text(id: Seq<char>) -> Seq<char> {
    let bytes = encode_utf8(id).len();
    if bytes <= SHORT_ID_BYTES {
        id
    } else {
        let prefix = if id.len() <= ID_PREFIX_CHARS {
            id
        } else {
            id.subrange(0, ID_PREFIX_CHARS as int)
        };
        let skipped = bytes - ID_SUFFIX_BYTES;
        let suffix = if id.len() <= skipped {
            Seq::empty()
        } else {
            id.subrange(skipped, id.len() as int)
        };
        prefix + "…"@ + suffix
    }
}

/// The shorter version of a text.
pub fn shorten(id: &str) -> (short: String)
    ensures
        short@ == short_text(id@),
{
    let bytes: usize = id.as_bytes().len();
    if bytes <= SHORT_ID_BYTES {
        return id.to_owned();
    }
    let chars: usize = id.unicode_len();
    let prefix_end: usize = if chars <= ID_PREFIX_CHARS {
        chars
    } else {
        ID_PREFIX_CHARS
    };
    let skipped: usize = bytes.saturating_sub(ID_SUFFIX_BYTES);
    let suffix_start: usize = if chars <= skipped {
        chars
    } else {
        skipped
    };
    let mut short = id.substring_char(0, prefix_end).to_owned();
    short.append("…");
    short.append(id.substring_char(suffix_start, chars));
    proof {
        assert(id@.subrange(0, id@.len() as int) =~= id@);
        assert(id@.subrange(id@.len() as int, id@.len() as int) =~= Seq::empty());
    }
    short
}

/// Represents the id of an arbitrary node.
pub trait PeerId: Sized {
    /// The text of the id.
    fn to_text(&self) -> (text: String);

    /// This function is used for logging. It implements a shorter version of the
    /// text of the id.
    fn to_short_string(&self) -> (short: String)
        ensures
            exists|id: String| #[trigger]
                call_ensures(Self::to_text, (self,), id) && short@ == short_text(id@),
    {
        let id = self.to_text();
        shorten(id.as_str())
    }
}

/// Represents the address of an arbitrary node.
pub trait AddressingInformation: Sized {
    type PeerId: PeerId;

    /// Returns the peer id associated with this address.
    fn peer_id(&self) -> Self::PeerId;

    /// Verify the information.
    fn verify(&self) -> bool;
}

/// Abstraction for requesting own network addressing information.
pub trait NetworkIdentity {
    type PeerId: PeerId;

    type AddressingInformation: AddressingInformation<PeerId = Self::PeerId>;

    /// The external identity of this node.
    fn identity(&self) -> Self::AddressingInformation;
}

/// The address of a peer, in words.
pub type PeerAddressInfo = String;

/// Reports address of the peer that we are connected to.
pub trait ConnectionInfo {
    /// Return the address of the peer that we are connected to.
    fn peer_address_info(&self) -> (info: PeerAddressInfo);
}

/// The address of the peer of a whole stream: the address, or why it is unknown.
pub fn stream_address_info(address: Result<String, String>) -> (info: PeerAddressInfo)
    ensures
        info@ == match address {
            Ok(address) => address@,
            Err(error) => "unknown address: "@ + error@,
        },
{
    match address {
        Ok(address) => address,
        Err(error) => {
            let mut info = "unknown address: ".to_owned();
            info.append(error.as_str());
            info
        },
    }
}

/// The address of the peer of one half of a stream: the address, or the error
/// that came in its place.
pub fn half_address_info(address: Result<String, String>) -> (info: PeerAddressInfo)
    ensures
        info@ == match address {
            Ok(address) => address@,
            Err(error) => error@,
        },
{
    match address {
        Ok(address) => address,
        Err(error) => error,
    }
}

/// The receiving and the sending part of a connection, held together.
#[derive(Debug)]
pub struct Splitted<I, O>(pub I, pub O);

impl<I, O> Splitted<I, O> {
    /// Split into the sending and receiving part.
    pub fn split(self) -> (parts: (O, I))
        ensures
            parts == (self.1, self.0),
    {
        (self.1, self.0)
    }
}

impl<I, O: ConnectionInfo> ConnectionInfo for Splitted<I, O> {
    /// The address that the sending part reports.
    fn peer_address_info(&self) -> (info: PeerAddressInfo)
        ensures
            call_ensures(O::peer_address_info, (&self.1,), info),
    {
        self.1.peer_address_info()
    }
}

/// A text of more than twelve one-byte characters is cut to the first four and
/// the last eight, which is never longer than the text.
pub proof fn one_byte_texts_are_cut(id: Seq<char>)
    requires
        encode_utf8(id).len() == id.len(),
        id.len() > SHORT_ID_BYTES,
    ensures
        short_text(id) == id.subrange(0, 4) + "…"@ + id.subrange(id.len() - 8, id.len() as int),
        short_text(id).len() == 13,
        short_text(id).len() <= id.len(),
{
    reveal_strlit("…");
}

/// A short text is left as it is, and of a longer one the first four characters
/// stay, then comes a mark, and then the text from as far behind its start as it
/// has bytes but eight, as far as it reaches.
pub proof fn short_texts_stay_and_long_ones_are_cut(id: Seq<char>, i: int)
    ensures
        ({
            let bytes = encode_utf8(id).len();
            let short = short_text(id);
            let kept = if id.len() < 4 {
                id.len() as int
            } else {
                4
            };
            let skipped = bytes - 8;
            let ending = if id.len() > skipped {
                id.len() - skipped
            } else {
                0
            };
            &&& bytes <= 12 ==> short == id
            &&& bytes > 12 ==> {
                &&& short.len() == kept + 1 + ending
                &&& 0 <= i < kept ==> short[i] == id[i]
                &&& short[kept] == '…'
                &&& 0 <= i < ending ==> short[kept + 1 + i] == id[skipped + i]
            }
        }),
{
    reveal_strlit("…");
}

} // verus!
