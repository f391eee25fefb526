//! The plain-value model of the transport substrate's identifiers. A peer
//! identity is opaque: the node only ever compares identities and shows
//! their textual form, so the model holds exactly that text. An address is
//! likewise carried as its textual form; whether that text names a
//! reachable endpoint is the substrate's business, decided where the dial
//! is attempted.

use vstd::prelude::*;
use vstd::string::{StrSliceExecFns, StringExecFns};

verus! {

/// The globally-unique identifier of a node, as its textual form. Two
/// identities are the same peer exactly when their texts agree; no logic
/// here looks inside the text.
#[derive(Clone, Debug, PartialEq, Eq)]
pub struct PeerIdentity {
    pub text: String,
}

impl View for PeerIdentity {
    type V = Seq<char>;

    open spec fn view(&self) -> Seq<char> {
        self.text@
    }
}

impl PeerIdentity {
    /// Wraps the textual form the substrate reported.
    pub fn new(text: String) -> (r: PeerIdentity)
        ensures
            r@ == text@,
    {
        PeerIdentity { text }
    }

    /// An owned copy of this identity.
    pub fn duplicate(&self) -> (r: PeerIdentity)
        ensures
            r@ == self@,
    {
        PeerIdentity { text: self.text.clone() }
    }

    /// Whether the two identities name the same peer.
    pub fn same_as(&self, other: &PeerIdentity) -> (r: bool)
        ensures
            r == (self@ == other@),
    {
        self.text == other.text
    }
}

/// A peer-transport address, as the text the user typed or the substrate
/// reported. Invalid text is found out where the substrate parses it, and
/// is a recoverable error there, never a crash here.
#[derive(Clone, Debug, PartialEq, Eq)]
pub struct Multiaddress {
    pub text: String,
}

impl View for Multiaddress {
    type V = Seq<char>;

    open spec fn view(&self) -> Seq<char> {
        self.text@
    }
}

impl Multiaddress {
    /// Wraps address text.
    pub fn new(text: String) -> (r: Multiaddress)
        ensures
            r@ == text@,
    {
        Multiaddress { text }
    }

    /// An owned copy of this address.
    pub fn duplicate(&self) -> (r: Multiaddress)
        ensures
            r@ == self@,
    {
        Multiaddress { text: self.text.clone() }
    }
}

/// A named publish/subscribe channel. The node creates its one well-known
/// topic at start and never changes it.
#[derive(Clone, Debug, PartialEq, Eq)]
pub struct Topic {
    pub name: String,
}

impl View for Topic {
    type V = Seq<char>;

    open spec fn view(&self) -> Seq<char> {
        self.name@
    }
}

impl Topic {
    /// Wraps a topic name.
    pub fn new(name: String) -> (r: Topic)
        ensures
            r@ == name@,
    {
        Topic { name }
    }

    /// An owned copy of this topic.
    pub fn duplicate(&self) -> (r: Topic)
        ensures
            r@ == self@,
    {
        Topic { name: self.name.clone() }
    }
}

/// How many characters of an identity's textual form stand in for it in
/// chat lines.
pub const SHORT_ID_LEN: usize = 8;

/// The cosmetic short form of an identity: a fixed-length prefix of its
/// text (the whole text when it is shorter). Used only for display, never
/// for comparison.
pub open spec fn spec_short_id(s: Seq<char>) -> Seq<char> {
    if s.len() <= SHORT_ID_LEN {
        s
    } else {
        s.subrange(0, SHORT_ID_LEN as int)
    }
}

impl PeerIdentity {
    /// The truncated display form of this identity, per [`spec_short_id`].
    pub fn short_id(&self) -> (r: String)
        ensures
            r@ == spec_short_id(self@),
    {
        let n: usize = self.text.as_str().unicode_len();
        if n <= SHORT_ID_LEN {
            self.text.clone()
        } else {
            let prefix: &str = self.text.as_str().substring_char(0, SHORT_ID_LEN);
            String::from_str(prefix)
        }
    }
}

} // verus!
