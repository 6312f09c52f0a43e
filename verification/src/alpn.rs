//! Application-layer protocol identifiers and their negotiation.
//!
//! The server keeps a preference table, most preferred first. A client offers
//! a list of identifiers. The selector walks the table in order and takes the
//! first identifier that the client offered, byte for byte; with none in
//! common the handshake is refused.

use vstd::prelude::*;

verus! {

/// A protocol identifier: the byte string that names an application protocol
/// in the TLS handshake.
#[derive(Debug, Clone, PartialEq, Eq)]
pub struct ProtocolId {
    pub bytes: Vec<u8>,
}

impl View for ProtocolId {
    type V = Seq<u8>;

    open spec fn view(&self) -> Seq<u8> {
        self.bytes@
    }
}

/// The outcome of one negotiation, kept for the life of the connection.
#[derive(Debug, Clone, PartialEq, Eq)]
pub enum NegotiatedProtocol {
    /// The protocol both sides will speak.
    Chosen(ProtocolId),
    /// No protocol of the server's table was offered.
    Rejected,
}

impl View for NegotiatedProtocol {
    type V = Option<Seq<u8>>;

    open spec fn view(&self) -> Option<Seq<u8>> {
        match self {
            NegotiatedProtocol::Chosen(id) => Some(id@),
            NegotiatedProtocol::Rejected => None,
        }
    }
}

/// Why a handshake ends without an application protocol.
#[derive(Debug, Clone, Copy, PartialEq, Eq, Structural)]
pub enum AlpnNegotiationFailure {
    /// The offer is well formed and holds none of the server's protocols.
    NoApplicationProtocol,
    /// The offer is not a sequence of length-prefixed, non-empty names.
    MalformedOffer,
}

/// The bytes of `h2`.
pub open spec fn h2_token() -> Seq<u8> {
    seq![0x68u8, 0x32u8]
}

/// The bytes of `http/1.1`.
pub open spec fn http11_token() -> Seq<u8> {
    seq![0x68u8, 0x74u8, 0x74u8, 0x70u8, 0x2fu8, 0x31u8, 0x2eu8, 0x31u8]
}

/// The bytes of `h3`.
pub open spec fn h3_token() -> Seq<u8> {
    seq![0x68u8, 0x33u8]
}

/// The server's table on the TLS stream transport: `h2` before `http/1.1`.
pub open spec fn tls_table() -> Seq<Seq<u8>> {
    seq![h2_token(), http11_token()]
}

/// The server's table on the QUIC transport: `h3` alone.
pub open spec fn quic_table() -> Seq<Seq<u8>> {
    seq![h3_token()]
}

/// The byte strings of a list of identifiers, in order.
pub open spec fn tokens(ids: Seq<ProtocolId>) -> Seq<Seq<u8>> {
    ids.map_values(|id: ProtocolId| id@)
}

/// `i` is the position in `preferences` of the first entry that `offered` holds.
pub open spec fn is_first_match(preferences: Seq<Seq<u8>>, offered: Seq<Seq<u8>>, i: int) -> bool {
    &&& 0 <= i < preferences.len()
    &&& offered.contains(preferences[i])
    &&& forall|j: int| 0 <= j < i ==> !offered.contains(#[trigger] preferences[j])
}

/// No entry of `preferences` is in `offered`.
pub open spec fn nothing_in_common(preferences: Seq<Seq<u8>>, offered: Seq<Seq<u8>>) -> bool {
    forall|i: int| 0 <= i < preferences.len() ==> !offered.contains(#[trigger] preferences[i])
}

/// What the selector answers: the first entry of `preferences` that is in
/// `offered`, or nothing.
pub open spec fn selection(preferences: Seq<Seq<u8>>, offered: Seq<Seq<u8>>) -> Option<Seq<u8>> {
    if exists|i: int| is_first_match(preferences, offered, i) {
        Some(preferences[choose|i: int| is_first_match(preferences, offered, i)])
    } else {
        None
    }
}

/// The names that a wire-format offer holds. Each name is one length byte
/// followed by that many bytes; a name of length zero, or one that runs past
/// the end, makes the whole offer malformed.
pub open spec fn decode_list(wire: Seq<u8>) -> Option<Seq<Seq<u8>>>
    decreases wire.len(),
{
    if wire.len() == 0 {
        Some(Seq::empty())
    } else {
        let n = wire[0] as int;
        if n == 0 || 1 + n > wire.len() {
            None
        } else {
            match decode_list(wire.skip(1 + n)) {
                Some(rest) => Some(seq![wire.subrange(1, 1 + n)] + rest),
                None => None,
            }
        }
    }
}

/// Every name has between 1 and 255 bytes, so that one byte holds its length.
pub open spec fn encodable(names: Seq<Seq<u8>>) -> bool {
    forall|i: int| 0 <= i < names.len() ==> 1 <= (#[trigger] names[i]).len() <= 255
}

/// The wire format of a list of names.
pub open spec fn encode_list(names: Seq<Seq<u8>>) -> Seq<u8>
    decreases names.len(),
{
    if names.len() == 0 {
        Seq::empty()
    } else {
        seq![names[0].len() as u8] + names[0] + encode_list(names.skip(1))
    }
}

/// What a negotiation over a wire-format offer answers.
pub open spec fn negotiation(preferences: Seq<Seq<u8>>, wire: Seq<u8>) -> Result<
    Seq<u8>,
    AlpnNegotiationFailure,
> {
    match decode_list(wire) {
        None => Err(AlpnNegotiationFailure::MalformedOffer),
        Some(offered) => match selection(preferences, offered) {
            Some(id) => Ok(id),
            None => Err(AlpnNegotiationFailure::NoApplicationProtocol),
        },
    }
}

/// At most one position is the first match.
pub proof fn lemma_first_match_unique(
    preferences: Seq<Seq<u8>>,
    offered: Seq<Seq<u8>>,
    i: int,
    j: int,
)
    requires
        is_first_match(preferences, offered, i),
        is_first_match(preferences, offered, j),
    ensures
        i == j,
{
    if i < j {
        assert(!offered.contains(preferences[i]));
    } else if j < i {
        assert(!offered.contains(preferences[j]));
    }
}

/// The selector returns the first element of the preference list, in order,
/// that appears in the offer; where no element appears, it returns nothing.
pub proof fn lemma_selection_first_match(preferences: Seq<Seq<u8>>, offered: Seq<Seq<u8>>)
    ensures
        match selection(preferences, offered) {
            Some(id) => exists|i: int|
                is_first_match(preferences, offered, i) && preferences[i] == id,
            None => nothing_in_common(preferences, offered),
        },
        selection(preferences, offered) is None <==> nothing_in_common(preferences, offered),
{
    if exists|i: int| is_first_match(preferences, offered, i) {
        let i = choose|i: int| is_first_match(preferences, offered, i);
        assert(offered.contains(preferences[i]));
    } else {
        lemma_no_first_match(preferences, offered, preferences.len() as int);
    }
}

/// Where no position is a first match, no entry before `k` is offered.
proof fn lemma_no_first_match(preferences: Seq<Seq<u8>>, offered: Seq<Seq<u8>>, k: int)
    requires
        0 <= k <= preferences.len(),
        forall|i: int| !is_first_match(preferences, offered, i),
    ensures
        forall|i: int| 0 <= i < k ==> !offered.contains(#[trigger] preferences[i]),
    decreases k,
{
    if k > 0 {
        lemma_no_first_match(preferences, offered, k - 1);
        assert(!is_first_match(preferences, offered, k - 1));
    }
}

/// An offer that holds the most preferred protocol yields it, whatever else
/// it holds.
pub proof fn lemma_most_preferred_wins(preferences: Seq<Seq<u8>>, offered: Seq<Seq<u8>>)
    requires
        preferences.len() > 0,
        offered.contains(preferences[0]),
    ensures
        selection(preferences, offered) == Some(preferences[0]),
{
    assert(is_first_match(preferences, offered, 0));
    let i = choose|i: int| is_first_match(preferences, offered, i);
    lemma_first_match_unique(preferences, offered, i, 0);
}

/// Decoding undoes encoding, for every list that can be encoded.
pub proof fn lemma_decode_encode(names: Seq<Seq<u8>>)
    requires
        encodable(names),
    ensures
        decode_list(encode_list(names)) == Some(names),
    decreases names.len(),
{
    if names.len() > 0 {
        let head = names[0];
        let rest = names.skip(1);
        let wire = encode_list(names);
        assert(encodable(rest)) by {
            assert forall|i: int| 0 <= i < rest.len() implies 1 <= (#[trigger] rest[i]).len()
                <= 255 by {
                assert(rest[i] == names[i + 1]);
            }
        }
        lemma_decode_encode(rest);
        let n = head.len() as int;
        assert(wire[0] == head.len() as u8);
        assert(wire.subrange(1, 1 + n) =~= head);
        assert(wire.skip(1 + n) =~= encode_list(rest));
        assert(seq![head] + rest =~= names);
    } else {
        assert(encode_list(names) =~= Seq::<u8>::empty());
    }
}

/// A well-formed offer is the encoding of the names it decodes to, and those
/// names can be encoded.
pub proof fn lemma_encode_decode(wire: Seq<u8>)
    requires
        decode_list(wire) is Some,
    ensures
        encodable(decode_list(wire)->0),
        encode_list(decode_list(wire)->0) == wire,
    decreases wire.len(),
{
    if wire.len() > 0 {
        let n = wire[0] as int;
        let tail = wire.skip(1 + n);
        lemma_encode_decode(tail);
        let rest = decode_list(tail)->0;
        let head = wire.subrange(1, 1 + n);
        let names = seq![head] + rest;
        assert(names.skip(1) =~= rest);
        assert(names[0] == head);
        assert(encodable(names)) by {
            assert forall|i: int| 0 <= i < names.len() implies 1 <= (#[trigger] names[i]).len()
                <= 255 by {
                if i > 0 {
                    assert(names[i] == rest[i - 1]);
                }
            }
        }
        assert(seq![head.len() as u8] + head + encode_list(rest) =~= wire);
    } else {
        assert(wire =~= Seq::<u8>::empty());
    }
}

/// Whether two byte strings are the same.
fn same_bytes(a: &Vec<u8>, b: &Vec<u8>) -> (same: bool)
    ensures
        same == (a@ == b@),
{
    if a.len() != b.len() {
        return false;
    }
    let mut i: usize = 0;
    while i < a.len()
        invariant
            i <= a.len(),
            a.len() == b.len(),
            forall|k: int| 0 <= k < i ==> a@[k] == b@[k],
        decreases a.len() - i,
    {
        if a[i] != b[i] {
            return false;
        }
        i += 1;
    }
    assert(a@ =~= b@);
    true
}

/// A copy of a byte string.
fn copy_bytes(a: &Vec<u8>) -> (copy: Vec<u8>)
    ensures
        copy@ == a@,
{
    let mut copy: Vec<u8> = Vec::new();
    let mut i: usize = 0;
    while i < a.len()
        invariant
            i <= a.len(),
            copy@ == a@.take(i as int),
        decreases a.len() - i,
    {
        copy.push(a[i]);
        assert(a@.take(i as int).push(a@[i as int]) =~= a@.take(i + 1));
        i += 1;
    }
    assert(a@.take(a.len() as int) =~= a@);
    copy
}

impl ProtocolId {
    /// The identifier made of the given bytes.
    pub fn new(bytes: Vec<u8>) -> (id: ProtocolId)
        ensures
            id@ == bytes@,
    {
        ProtocolId { bytes }
    }

    /// HTTP/2 over TLS.
    pub fn h2() -> (id: ProtocolId)
        ensures
            id@ == h2_token(),
    {
        let mut bytes: Vec<u8> = Vec::new();
        bytes.push(0x68u8);
        bytes.push(0x32u8);
        assert(bytes@ =~= h2_token());
        ProtocolId { bytes }
    }

    /// HTTP/1.1.
    pub fn http11() -> (id: ProtocolId)
        ensures
            id@ == http11_token(),
    {
        let mut bytes: Vec<u8> = Vec::new();
        bytes.push(0x68u8);
        bytes.push(0x74u8);
        bytes.push(0x74u8);
        bytes.push(0x70u8);
        bytes.push(0x2fu8);
        bytes.push(0x31u8);
        bytes.push(0x2eu8);
        bytes.push(0x31u8);
        assert(bytes@ =~= http11_token());
        ProtocolId { bytes }
    }

    /// HTTP/3 over QUIC.
    pub fn h3() -> (id: ProtocolId)
        ensures
            id@ == h3_token(),
    {
        let mut bytes: Vec<u8> = Vec::new();
        bytes.push(0x68u8);
        bytes.push(0x33u8);
        assert(bytes@ =~= h3_token());
        ProtocolId { bytes }
    }

    /// The identifier's bytes.
    pub fn as_bytes(&self) -> (bytes: &Vec<u8>)
        ensures
            bytes@ == self@,
    {
        &self.bytes
    }

    /// Whether both identifiers are the same byte string.
    pub fn matches(&self, other: &ProtocolId) -> (same: bool)
        ensures
            same == (self@ == other@),
    {
        same_bytes(&self.bytes, &other.bytes)
    }

    /// Another identifier with the same bytes.
    pub fn duplicate(&self) -> (id: ProtocolId)
        ensures
            id@ == self@,
    {
        ProtocolId { bytes: copy_bytes(&self.bytes) }
    }
}

/// The server's preference table for the TLS stream transport.
pub fn tls_protocols() -> (table: Vec<ProtocolId>)
    ensures
        tokens(table@) == tls_table(),
{
    let mut table: Vec<ProtocolId> = Vec::new();
    table.push(ProtocolId::h2());
    table.push(ProtocolId::http11());
    assert(tokens(table@) =~= tls_table());
    table
}

/// The server's preference table for the QUIC transport.
pub fn quic_protocols() -> (table: Vec<ProtocolId>)
    ensures
        tokens(table@) == quic_table(),
{
    let mut table: Vec<ProtocolId> = Vec::new();
    table.push(ProtocolId::h3());
    assert(tokens(table@) =~= quic_table());
    table
}

/// Whether the offer holds the identifier.
pub fn is_offered(offered: &Vec<ProtocolId>, id: &ProtocolId) -> (found: bool)
    ensures
        found == tokens(offered@).contains(id@),
{
    let mut k: usize = 0;
    while k < offered.len()
        invariant
            k <= offered.len(),
            forall|m: int| 0 <= m < k ==> tokens(offered@)[m] != id@,
        decreases offered.len() - k,
    {
        if offered[k].matches(id) {
            assert(tokens(offered@)[k as int] == id@);
            return true;
        }
        k += 1;
    }
    false
}

/// Picks the protocol of a connection: the first entry of `preferences` that
/// `offered` holds, or a rejection where it holds none.
pub fn select(preferences: &Vec<ProtocolId>, offered: &Vec<ProtocolId>) -> (outcome:
    NegotiatedProtocol)
    ensures
        outcome@ == selection(tokens(preferences@), tokens(offered@)),
        match outcome {
            NegotiatedProtocol::Chosen(id) => exists|i: int|
                is_first_match(tokens(preferences@), tokens(offered@), i) && id@ == tokens(
                    preferences@,
                )[i],
            NegotiatedProtocol::Rejected => nothing_in_common(
                tokens(preferences@),
                tokens(offered@),
            ),
        },
{
    let ghost p = tokens(preferences@);
    let ghost c = tokens(offered@);
    let mut i: usize = 0;
    while i < preferences.len()
        invariant
            i <= preferences.len(),
            p == tokens(preferences@),
            c == tokens(offered@),
            forall|j: int| 0 <= j < i ==> !c.contains(#[trigger] p[j]),
        decreases preferences.len() - i,
    {
        if is_offered(offered, &preferences[i]) {
            let id = preferences[i].duplicate();
            proof {
                assert(p[i as int] == preferences@[i as int]@);
                assert(is_first_match(p, c, i as int));
                let w = choose|w: int| is_first_match(p, c, w);
                lemma_first_match_unique(p, c, w, i as int);
            }
            return NegotiatedProtocol::Chosen(id);
        }
        assert(p[i as int] == preferences@[i as int]@);
        i += 1;
    }
    proof {
        assert(nothing_in_common(p, c));
        assert forall|w: int| !is_first_match(p, c, w) by {
            if 0 <= w < p.len() {
                assert(!c.contains(p[w]));
            }
        }
    }
    NegotiatedProtocol::Rejected
}

/// Reads a wire-format offer into its names, or tells that it is malformed.
pub fn decode_protocol_list(wire: &[u8]) -> (names: Option<Vec<ProtocolId>>)
    ensures
        match names {
            Some(ids) => decode_list(wire@) == Some(tokens(ids@)),
            None => decode_list(wire@) is None,
        },
{
    let mut out: Vec<ProtocolId> = Vec::new();
    let mut pos: usize = 0;
    assert(wire@.skip(0) =~= wire@);
    assert(tokens(out@) =~= Seq::<Seq<u8>>::empty());
    while pos < wire.len()
        invariant
            pos <= wire.len(),
            decode_list(wire@) == match decode_list(wire@.skip(pos as int)) {
                Some(rest) => Some(tokens(out@) + rest),
                None => None,
            },
        decreases wire.len() - pos,
    {
        let ghost tail = wire@.skip(pos as int);
        let n: usize = wire[pos] as usize;
        assert(tail[0] == wire@[pos as int]);
        if n == 0 || n > wire.len() - pos - 1 {
            return None;
        }
        let mut bytes: Vec<u8> = Vec::new();
        let mut k: usize = 0;
        while k < n
            invariant
                k <= n,
                pos + 1 + n <= wire.len(),
                bytes@ == wire@.subrange(pos + 1, pos + 1 + k),
            decreases n - k,
        {
            bytes.push(wire[pos + 1 + k]);
            assert(wire@.subrange(pos + 1, pos + 1 + k).push(wire@[pos + 1 + k])
                =~= wire@.subrange(pos + 1, pos + 1 + k + 1));
            k += 1;
        }
        let ghost before = tokens(out@);
        out.push(ProtocolId { bytes });
        proof {
            let name = tail.subrange(1, 1 + n);
            assert(name =~= wire@.subrange(pos + 1, pos + 1 + n));
            assert(tail.skip(1 + n) =~= wire@.skip(pos + 1 + n));
            assert(tokens(out@) =~= before.push(name));
            match decode_list(wire@.skip(pos + 1 + n)) {
                Some(rest) => {
                    assert(before + (seq![name] + rest) =~= before.push(name) + rest);
                },
                None => {},
            }
        }
        pos = pos + 1 + n;
    }
    proof {
        assert(wire@.skip(pos as int).len() == 0);
        assert(tokens(out@) + Seq::<Seq<u8>>::empty() =~= tokens(out@));
    }
    Some(out)
}

/// Writes a list of names in wire format. A name that is empty or longer
/// than 255 bytes cannot be written.
pub fn encode_protocol_list(names: &Vec<ProtocolId>) -> (wire: Option<Vec<u8>>)
    ensures
        wire is Some <==> encodable(tokens(names@)),
        wire matches Some(w) ==> w@ == encode_list(tokens(names@)),
{
    let ghost all = tokens(names@);
    let mut out: Vec<u8> = Vec::new();
    let mut i: usize = names.len();
    assert(all.skip(i as int) =~= Seq::<Seq<u8>>::empty());
    while i > 0
        invariant
            i <= names.len(),
            all == tokens(names@),
            encodable(all.skip(i as int)),
            out@ == encode_list(all.skip(i as int)),
        decreases i,
    {
        i -= 1;
        let name = &names[i].bytes;
        let len = name.len();
        if len == 0 || len > 255 {
            proof {
                assert(all[i as int] == name@);
                assert(!(1 <= all[i as int].len() <= 255));
            }
            return None;
        }
        let ghost suffix = all.skip(i as int);
        proof {
            assert(suffix[0] == name@);
            assert(suffix.skip(1) =~= all.skip(i + 1));
            assert(encodable(suffix)) by {
                assert forall|k: int| 0 <= k < suffix.len() implies 1 <= (
                #[trigger] suffix[k]).len() <= 255 by {
                    if k > 0 {
                        assert(suffix[k] == all.skip(i + 1)[k - 1]);
                    }
                }
            }
        }
        let mut entry: Vec<u8> = Vec::new();
        entry.push(len as u8);
        let mut k: usize = 0;
        while k < len
            invariant
                k <= len,
                len == name.len(),
                entry@ == seq![len as u8] + name@.take(k as int),
            decreases len - k,
        {
            entry.push(name[k]);
            assert((seq![len as u8] + name@.take(k as int)).push(name@[k as int]) =~= seq![
                len as u8,
            ] + name@.take(k + 1));
            k += 1;
        }
        assert(name@.take(len as int) =~= name@);
        let ghost tail = out@;
        entry.append(&mut out);
        out = entry;
        assert(out@ =~= seq![len as u8] + name@ + tail);
    }
    assert(all.skip(0) =~= all);
    Some(out)
}

/// Negotiates over the offer as the handshake carries it: decodes the names
/// and selects among them. A malformed offer and an offer with nothing in
/// common both end the handshake.
pub fn negotiate(preferences: &Vec<ProtocolId>, wire: &[u8]) -> (outcome: Result<
    ProtocolId,
    AlpnNegotiationFailure,
>)
    ensures
        match outcome {
            Ok(id) => negotiation(tokens(preferences@), wire@) == Ok::<
                Seq<u8>,
                AlpnNegotiationFailure,
            >(id@),
            Err(e) => negotiation(tokens(preferences@), wire@) == Err::<
                Seq<u8>,
                AlpnNegotiationFailure,
            >(e),
        },
{
    match decode_protocol_list(wire) {
        None => Err(AlpnNegotiationFailure::MalformedOffer),
        Some(offered) => match select(preferences, &offered) {
            NegotiatedProtocol::Chosen(id) => Ok(id),
            NegotiatedProtocol::Rejected => Err(AlpnNegotiationFailure::NoApplicationProtocol),
        },
    }
}

} // verus!
