//! The social-relay call gate: posts a call announcement, scans the replies
//! for an out-of-band handshake value, and opens a peer stream.
//!
//! The relay collaborators are in-crate stubs: the post always
//! succeeds, the mention list is fixed, and the stream transport accepts
//! every chunk. This module's own bookkeeping — identity check, budget
//! charge, handshake parsing, mode dispatch — carries the contracts.

use vstd::prelude::*;
use vstd::string::StringSliceAdditionalSpecFns;

use crate::errors::GateError;
use crate::errors::OverloadKind;
use crate::ledger::ledger_wf;
use crate::ledger::ResourceLedger;
use crate::ledger::GAZE_CAP;
use crate::ledger::GAZE_COST;
use crate::ledger::TENDON_CAP;
use crate::ledger::TENDON_COST;
use crate::mirror::mirror_breath;
use crate::mirror::spec_is_mirrored;
use crate::mirror::spec_mirror_token;
use crate::mirror::verify_mirror;
use crate::text::decimal_string;
use crate::text::spec_split_char;
use crate::text::split_char;
use crate::text::str_eq;

verus! {

/// Voice sample rate of the peer stream, in hertz.
pub const SAMPLE_RATE: u32 = 44100;

/// Size of one file chunk on the peer stream, in bytes.
pub const CHUNK_SIZE: usize = 65536;

/// The marker token that announces a handshake value in a reply: the next
/// whitespace-delimited token after it is the peer-supplied value.
pub open spec fn spec_marker() -> Seq<char> {
    "seed:"@
}

/// The peer value carried by a token list: the token after the first
/// marker, an empty value when the marker is the last token, and nothing
/// when no marker is present.
pub open spec fn spec_peer_after_marker(toks: Seq<Seq<char>>) -> Option<Seq<char>>
    decreases toks.len(),
{
    if toks.len() == 0 {
        None
    } else if toks.first() == spec_marker() {
        if toks.len() >= 2 {
            Some(toks[1])
        } else {
            Some(Seq::<char>::empty())
        }
    } else {
        spec_peer_after_marker(toks.drop_first())
    }
}

/// The peer value carried by a reply, if any.
pub open spec fn spec_handshake(reply: Seq<char>) -> Option<Seq<char>> {
    spec_peer_after_marker(spec_split_char(reply, ' '))
}

/// The fixed reply list of the relay stub.
pub open spec fn spec_mentions() -> Seq<Seq<char>> {
    seq!["Reply with seed: deadbeef"@]
}

/// Some reply of the list carries a handshake value.
pub open spec fn spec_any_handshake(mentions: Seq<Seq<char>>) -> bool {
    exists|i: int| 0 <= i < mentions.len() && (#[trigger] spec_handshake(mentions[i])) is Some
}

/// The streaming modes a call can dispatch.
pub open spec fn spec_mode_ok(mode: Seq<char>) -> bool {
    mode == "voice"@ || mode == "file"@
}

/// Extract the handshake value of a reply: the first whitespace-delimited
/// token after the marker token.
pub fn find_peer(reply: &str) -> (r: Option<String>)
    ensures
        r is Some <==> spec_handshake(reply@) is Some,
        r is Some ==> r->0@ == spec_handshake(reply@)->0,
{
    let toks = split_char(reply, ' ');
    let ghost tv = toks.deep_view();
    let len = toks.len();
    proof {
        assert(tv.subrange(0, len as int) =~= tv);
    }
    let mut i: usize = 0;
    while i < len
        invariant
            i <= len,
            len == tv.len(),
            tv == toks.deep_view(),
            tv == spec_split_char(reply@, ' '),
            spec_peer_after_marker(tv) == spec_peer_after_marker(tv.subrange(i as int, len as int)),
        decreases len - i,
    {
        proof {
            let rest = tv.subrange(i as int, len as int);
            assert(rest.first() == tv[i as int]);
            assert(rest.drop_first() =~= tv.subrange(i as int + 1, len as int));
            assert(tv[i as int] == toks@[i as int].deep_view());
        }
        if str_eq(toks[i].as_str(), "seed:") {
            if i + 1 < len {
                proof {
                    let rest = tv.subrange(i as int, len as int);
                    assert(rest.first() == spec_marker());
                    assert(rest[1] == tv[i as int + 1]);
                    assert(spec_peer_after_marker(rest) == Some(tv[i as int + 1]));
                    assert(tv[i as int + 1] == toks@[i as int + 1].deep_view());
                }
                return Some(toks[i + 1].clone());
            } else {
                proof {
                    let rest = tv.subrange(i as int, len as int);
                    assert(rest.first() == spec_marker());
                    assert(rest.len() == 1);
                    assert(spec_peer_after_marker(rest) == Some(Seq::<char>::empty()));
                }
                return Some(String::new());
            }
        }
        i = i + 1;
    }
    proof {
        assert(tv.subrange(len as int, len as int) =~= Seq::<Seq<char>>::empty());
    }
    None
}

/// A zero-filled chunk for the mock stream transport.
fn zero_chunk(n: usize) -> (r: Vec<u8>)
    ensures
        r@.len() == n,
{
    let mut chunk: Vec<u8> = Vec::new();
    let mut i: usize = 0;
    while i < n
        invariant
            i <= n,
            chunk@.len() == i,
        decreases n - i,
    {
        chunk.push(0u8);
        i = i + 1;
    }
    chunk
}

/// The relay call gate, charging the shared session budget for each
/// committed call.
pub struct GrokCall {
    pub ledger: ResourceLedger,
}

impl GrokCall {
    /// A fresh gate with a zeroed ledger.
    pub fn new() -> (r: GrokCall)
        ensures
            r.ledger.tendon_load == 0,
            r.ledger.gaze_duration == 0,
            r.ledger.breath_count == 0,
            ledger_wf(r.ledger),
    {
        GrokCall { ledger: ResourceLedger::new() }
    }

    /// Post a line to the social relay. The stub relay accepts every
    /// post.
    pub fn post_to_x(&self, _text: &str) -> (r: bool)
        ensures
            r,
    {
        true
    }

    /// The replies mentioning this session. The stub relay hands back one
    /// fixed reply carrying a handshake value.
    pub fn get_mentions(&self) -> (r: Vec<String>)
        ensures
            r.deep_view() == spec_mentions(),
    {
        let mut mentions: Vec<String> = Vec::new();
        mentions.push(String::from_str("Reply with seed: deadbeef"));
        proof {
            assert(mentions.deep_view() =~= spec_mentions());
        }
        mentions
    }

    /// Stream a chunk to the peer. The stub transport accepts every
    /// chunk.
    pub fn p2p_stream(&self, _key: &[u8]) -> (r: Result<(), GateError>)
        ensures
            r is Ok,
    {
        Ok(())
    }

    /// Notify the visualization collaborator. Fire-and-forget: the stub
    /// hook accepts every planting.
    pub fn plant_tree(&self, _x: i32, _y: i32, _z: i32, _entropy: u32) -> (r: bool)
        ensures
            r,
    {
        true
    }

    /// The capability token passes its palindrome self-check.
    pub fn check_mirror(&self) -> (r: bool)
        ensures
            r == spec_is_mirrored(spec_mirror_token()),
            r,
    {
        let breath = mirror_breath();
        verify_mirror(breath.as_slice())
    }

    /// Place a call: check the budget and the identity token, announce the
    /// call on the relay, scan the replies for a handshake value, and open
    /// the requested stream. The budget is charged only for a committed
    /// call; every failure leaves the ledger untouched. Fails with
    /// `NoHandshakeReceived` when no reply carries a handshake value and
    /// with `UnsupportedMode` when one does but the mode is not a streaming
    /// mode.
    pub fn call(&mut self, dest: &str, mode: &str) -> (r: Result<(), GateError>)
        requires
            ledger_wf(old(self).ledger),
            dest.spec_bytes().len() <= u32::MAX,
        ensures
            ledger_wf(final(self).ledger),
            final(self).ledger.breath_count == old(self).ledger.breath_count,
            r is Ok <==> (old(self).ledger.tendon_load + TENDON_COST <= TENDON_CAP && old(
                self,
            ).ledger.gaze_duration + GAZE_COST <= GAZE_CAP && spec_any_handshake(spec_mentions())
                && spec_mode_ok(mode@)),
            r is Ok ==> final(self).ledger.tendon_load == old(self).ledger.tendon_load
                + TENDON_COST && final(self).ledger.gaze_duration == old(self).ledger.gaze_duration
                + GAZE_COST,
            r is Err ==> final(self).ledger == old(self).ledger,
            r is Err ==> r->Err_0 == (if old(self).ledger.tendon_load + TENDON_COST > TENDON_CAP {
                GateError::Overload(OverloadKind::Tendon)
            } else if old(self).ledger.gaze_duration + GAZE_COST > GAZE_CAP {
                GateError::Overload(OverloadKind::Gaze)
            } else if !spec_any_handshake(spec_mentions()) {
                GateError::NoHandshakeReceived
            } else {
                GateError::UnsupportedMode
            }),
    {
        if let Err(e) = self.ledger.headroom(TENDON_COST, GAZE_COST) {
            return Err(e);
        }
        if !self.check_mirror() {
            return Err(GateError::InvalidIdentity);
        }
        let call_cid: u32 = dest.len() as u32;
        let mut tweet = String::from_str("@");
        tweet.append(dest);
        tweet.append(" call? ");
        let cid_text = decimal_string(call_cid as u64);
        tweet.append(cid_text.as_str());
        tweet.append(" --");
        tweet.append(mode);
        if !self.post_to_x(tweet.as_str()) {
            return Err(GateError::RelayFailure);
        }
        let mentions = self.get_mentions();
        let ghost mv = mentions.deep_view();
        let count = mentions.len();
        let mut k: usize = 0;
        while k < count
            invariant
                k <= count,
                count == mv.len(),
                mv == mentions.deep_view(),
                mv == spec_mentions(),
                ledger_wf(self.ledger),
                self.ledger == old(self).ledger,
                old(self).ledger.tendon_load + TENDON_COST <= TENDON_CAP,
                old(self).ledger.gaze_duration + GAZE_COST <= GAZE_CAP,
                forall|j: int| 0 <= j < k ==> !((#[trigger] spec_handshake(mv[j])) is Some),
            decreases count - k,
        {
            let reply = &mentions[k];
            proof {
                assert(mv[k as int] == mentions@[k as int].deep_view());
            }
            if let Some(peer) = find_peer(reply.as_str()) {
                proof {
                    assert(spec_handshake(mv[k as int]) is Some);
                    assert(spec_any_handshake(spec_mentions()));
                }
                let handshake: u32 = #[verifier::truncate] (peer.as_str().unicode_len() as u32);
                self.plant_tree(5, 5, 5, handshake);
                let is_voice = str_eq(mode, "voice");
                let is_file = str_eq(mode, "file");
                if !is_voice && !is_file {
                    return Err(GateError::UnsupportedMode);
                }
                let charged = self.ledger.charge(TENDON_COST, GAZE_COST);
                proof {
                    assert(charged is Ok);
                }
                if is_voice {
                    let chunk = zero_chunk(1024);
                    let streamed = self.p2p_stream(chunk.as_slice());
                    proof {
                        assert(streamed is Ok);
                    }
                } else {
                    let chunk = zero_chunk(CHUNK_SIZE);
                    let streamed = self.p2p_stream(chunk.as_slice());
                    proof {
                        assert(streamed is Ok);
                    }
                }
                return Ok(());
            }
            k = k + 1;
        }
        Err(GateError::NoHandshakeReceived)
    }
}

} // verus!
