//! Library model of decoded protocol events and their classification.
//!
//! Three kinds carry endpoint hints: contact lists and long-form notes carry
//! them in address-tagged fields, and relay recommendations carry one hint
//! as their raw content. Every other kind is not discovery-relevant.

use vstd::prelude::*;

verus! {

/// The closed set of event kinds the crawler distinguishes.
#[derive(Clone, Copy, PartialEq, Eq, Structural, Debug)]
pub enum EventKind {
    Metadata,
    TextNote,
    RecommendRelay,
    ContactList,
    EncryptedDirectMessage,
    EventDeletion,
    Repost,
    Reaction,
    ChannelCreation,
    ChannelMetadata,
    ChannelMessage,
    ChannelHideMessage,
    ChannelMuteUser,
    PublicChatReserved45,
    PublicChatReserved46,
    PublicChatReserved47,
    PublicChatReserved48,
    PublicChatReserved49,
    Reporting,
    ZapRequest,
    Zap,
    Authentication,
    NostrConnect,
    LongFormTextNote,
    RelayList,
    Replaceable(u16),
    Ephemeral(u16),
    ParameterizedReplaceable(u16),
    Custom(u64),
}

/// A structured field attached to an event. A contact entry may carry a
/// relay address hint; every other field shape contributes nothing here.
pub enum Tag {
    PubKey { relay: Option<String> },
    Other,
}

/// A decoded protocol event, reduced to what the crawler reads.
pub struct NostrEvent {
    pub kind: EventKind,
    pub tags: Vec<Tag>,
    pub content: String,
}

/// Whether events of this kind can carry endpoint hints.
pub open spec fn is_discovery_relevant(k: EventKind) -> bool {
    k == EventKind::ContactList || k == EventKind::RecommendRelay || k
        == EventKind::LongFormTextNote
}

/// The relay address hint of one tag, if it carries one.
pub open spec fn tag_hint(t: Tag) -> Option<Seq<char>> {
    match t {
        Tag::PubKey { relay: Option::Some(s) } => Option::Some(s@),
        _ => Option::None,
    }
}

/// All relay address hints among a sequence of tags, in order.
pub open spec fn tag_hints(ts: Seq<Tag>) -> Seq<Seq<char>>
    decreases ts.len(),
{
    if ts.len() == 0 {
        Seq::<Seq<char>>::empty()
    } else {
        match tag_hint(ts.last()) {
            Option::Some(h) => tag_hints(ts.drop_last()).push(h),
            Option::None => tag_hints(ts.drop_last()),
        }
    }
}

/// The candidate endpoint addresses an event contributes.
pub open spec fn candidate_addresses(e: NostrEvent) -> Seq<Seq<char>> {
    if e.kind == EventKind::ContactList || e.kind == EventKind::LongFormTextNote {
        tag_hints(e.tags@)
    } else if e.kind == EventKind::RecommendRelay {
        seq![e.content@]
    } else {
        Seq::<Seq<char>>::empty()
    }
}

/// Collects the relay address hints of the given tags, in order.
fn collect_tag_hints(tags: &Vec<Tag>) -> (r: Vec<String>)
    ensures
        r.deep_view() == tag_hints(tags@),
{
    let mut r: Vec<String> = Vec::new();
    let mut i: usize = 0;
    while i < tags.len()
        invariant
            i <= tags.len(),
            r.deep_view() =~= tag_hints(tags@.take(i as int)),
        decreases tags.len() - i,
    {
        let ghost before = r.deep_view();
        match &tags[i] {
            Tag::PubKey { relay: Option::Some(s) } => {
                r.push(s.clone());
                proof {
                    assert(r.deep_view() =~= before.push(s@));
                }
            },
            _ => {},
        }
        proof {
            let t = tags@.take(i + 1 as int);
            assert(t.drop_last() =~= tags@.take(i as int));
            assert(t.last() == tags@[i as int]);
            assert(r.deep_view() =~= tag_hints(tags@.take(i + 1 as int)));
        }
        i += 1;
    }
    proof {
        assert(tags@.take(tags@.len() as int) =~= tags@);
    }
    r
}

/// Classifies an event: whether its kind is discovery-relevant, and the
/// candidate endpoint addresses it contributes.
pub fn classify(event: &NostrEvent) -> (r: (bool, Vec<String>))
    ensures
        r.0 == is_discovery_relevant(event.kind),
        r.1.deep_view() == candidate_addresses(*event),
{
    match event.kind {
        EventKind::ContactList => (true, collect_tag_hints(&event.tags)),
        EventKind::LongFormTextNote => (true, collect_tag_hints(&event.tags)),
        EventKind::RecommendRelay => {
            let mut v: Vec<String> = Vec::new();
            v.push(event.content.clone());
            proof {
                assert(v.deep_view() =~= seq![event.content@]);
            }
            (true, v)
        },
        _ => {
            let v: Vec<String> = Vec::new();
            proof {
                assert(v.deep_view() =~= Seq::<Seq<char>>::empty());
            }
            (false, v)
        },
    }
}

} // verus!
