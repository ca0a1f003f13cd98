//! Identifiers of playable items: the live form and the flat form kept in
//! the cache, with the conversions between them.
use vstd::prelude::*;
use rspotify::model::{EpisodeId, TrackId};

verus! {

/// Whether a playable item is a track or an episode.
#[derive(PartialEq, Eq, Structural, Clone, Copy, Debug)]
pub enum IdType {
    Track,
    Episode,
}

/// Mathematical model of an identifier: its kind and its bare id.
pub struct IdView {
    pub kind: IdType,
    pub id: Seq<char>,
}

/// An ASCII letter or digit.
pub open spec fn is_alnum(c: char) -> bool {
    ('a' <= c && c <= 'z') || ('A' <= c && c <= 'Z') || ('0' <= c && c <= '9')
}

/// A bare id that the remote service accepts for a track or an episode:
/// ASCII letters and digits only.
pub open spec fn valid_id(s: Seq<char>) -> bool {
    forall|i: int| 0 <= i < s.len() ==> is_alnum(#[trigger] s[i])
}

/// The flat form of an identifier, as stored in the cache.
pub open spec fn serialized(p: IdView) -> IdView {
    IdView { kind: p.kind, id: p.id }
}

/// The live identifier rebuilt from a flat one, when its id is valid.
pub open spec fn restored(d: IdView) -> Option<IdView> {
    if valid_id(d.id) {
        Some(IdView { kind: d.kind, id: d.id })
    } else {
        None
    }
}

/// Serializable identifier: a bare id and its kind, independent of any
/// live API type.
#[derive(Clone, Debug)]
pub struct DeconstructedId {
    pub id: String,
    pub kind: IdType,
}

impl View for DeconstructedId {
    type V = IdView;

    open spec fn view(&self) -> IdView {
        IdView { kind: self.kind, id: self.id@ }
    }
}

impl PartialEq for DeconstructedId {
    fn eq(&self, o: &DeconstructedId) -> (r: bool) {
        self.kind == o.kind && self.id == o.id
    }
}

impl vstd::std_specs::cmp::PartialEqSpecImpl for DeconstructedId {
    open spec fn obeys_eq_spec() -> bool {
        true
    }

    open spec fn eq_spec(&self, o: &DeconstructedId) -> bool {
        self@ == o@
    }
}

/// A live playable identifier: a track or an episode with its bare id.
#[derive(Clone, Debug)]
pub enum PlayableId {
    Track(String),
    Episode(String),
}

impl View for PlayableId {
    type V = IdView;

    open spec fn view(&self) -> IdView {
        match self {
            PlayableId::Track(s) => IdView { kind: IdType::Track, id: s@ },
            PlayableId::Episode(s) => IdView { kind: IdType::Episode, id: s@ },
        }
    }
}

impl PartialEq for PlayableId {
    fn eq(&self, o: &PlayableId) -> (r: bool) {
        match self {
            PlayableId::Track(a) => match o {
                PlayableId::Track(b) => *a == *b,
                PlayableId::Episode(_) => false,
            },
            PlayableId::Episode(a) => match o {
                PlayableId::Track(_) => false,
                PlayableId::Episode(b) => *a == *b,
            },
        }
    }
}

impl vstd::std_specs::cmp::PartialEqSpecImpl for PlayableId {
    open spec fn obeys_eq_spec() -> bool {
        true
    }

    open spec fn eq_spec(&self, o: &PlayableId) -> bool {
        self@ == o@
    }
}

impl PlayableId {
    /// A live identifier holds an id that the service accepts.
    pub open spec fn wf(&self) -> bool {
        valid_id(self@.id)
    }

    /// The kind of this identifier.
    pub fn kind(&self) -> (r: IdType)
        ensures
            r == self@.kind,
    {
        match self {
            PlayableId::Track(_) => IdType::Track,
            PlayableId::Episode(_) => IdType::Episode,
        }
    }

    /// An equal copy of this identifier.
    pub fn duplicate(&self) -> (r: PlayableId)
        ensures
            r == *self,
    {
        match self {
            PlayableId::Track(s) => PlayableId::Track(s.clone()),
            PlayableId::Episode(s) => PlayableId::Episode(s.clone()),
        }
    }

    /// The bare id of this identifier.
    pub fn id(&self) -> (r: &str)
        ensures
            r@ == self@.id,
    {
        match self {
            PlayableId::Track(s) => s.as_str(),
            PlayableId::Episode(s) => s.as_str(),
        }
    }
}

/// The ways a cached identifier can fail to come back.
#[derive(PartialEq, Eq, Structural, Clone, Copy, Debug)]
pub enum CacheError {
    /// A cached id is not a valid id for its tagged kind.
    MalformedIdentifier,
}

/// Relies on rspotify's `TrackId::from_id`: it accepts exactly the ids made
/// of ASCII letters and digits.
#[verifier::external_body]
fn track_id_accepted(s: &str) -> (r: bool)
    ensures
        r == valid_id(s@),
{
    TrackId::from_id(s).is_ok()
}

/// Relies on rspotify's `EpisodeId::from_id`: it accepts exactly the ids made
/// of ASCII letters and digits.
#[verifier::external_body]
fn episode_id_accepted(s: &str) -> (r: bool)
    ensures
        r == valid_id(s@),
{
    EpisodeId::from_id(s).is_ok()
}

/// Flattens a live identifier into its serializable form. Never fails.
pub fn to_serializable(p: &PlayableId) -> (r: DeconstructedId)
    ensures
        r@ == serialized(p@),
{
    match p {
        PlayableId::Track(s) => DeconstructedId { id: s.clone(), kind: IdType::Track },
        PlayableId::Episode(s) => DeconstructedId { id: s.clone(), kind: IdType::Episode },
    }
}

/// Rebuilds a live identifier from its serializable form; fails with
/// `MalformedIdentifier` when the id is not valid for its kind.
pub fn from_serializable(d: &DeconstructedId) -> (r: Result<PlayableId, CacheError>)
    ensures
        match r {
            Ok(p) => restored(d@) == Some(p@),
            Err(e) => restored(d@) is None && e == CacheError::MalformedIdentifier,
        },
{
    match d.kind {
        IdType::Track => {
            if track_id_accepted(d.id.as_str()) {
                Ok(PlayableId::Track(d.id.clone()))
            } else {
                Err(CacheError::MalformedIdentifier)
            }
        },
        IdType::Episode => {
            if episode_id_accepted(d.id.as_str()) {
                Ok(PlayableId::Episode(d.id.clone()))
            } else {
                Err(CacheError::MalformedIdentifier)
            }
        },
    }
}

/// Flattening a live identifier and rebuilding it gives back an identifier
/// of the same kind and bare id.
pub proof fn lemma_round_trip(p: PlayableId)
    requires
        p.wf(),
    ensures
        restored(serialized(p@)) == Some(p@),
{
}

} // verus!
