//! Choosing the playlist to shuffle, and preparing the shuffled result for
//! upload.
use vstd::prelude::*;
use crate::ids::{valid_id, PlayableId};
use rand::distributions::{Alphanumeric, DistString};
use rand::seq::SliceRandom;
use rand::thread_rng;
use rspotify::model::PlaylistId;

verus! {

#[verifier::external_type_specification]
#[verifier::external_body]
pub struct ExClientError(rspotify::ClientError);

/// Why the playlist to shuffle could not be settled.
#[derive(Debug)]
pub enum UserFuckYouError {
    /// The given playlist id is not a valid id.
    InvalidId,
    /// The service could not tell about the playlist.
    UnavailableInfoWtfDude(rspotify::ClientError),
}

/// Relies on the `Display` impl of rspotify's `ClientError`: some text
/// describing the error; nothing is assumed of it.
#[verifier::external_body]
fn client_error_text(e: &rspotify::ClientError) -> (r: String) {
    e.to_string()
}

impl UserFuckYouError {
    /// The error's name, with the service's message for an unavailable
    /// playlist.
    pub fn describe(&self) -> (r: String)
        ensures
            self is InvalidId ==> r@ == "InvalidId"@,
            self is UnavailableInfoWtfDude ==> exists|t: Seq<char>|
                r@ == "UnavailableInfoWtfDude("@ + t + ")"@,
    {
        match self {
            UserFuckYouError::InvalidId => String::from_str("InvalidId"),
            UserFuckYouError::UnavailableInfoWtfDude(e) => {
                let mut s = String::from_str("UnavailableInfoWtfDude(");
                let t = client_error_text(e);
                s.append(t.as_str());
                s.append(")");
                assert(s@ == "UnavailableInfoWtfDude("@ + t@ + ")"@);
                s
            },
        }
    }
}

/// Relies on rspotify's `PlaylistId::from_id`: it accepts exactly the ids made
/// of ASCII letters and digits.
#[verifier::external_body]
fn playlist_id_accepted(s: &str) -> (r: bool)
    ensures
        r == valid_id(s@),
{
    PlaylistId::from_id(s).is_ok()
}

/// Checks a playlist id given by the user; fails with `InvalidId` when the
/// service would not accept it.
pub fn parse_playlist_id(id: String) -> (r: Result<String, UserFuckYouError>)
    ensures
        r is Ok <==> valid_id(id@),
        r matches Ok(s) ==> s@ == id@,
        r matches Err(e) ==> e is InvalidId,
{
    if playlist_id_accepted(id.as_str()) {
        Ok(id)
    } else {
        Err(UserFuckYouError::InvalidId)
    }
}

/// The name and id at the chosen position of a playlist listing, if both
/// lists reach it.
pub fn select_playlist(names: Vec<String>, ids: Vec<String>, selection: usize) -> (r: Option<(String, String)>)
    ensures
        r is Some <==> selection < names.len() && selection < ids.len(),
        r matches Some(p) ==> p.0 == names[selection as int] && p.1 == ids[selection as int],
{
    if selection < names.len() && selection < ids.len() {
        Some((names[selection].clone(), ids[selection].clone()))
    } else {
        None
    }
}

/// Largest number of items added to a playlist in one request.
pub const TRACK_LIMIT: usize = 100;

/// Relies on rand's `SliceRandom::shuffle` with the thread-local generator:
/// it permutes the items by swaps, so the same items remain.
#[verifier::external_body]
fn shuffle_in_place(v: &mut Vec<PlayableId>)
    ensures
        final(v)@.to_multiset() == old(v)@.to_multiset(),
{
    v.shuffle(&mut thread_rng());
}

/// A random order of the items, cut to the first `TRACK_LIMIT` of them.
pub fn shuffle_for_upload(ids: Vec<PlayableId>) -> (r: Vec<PlayableId>)
    ensures
        r.len() == (if ids.len() <= TRACK_LIMIT { ids.len() } else { TRACK_LIMIT }),
        exists|p: Seq<PlayableId>|
            #[trigger] p.to_multiset() == ids@.to_multiset() && r@ == p.subrange(0, r.len() as int),
{
    let mut v = ids;
    shuffle_in_place(&mut v);
    let ghost p = v@;
    proof {
        vstd::seq_lib::to_multiset_len(p);
        vstd::seq_lib::to_multiset_len(ids@);
    }
    v.truncate(TRACK_LIMIT);
    assert(v@ == p.subrange(0, v.len() as int));
    v
}

/// Relies on rand's `Alphanumeric` distribution: `sample_string` gives
/// `len` characters drawn from the ASCII letters and digits.
#[verifier::external_body]
fn random_alphanumeric(len: usize) -> (r: String)
    ensures
        r@.len() == len,
        valid_id(r@),
{
    Alphanumeric.sample_string(&mut thread_rng(), len)
}

/// The suggested name of a new playlist: the tool's name and eight random
/// letters or digits.
pub fn default_playlist_name() -> (r: String)
    ensures
        exists|suffix: Seq<char>|
            r@ == "shuffler::"@ + suffix && suffix.len() == 8 && #[trigger] valid_id(suffix),
{
    let suffix = random_alphanumeric(8);
    let mut name = String::from_str("shuffler::");
    name.append(suffix.as_str());
    assert(valid_id(suffix@));
    name
}

} // verus!
