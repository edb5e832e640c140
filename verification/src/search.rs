//! Turning what a user typed after `play` into the query that is handed to
//! the audio engine.

use lavalink_rs::error::LavalinkError;
use lavalink_rs::model::search::SearchEngines;
use vstd::pervasive::unreached;
use vstd::prelude::*;

use crate::text::{is_uri, looks_like_uri};

verus! {

/// The search service that resolves a query which is no address. Which one
/// is used is a setting of the bot.
#[derive(Clone, Copy, Debug, PartialEq, Eq, Structural)]
pub enum SearchProvider {
    YouTube,
    YouTubeMusic,
    SoundCloud,
    Spotify,
    AppleMusic,
    Deezer,
    DeezerISRC,
    YandexMusic,
}

/// The word by which the audio engine knows `provider`.
pub open spec fn provider_prefix(provider: SearchProvider) -> Seq<char> {
    match provider {
        SearchProvider::YouTube => "ytsearch"@,
        SearchProvider::YouTubeMusic => "ytmsearch"@,
        SearchProvider::SoundCloud => "scsearch"@,
        SearchProvider::Spotify => "spsearch"@,
        SearchProvider::AppleMusic => "amsearch"@,
        SearchProvider::Deezer => "dzsearch"@,
        SearchProvider::DeezerISRC => "dzisrc"@,
        SearchProvider::YandexMusic => "ymsearch"@,
    }
}

/// The query that asks `provider` for `term`: the provider's word, a colon,
/// and the term as it was typed.
pub open spec fn search_query(provider: SearchProvider, term: Seq<char>) -> Seq<char> {
    provider_prefix(provider) + seq![':'] + term
}

/// The query that is handed to the engine for `term`: an address goes as it
/// is, anything else as a search with `provider`.
pub open spec fn play_query(term: Seq<char>, provider: SearchProvider) -> Seq<char> {
    if is_uri(term) {
        term
    } else {
        search_query(provider, term)
    }
}

/// The error of the audio engine's client, `lavalink_rs::error::LavalinkError`.
/// It is only carried; nothing is claimed of what it holds.
#[verifier::external_type_specification]
#[verifier::external_body]
pub struct ExLavalinkError(LavalinkError);

/// Builds the search query by `lavalink_rs::model::search::SearchEngines::to_query`.
///
/// For each of the providers that take no parameters the outside function
/// formats the provider's word, a colon and the term, and returns `Ok`; that
/// is what is claimed here.
#[verifier::external_body]
fn provider_query(provider: SearchProvider, term: &str) -> (r: Result<String, LavalinkError>)
    ensures
        r is Ok,
        r->Ok_0@ == search_query(provider, term@),
{
    let engine = match provider {
        SearchProvider::YouTube => SearchEngines::YouTube,
        SearchProvider::YouTubeMusic => SearchEngines::YouTubeMusic,
        SearchProvider::SoundCloud => SearchEngines::SoundCloud,
        SearchProvider::Spotify => SearchEngines::Spotify,
        SearchProvider::AppleMusic => SearchEngines::AppleMusic,
        SearchProvider::Deezer => SearchEngines::Deezer,
        SearchProvider::DeezerISRC => SearchEngines::DeezerISRC,
        SearchProvider::YandexMusic => SearchEngines::YandexMusic,
    };
    engine.to_query(term)
}

/// The query that is handed to the engine for `term` ([`play_query`]).
pub fn resolve_query(term: &str, provider: SearchProvider) -> (query: String)
    ensures
        query@ == play_query(term@, provider),
{
    if looks_like_uri(term) {
        term.to_owned()
    } else {
        match provider_query(provider, term) {
            Ok(query) => query,
            Err(_) => unreached(),
        }
    }
}

} // verus!
