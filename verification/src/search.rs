//! Catalog search: the request sent to the provider, and what is returned for
//! each way the round trip can end.

use crate::catalog::{ItemView, MenuItemView, MenuResponse, YoutubeResponse};
use crate::catalog::{menu_item_of, menu_of};
use crate::encoding::{is_encoded_char, percent_decoded, percent_encode, percent_encoded};
use crate::encoding::{lemma_decoding_gives_the_bytes_back, lemma_encoded_value_is_plain};
use vstd::prelude::*;
use vstd::utf8::encode_utf8;

verus! {

/// Why a search gave no menu.
#[derive(Debug, PartialEq, Eq)]
pub enum SearchError {
    /// The request did not reach the provider; holds the transport's diagnostic.
    Transport(String),
    /// The connection was made but the body could not be read.
    BodyRead(String),
    /// The body did not match the catalog schema; holds the parser's diagnostic.
    Malformed(String),
}

/// What a [`SearchError`] holds.
pub enum SearchErrorView {
    Transport(Seq<char>),
    BodyRead(Seq<char>),
    Malformed(Seq<char>),
}

impl View for SearchError {
    type V = SearchErrorView;

    open spec fn view(&self) -> SearchErrorView {
        match *self {
            SearchError::Transport(d) => SearchErrorView::Transport(d@),
            SearchError::BodyRead(d) => SearchErrorView::BodyRead(d@),
            SearchError::Malformed(d) => SearchErrorView::Malformed(d@),
        }
    }
}

/// How one round trip to the provider ended.
#[derive(Debug, PartialEq, Eq)]
pub enum ProviderReply {
    /// The request could not be sent or was not answered.
    Unreachable(String),
    /// An answer came, but reading its body failed.
    Unreadable(String),
    /// The body was read, but it is not a catalog.
    Unparsable(String),
    /// The body was read and is this catalog.
    Catalog(YoutubeResponse),
}

/// What a [`ProviderReply`] holds.
pub enum ProviderReplyView {
    Unreachable(Seq<char>),
    Unreadable(Seq<char>),
    Unparsable(Seq<char>),
    Catalog(Seq<ItemView>),
}

impl View for ProviderReply {
    type V = ProviderReplyView;

    open spec fn view(&self) -> ProviderReplyView {
        match *self {
            ProviderReply::Unreachable(d) => ProviderReplyView::Unreachable(d@),
            ProviderReply::Unreadable(d) => ProviderReplyView::Unreadable(d@),
            ProviderReply::Unparsable(d) => ProviderReplyView::Unparsable(d@),
            ProviderReply::Catalog(catalog) => ProviderReplyView::Catalog(catalog@),
        }
    }
}

/// The address of one search request: the provider's endpoint, the access
/// key, the fixed parameters (snippets of videos, at most five), and the
/// query, percent-encoded from its UTF-8 bytes so that nothing in it can end
/// the parameter or start another.
pub open spec fn search_url_of(api_key: Seq<char>, query: Seq<char>) -> Seq<char> {
    "https://www.googleapis.com/youtube/v3/search?key="@ + api_key
        + "&part=snippet&type=video&maxResults=5&q="@ + percent_encoded(encode_utf8(query))
}

/// What a search returns for each way the round trip can end.
pub open spec fn search_result(reply: ProviderReplyView) -> Result<
    Seq<MenuItemView>,
    SearchErrorView,
> {
    match reply {
        ProviderReplyView::Unreachable(d) => Err(SearchErrorView::Transport(d)),
        ProviderReplyView::Unreadable(d) => Err(SearchErrorView::BodyRead(d)),
        ProviderReplyView::Unparsable(d) => Err(SearchErrorView::Malformed(d)),
        ProviderReplyView::Catalog(items) => Ok(menu_of(items)),
    }
}

/// The text shown to the caller for a failed search.
pub open spec fn search_error_text(error: SearchErrorView) -> Seq<char> {
    match error {
        SearchErrorView::Transport(d) => "API error: "@ + d,
        SearchErrorView::BodyRead(d) => "Failed to read response body: "@ + d,
        SearchErrorView::Malformed(d) => "Failed to parse API response: "@ + d,
    }
}

/// What a value returned by [`search`] holds.
pub open spec fn search_outcome_view(outcome: Result<MenuResponse, SearchError>) -> Result<
    Seq<MenuItemView>,
    SearchErrorView,
> {
    match outcome {
        Ok(menu) => Ok(menu@),
        Err(error) => Err(error@),
    }
}

/// What a value returned by [`get_menu`] holds.
pub open spec fn menu_outcome_view(outcome: Result<MenuResponse, String>) -> Result<
    Seq<MenuItemView>,
    Seq<char>,
> {
    match outcome {
        Ok(menu) => Ok(menu@),
        Err(text) => Err(text@),
    }
}

/// What [`get_menu`] returns for each way the round trip can end.
pub open spec fn menu_result(reply: ProviderReplyView) -> Result<Seq<MenuItemView>, Seq<char>> {
    match search_result(reply) {
        Ok(menu) => Ok(menu),
        Err(error) => Err(search_error_text(error)),
    }
}

impl SearchError {
    /// The text shown to the caller for this error.
    pub fn message(&self) -> (text: String)
        ensures
            text@ == search_error_text(self@),
    {
        match self {
            SearchError::Transport(d) => {
                let mut text = String::from_str("API error: ");
                text.append(d.as_str());
                text
            },
            SearchError::BodyRead(d) => {
                let mut text = String::from_str("Failed to read response body: ");
                text.append(d.as_str());
                text
            },
            SearchError::Malformed(d) => {
                let mut text = String::from_str("Failed to parse API response: ");
                text.append(d.as_str());
                text
            },
        }
    }
}

/// Builds the address of the search request for a query. The query is not
/// checked; it is percent-encoded and placed last.
pub fn search_url(api_key: &str, query: &str) -> (url: String)
    ensures
        url@ == search_url_of(api_key@, query@),
{
    let mut url = String::from_str("https://www.googleapis.com/youtube/v3/search?key=");
    url.append(api_key);
    url.append("&part=snippet&type=video&maxResults=5&q=");
    let encoded = percent_encode(query);
    url.append(encoded.as_str());
    url
}

/// Turns the end of a round trip into the search's result: the catalog's
/// menu, or the error that names the step that failed.
pub fn search(reply: ProviderReply) -> (outcome: Result<MenuResponse, SearchError>)
    ensures
        search_outcome_view(outcome) == search_result(reply@),
{
    match reply {
        ProviderReply::Unreachable(d) => Err(SearchError::Transport(d)),
        ProviderReply::Unreadable(d) => Err(SearchError::BodyRead(d)),
        ProviderReply::Unparsable(d) => Err(SearchError::Malformed(d)),
        ProviderReply::Catalog(catalog) => Ok(MenuResponse::from_catalog(&catalog)),
    }
}

/// The search as the front end calls it: the menu, or the error as text.
pub fn get_menu(reply: ProviderReply) -> (outcome: Result<MenuResponse, String>)
    ensures
        menu_outcome_view(outcome) == menu_result(reply@),
{
    match search(reply) {
        Ok(menu) => Ok(menu),
        Err(error) => Err(error.message()),
    }
}

/// A catalog of any length gives a menu of the same length, whose entry at
/// each position is the projection of the catalog's item at that position.
pub proof fn lemma_menu_keeps_count_and_order(catalog: Seq<ItemView>)
    ensures
        menu_of(catalog).len() == catalog.len(),
        forall|i: int|
            0 <= i < catalog.len() ==> #[trigger] menu_of(catalog)[i] == menu_item_of(catalog[i]),
        search_result(ProviderReplyView::Catalog(catalog)) == Ok::<
            Seq<MenuItemView>,
            SearchErrorView,
        >(menu_of(catalog)),
{
}

/// The projection loses nothing: every field of a catalog item can be read
/// back from its menu entry, so two items with the same entry are the same
/// item.
pub proof fn lemma_projection_is_lossless(first: ItemView, second: ItemView)
    requires
        menu_item_of(first) == menu_item_of(second),
    ensures
        first == second,
{
    let a = menu_item_of(first);
    let b = menu_item_of(second);
    assert(first.snippet.title == a.title);
    assert(first.snippet.channel_title == a.artist);
    assert(first.snippet.thumbnails == a.thumbnails);
    assert(first.id.video_id == a.video_id);
    assert(first.snippet == second.snippet);
    assert(first.id == second.id);
}

/// Two catalogs with the same menu are the same catalog.
pub proof fn lemma_menu_is_lossless(first: Seq<ItemView>, second: Seq<ItemView>)
    requires
        menu_of(first) == menu_of(second),
    ensures
        first == second,
{
    assert(first.len() == menu_of(first).len());
    assert(second.len() == menu_of(second).len());
    assert forall|i: int| 0 <= i < first.len() implies first[i] == second[i] by {
        assert(menu_of(first)[i] == menu_item_of(first[i]));
        assert(menu_of(second)[i] == menu_item_of(second[i]));
        lemma_projection_is_lossless(first[i], second[i]);
    }
    assert(first =~= second);
}

/// A reply that carries no catalog never gives a menu, whole or partial: an
/// unparsable body gives `Malformed`, an unreachable provider `Transport`,
/// an unreadable body `BodyRead`, each with the diagnostic unchanged.
pub proof fn lemma_failed_round_trip_gives_no_menu(reply: ProviderReplyView)
    requires
        !(reply is Catalog),
    ensures
        search_result(reply) is Err,
        menu_result(reply) is Err,
        reply matches ProviderReplyView::Unparsable(d) ==> search_result(reply) == Err::<
            Seq<MenuItemView>,
            SearchErrorView,
        >(SearchErrorView::Malformed(d)),
        reply matches ProviderReplyView::Unreachable(d) ==> search_result(reply) == Err::<
            Seq<MenuItemView>,
            SearchErrorView,
        >(SearchErrorView::Transport(d)),
        reply matches ProviderReplyView::Unreadable(d) ==> search_result(reply) == Err::<
            Seq<MenuItemView>,
            SearchErrorView,
        >(SearchErrorView::BodyRead(d)),
{
}

/// Searching again changes nothing: the same query gives the same request,
/// and replies that hold the same data give the same result.
pub proof fn lemma_repeated_search_agrees(
    api_key: Seq<char>,
    first_query: Seq<char>,
    second_query: Seq<char>,
    first_reply: ProviderReply,
    second_reply: ProviderReply,
)
    requires
        first_query == second_query,
        first_reply@ == second_reply@,
    ensures
        search_url_of(api_key, first_query) == search_url_of(api_key, second_query),
        search_result(first_reply@) == search_result(second_reply@),
        menu_result(first_reply@) == menu_result(second_reply@),
{
}

/// The query is one parameter, whatever it holds: what stands after `q=` in
/// the address is made of letters, digits, `-`, `.`, `_`, `~` and `%` alone,
/// so it has no `&`, `=` or `#`, and decoding it gives the query's bytes.
pub proof fn lemma_query_is_one_parameter(api_key: Seq<char>, query: Seq<char>)
    ensures
        search_url_of(api_key, query) == "https://www.googleapis.com/youtube/v3/search?key="@
            + api_key + "&part=snippet&type=video&maxResults=5&q="@ + percent_encoded(
            encode_utf8(query),
        ),
        forall|i: int|
            0 <= i < percent_encoded(encode_utf8(query)).len() ==> {
                let c = #[trigger] percent_encoded(encode_utf8(query))[i];
                is_encoded_char(c) && c != '&' && c != '=' && c != '#'
            },
        percent_decoded(percent_encoded(encode_utf8(query))) == encode_utf8(query),
{
    lemma_encoded_value_is_plain(encode_utf8(query));
    lemma_decoding_gives_the_bytes_back(encode_utf8(query));
}

} // verus!
