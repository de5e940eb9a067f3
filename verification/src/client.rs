//! The client's settings, the requests it makes and how it reads replies.

use vstd::prelude::*;
use crate::observation::Observation;
use crate::station::Station;
use crate::text::{
    array_text, items_text, lemma_members_push, member_text, members_text, object_text, put_item,
    Member,
};

verus! {

/// The HTTP client of reqwest, which the library keeps for the caller and
/// never looks into.
#[verifier::external_type_specification]
#[verifier::external_body]
pub struct ExClient(reqwest::Client);

/// `Clone::clone` of reqwest's client, which gives another handle on the
/// same connections. Nothing is claimed of the result.
pub assume_specification[ <reqwest::Client as Clone>::clone ](client: &reqwest::Client) -> (copy:
    reqwest::Client)
;

/// Calls `reqwest::Client::builder` and `ClientBuilder::build` on what it
/// gives: reqwest's client with its default settings, or the error where
/// reqwest cannot set one up on this machine. Nothing is claimed of the
/// result.
#[verifier::external_body]
fn build_client() -> (built: Result<reqwest::Client, reqwest::Error>) {
    reqwest::Client::builder().build()
}

/// The error of reqwest, which the library hands on and never looks into.
#[verifier::external_type_specification]
#[verifier::external_body]
pub struct ExError(reqwest::Error);

/// Where stations report to unless the client is told otherwise.
pub const DEFAULT_BASE_URL: &'static str = "https://stations.windy.com/pws/update";

/// The content type of every request body.
pub const JSON_CONTENT_TYPE: &'static str = "application/json";

/// One HTTP POST, ready to be sent.
#[derive(Clone, Debug, PartialEq, Eq)]
pub struct Request {
    /// The address to post to.
    pub url: String,
    /// The content type of the body.
    pub content_type: String,
    /// The body.
    pub body: String,
}

/// Why a submission failed.
#[derive(Debug)]
pub enum SubmitError {
    /// No reply came: the request could not be sent or the connection
    /// broke.
    Transport(reqwest::Error),
    /// The service replied with a status that is no success.
    Status(u16),
}

/// Whether a reply with this status accepts the submission: the statuses
/// from 200 to 299 do, and no other.
pub open spec fn is_success(status: u16) -> bool {
    200 <= status <= 299
}

/// The JSON texts of the stations, in order.
pub open spec fn station_items(stations: Seq<Station>) -> Seq<Seq<char>> {
    Seq::new(stations.len(), |i: int| stations[i].json())
}

/// The JSON texts of the observations, in order.
pub open spec fn observation_items(observations: Seq<Observation>) -> Seq<Seq<char>> {
    Seq::new(observations.len(), |i: int| observations[i].json())
}

/// A body: the JSON object whose one member has the key `key` and, for its
/// value, the array of `items`.
pub open spec fn batch_text(key: Seq<char>, items: Seq<Seq<char>>) -> Seq<char> {
    object_text(seq![Member { key, value: array_text(items) }])
}

/// The body that registers `stations`.
pub open spec fn stations_body(stations: Seq<Station>) -> Seq<char> {
    batch_text("stations"@, station_items(stations))
}

/// The body that records `observations`.
pub open spec fn observations_body(observations: Seq<Observation>) -> Seq<char> {
    batch_text("observations"@, observation_items(observations))
}

/// What a body starts with, up to the first element of its array.
pub open spec fn batch_start(key: Seq<char>) -> Seq<char> {
    seq!['{', '"'] + key + seq!['"', ':', '[']
}

/// A body is its start, its elements separated by commas, and the two
/// closing brackets.
pub proof fn lemma_batch_text(key: Seq<char>, items: Seq<Seq<char>>)
    ensures
        batch_text(key, items) == batch_start(key) + items_text(items) + seq![']', '}'],
{
    let m = Member { key, value: array_text(items) };
    lemma_members_push(Seq::empty(), m);
    assert(Seq::<Member>::empty().push(m) =~= seq![m]);
    assert(members_text(seq![m]) =~= member_text(m));
    assert(batch_text(key, items) =~= batch_start(key) + items_text(items) + seq![']', '}']);
}

/// A body without elements holds the empty array and nothing else.
pub proof fn lemma_empty_batch(key: Seq<char>)
    ensures
        batch_text(key, Seq::empty()) == seq!['{', '"'] + key + seq!['"', ':', '[', ']', '}'],
{
    lemma_batch_text(key, Seq::empty());
    assert(batch_text(key, Seq::empty()) =~= seq!['{', '"'] + key + seq!['"', ':', '[', ']', '}']);
}

/// The bodies of two requests without elements, written out.
pub proof fn lemma_empty_bodies()
    ensures
        stations_body(Seq::empty()) == "{\"stations\":[]}"@,
        observations_body(Seq::empty()) == "{\"observations\":[]}"@,
{
    reveal_strlit("stations");
    reveal_strlit("observations");
    reveal_strlit("{\"stations\":[]}");
    reveal_strlit("{\"observations\":[]}");
    lemma_empty_batch("stations"@);
    lemma_empty_batch("observations"@);
    assert(station_items(Seq::empty()) =~= Seq::<Seq<char>>::empty());
    assert(observation_items(Seq::empty()) =~= Seq::<Seq<char>>::empty());
    assert(stations_body(Seq::empty()) =~= "{\"stations\":[]}"@);
    assert(observations_body(Seq::empty()) =~= "{\"observations\":[]}"@);
}

fn open_batch(key: &str) -> (out: String)
    ensures
        out@ == batch_start(key@),
{
    let mut out = String::new();
    out.push('{');
    out.push('"');
    out.append(key);
    out.push('"');
    out.push(':');
    out.push('[');
    proof {
        assert(out@ =~= batch_start(key@));
    }
    out
}

fn close_batch(out: &mut String, Ghost(key): Ghost<Seq<char>>, Ghost(items): Ghost<Seq<Seq<char>>>)
    requires
        old(out)@ == batch_start(key) + items_text(items),
    ensures
        final(out)@ == batch_text(key, items),
{
    out.push(']');
    out.push('}');
    proof {
        lemma_batch_text(key, items);
        assert(final(out)@ =~= batch_start(key) + items_text(items) + seq![']', '}']);
    }
}

/// Decides from what came back whether a submission succeeded: it did
/// where a reply came and its status is from 200 to 299. What the reply
/// holds besides its status plays no part.
pub fn conclude(reply: Result<u16, reqwest::Error>) -> (outcome: Result<(), SubmitError>)
    ensures
        outcome == match reply {
            Ok(status) => if is_success(status) {
                Ok(())
            } else {
                Err(SubmitError::Status(status))
            },
            Err(cause) => Err(SubmitError::Transport(cause)),
        },
{
    match reply {
        Ok(status) => if 200 <= status && status <= 299 {
            Ok(())
        } else {
            Err(SubmitError::Status(status))
        },
        Err(cause) => Err(SubmitError::Transport(cause)),
    }
}

/// What a client is set up with, as contracts see it.
pub struct Settings {
    pub api_key: Seq<char>,
    pub base_url: Seq<char>,
}

/// A client that reports stations and observations of one account.
#[derive(Clone)]
pub struct WindyStation {
    api_key: String,
    client: reqwest::Client,
    base_url: String,
}

impl View for WindyStation {
    type V = Settings;

    closed spec fn view(&self) -> Settings {
        Settings { api_key: self.api_key@, base_url: self.base_url@ }
    }
}

impl WindyStation {
    /// The HTTP client that the requests are to be sent with.
    pub closed spec fn transport(&self) -> reqwest::Client {
        self.client
    }

    /// The address that every request goes to: the base URL, a slash and
    /// the API key as it is.
    pub open spec fn target(&self) -> Seq<char> {
        self@.base_url + seq!['/'] + self@.api_key
    }

    /// A client for the account of `api_key` that sends with reqwest's
    /// default client and reports to the service's own address. Fails
    /// where reqwest cannot set up its default client, and only there.
    pub fn new(api_key: String) -> (station: Result<Self, reqwest::Error>)
        ensures
            station matches Ok(s) ==> s@.api_key == api_key@ && s@.base_url
                == DEFAULT_BASE_URL@,
    {
        Self::with_built(api_key, build_client())
    }

    /// A client for the account of `api_key` that sends with the HTTP
    /// client in `built`, or the error in its place.
    pub fn with_built(api_key: String, built: Result<reqwest::Client, reqwest::Error>) -> (station:
        Result<Self, reqwest::Error>)
        ensures
            match built {
                Ok(client) => station matches Ok(s) && s@.api_key == api_key@ && s@.base_url
                    == DEFAULT_BASE_URL@ && s.transport() == client,
                Err(cause) => station == Err::<Self, reqwest::Error>(cause),
            },
    {
        match built {
            Ok(client) => Ok(Self::with_client(api_key, client)),
            Err(cause) => Err(cause),
        }
    }

    /// A client for the account of `api_key` that sends with `client` and
    /// reports to the service's own address.
    pub fn with_client(api_key: String, client: reqwest::Client) -> (station: Self)
        ensures
            station@.api_key == api_key@,
            station@.base_url == DEFAULT_BASE_URL@,
            station.transport() == client,
    {
        WindyStation { api_key, client, base_url: String::from_str(DEFAULT_BASE_URL) }
    }

    /// The same client, reporting to `base_url` instead.
    pub fn with_base_url(self, base_url: String) -> (station: Self)
        ensures
            station@.api_key == self@.api_key,
            station@.base_url == base_url@,
            station.transport() == self.transport(),
    {
        WindyStation { api_key: self.api_key, client: self.client, base_url }
    }

    /// The account's API key.
    pub fn api_key(&self) -> (key: &str)
        ensures
            key@ == self@.api_key,
    {
        self.api_key.as_str()
    }

    /// The address that the client reports to, without the API key.
    pub fn base_url(&self) -> (url: &str)
        ensures
            url@ == self@.base_url,
    {
        self.base_url.as_str()
    }

    /// The HTTP client that the requests are to be sent with.
    pub fn client(&self) -> (client: &reqwest::Client)
        ensures
            *client == self.transport(),
    {
        &self.client
    }

    /// The address that every request goes to.
    pub fn url(&self) -> (url: String)
        ensures
            url@ == self.target(),
    {
        let mut url = String::from_str(self.base_url.as_str());
        url.push('/');
        url.append(self.api_key.as_str());
        proof {
            assert(url@ =~= self.target());
        }
        url
    }

    fn post(&self, body: String) -> (request: Request)
        ensures
            request.url@ == self.target(),
            request.content_type@ == JSON_CONTENT_TYPE@,
            request.body@ == body@,
    {
        Request { url: self.url(), content_type: String::from_str(JSON_CONTENT_TYPE), body }
    }

    /// The request that registers `stations`: one POST to the client's
    /// address with all of them in its body, in order. An empty list is a
    /// request like any other.
    pub fn register_stations(&self, stations: &[Station]) -> (request: Request)
        ensures
            request.url@ == self.target(),
            request.content_type@ == JSON_CONTENT_TYPE@,
            request.body@ == stations_body(stations@),
    {
        let mut out = open_batch("stations");
        let ghost base = out@;
        let ghost mut done: Seq<Seq<char>> = Seq::empty();
        proof {
            assert(out@ =~= base + items_text(done));
        }
        let mut i: usize = 0;
        while i < stations.len()
            invariant
                i <= stations.len(),
                out@ == base + items_text(done),
                done == station_items(stations@.take(i as int)),
            decreases stations.len() - i,
        {
            let item = stations[i].to_json();
            put_item(&mut out, i == 0, item.as_str(), Ghost(base), Ghost(done));
            proof {
                done = done.push(item@);
                assert(done =~= station_items(stations@.take(i + 1)));
            }
            i = i + 1;
        }
        proof {
            assert(stations@.take(i as int) =~= stations@);
        }
        close_batch(&mut out, Ghost("stations"@), Ghost(done));
        self.post(out)
    }

    /// The request that records `observations`: one POST to the client's
    /// address with all of them in its body, in order. An empty list is a
    /// request like any other.
    pub fn record_observations(&self, observations: &[Observation]) -> (request: Request)
        ensures
            request.url@ == self.target(),
            request.content_type@ == JSON_CONTENT_TYPE@,
            request.body@ == observations_body(observations@),
    {
        let mut out = open_batch("observations");
        let ghost base = out@;
        let ghost mut done: Seq<Seq<char>> = Seq::empty();
        proof {
            assert(out@ =~= base + items_text(done));
        }
        let mut i: usize = 0;
        while i < observations.len()
            invariant
                i <= observations.len(),
                out@ == base + items_text(done),
                done == observation_items(observations@.take(i as int)),
            decreases observations.len() - i,
        {
            let item = observations[i].to_json();
            put_item(&mut out, i == 0, item.as_str(), Ghost(base), Ghost(done));
            proof {
                done = done.push(item@);
                assert(done =~= observation_items(observations@.take(i + 1)));
            }
            i = i + 1;
        }
        proof {
            assert(observations@.take(i as int) =~= observations@);
        }
        close_batch(&mut out, Ghost("observations"@), Ghost(done));
        self.post(out)
    }
}

} // verus!
