//! Remote subtitle services, and the chain that tries them in order.

use crate::file::{subtitle_path, File, Lang, Mode};
use crate::http::{HttpRequest, Method, ProviderError};
use crate::providers::betaseries::BetaSeriesProvider;
use crate::providers::chain::{moves_to, next_state, outcome_of};
use crate::providers::opensubtitles::OpenSubtitleProvider;
use vstd::prelude::*;

pub mod betaseries;
pub mod chain;
pub mod opensubtitles;

pub use chain::{ChainAction, ChainError, ChainEvent, ChainState};

verus! {

/// `req` is a request with exactly these parts.
pub open spec fn is_request(
    req: HttpRequest,
    method: Method,
    url: Seq<char>,
    header_name: Seq<char>,
    header_value: Seq<char>,
    body: Option<Seq<char>>,
) -> bool {
    &&& req.method == method
    &&& req.url@ == url
    &&& req.header_name@ == header_name
    &&& req.header_value@ == header_value
    &&& match body {
        Some(b) => req.body matches Some(s) && s@ == b,
        None => req.body is None,
    }
}

/// What every remote subtitle service offers.
pub trait HttpProvider {
    /// The service's token for the language tag `code`, if it has one.
    spec fn language_token(&self, code: Seq<char>) -> Option<Seq<char>>;

    /// The text the service is searched with.
    spec fn query(&self) -> Result<Seq<char>, ProviderError>;

    /// The service's name.
    spec fn label(&self) -> Seq<char>;

    /// The service's name, for messages.
    fn name(&self) -> (r: &'static str)
        ensures
            r@ == self.label(),
    ;

    /// Maps a language tag to the service's own token.
    fn get_lang(&self, lang: &Lang) -> (r: Result<String, ProviderError>)
        ensures
            match self.language_token(lang.code@) {
                Some(t) => r matches Ok(s) && s@ == t,
                None => r == Err::<String, ProviderError>(ProviderError::UnsupportedLanguage),
            },
    ;

    /// The text to search with.
    fn get_query(&self) -> (r: Result<String, ProviderError>)
        ensures
            match self.query() {
                Ok(q) => r matches Ok(s) && s@ == q,
                Err(e) => r == Err::<String, ProviderError>(e),
            },
    ;
}

/// One configured service.
pub enum Provider {
    BetaSeries(BetaSeriesProvider),
    OpenSubtitles(OpenSubtitleProvider),
}

impl Provider {
    /// The media file the provider works for.
    pub open spec fn media(&self) -> File {
        match self {
            Provider::BetaSeries(p) => p.file,
            Provider::OpenSubtitles(p) => p.file,
        }
    }

    pub fn file(&self) -> (r: &File)
        ensures
            *r == self.media(),
    {
        match self {
            Provider::BetaSeries(p) => &p.file,
            Provider::OpenSubtitles(p) => &p.file,
        }
    }

    pub fn name(&self) -> (r: &'static str)
        ensures
            r@ == match self {
                Provider::BetaSeries(p) => p.label(),
                Provider::OpenSubtitles(p) => p.label(),
            },
    {
        match self {
            Provider::BetaSeries(p) => p.name(),
            Provider::OpenSubtitles(p) => p.name(),
        }
    }
}

/// The episode service is set up for `file`: it is a TV show and the
/// credential is given.
pub open spec fn uses_episodes(file: File, key: Option<String>) -> bool {
    file.mode == Mode::TvShow && key is Some
}

/// `p` is the episode service for `file`, with credential `key`.
pub open spec fn is_episode_provider(p: Provider, file: File, key: String) -> bool {
    p matches Provider::BetaSeries(q) && q.file == file && q.api_key == key && q.api_url@
        == "https://api.betaseries.com/"@
}

/// `p` is the fingerprint service for `file`, with credential `key`.
pub open spec fn is_hash_provider(p: Provider, file: File, key: String) -> bool {
    p matches Provider::OpenSubtitles(q) && q.file == file && q.api_key == key && q.api_url@
        == "https://api.opensubtitles.com/api/v1/"@
}

/// `list` holds the services that can be set up, most precise first.
pub open spec fn registration(
    file: File,
    episode_key: Option<String>,
    hash_key: Option<String>,
    list: Seq<Provider>,
) -> bool {
    let episodes = uses_episodes(file, episode_key);
    let hashes = hash_key is Some;
    &&& list.len() == (if episodes {
        1int
    } else {
        0int
    }) + (if hashes {
        1int
    } else {
        0int
    })
    &&& episodes ==> is_episode_provider(list[0], file, episode_key->0)
    &&& hashes ==> is_hash_provider(list.last(), file, hash_key->0)
}

/// The services to try, in priority order.
pub struct Providers {
    pub providers: Vec<Provider>,
}

impl Providers {
    pub fn new() -> (r: Self)
        ensures
            r.providers@.len() == 0,
    {
        Providers { providers: Vec::new() }
    }

    /// Adds a provider after those already there.
    pub fn push(&mut self, provider: Provider)
        ensures
            final(self).providers@ == old(self).providers@.push(provider),
    {
        self.providers.push(provider);
    }

    /// The providers for `file`, most precise first: the episode service for
    /// a TV show when its credential is given, then the fingerprint service
    /// when its credential is given. Fails when neither can be set up.
    pub fn register(file: &File, episode_key: Option<String>, hash_key: Option<String>) -> (r:
        Result<Providers, ChainError>)
        ensures
            !uses_episodes(*file, episode_key) && hash_key is None ==> r == Err::<
                Providers,
                ChainError,
            >(ChainError::NoProvider),
            uses_episodes(*file, episode_key) || hash_key is Some ==> (r matches Ok(p)
                && registration(*file, episode_key, hash_key, p.providers@)),
    {
        let mut providers = Providers::new();
        if file.mode == Mode::TvShow {
            if let Ok(p) = BetaSeriesProvider::new(file.duplicate(), episode_key) {
                providers.push(Provider::BetaSeries(p));
            }
        }
        if let Ok(p) = OpenSubtitleProvider::new(file.duplicate(), hash_key) {
            providers.push(Provider::OpenSubtitles(p));
        }
        if providers.providers.len() == 0 {
            return Err(ChainError::NoProvider);
        }
        Ok(providers)
    }

    /// The first action of a run.
    pub fn start(&self) -> (r: (ChainState, ChainAction))
        ensures
            moves_to(self.providers@.len(), 0, r.0, r.1),
    {
        self.move_to(0)
    }

    fn move_to(&self, j: usize) -> (r: (ChainState, ChainAction))
        ensures
            moves_to(self.providers@.len(), j as int, r.0, r.1),
    {
        if j < self.providers.len() {
            (ChainState::Searching(j), ChainAction::Search { provider: j })
        } else {
            (ChainState::Exhausted, ChainAction::Finished(Err(ChainError::AllProvidersFailed)))
        }
    }

    /// Moves on from provider `i` to the one after it.
    fn move_past(&self, i: usize) -> (r: (ChainState, ChainAction))
        ensures
            moves_to(self.providers@.len(), i + 1, r.0, r.1),
    {
        if i < self.providers.len() {
            self.move_to(i + 1)
        } else {
            (ChainState::Exhausted, ChainAction::Finished(Err(ChainError::AllProvidersFailed)))
        }
    }

    /// Takes the outcome of the step asked for and says what to do next: a
    /// failed search, download or write moves on to the next provider, a
    /// written subtitle ends the run.
    pub fn run(&self, state: &mut ChainState, event: ChainEvent) -> (r: ChainAction)
        ensures
            *final(state) == next_state(self.providers@.len(), *old(state), outcome_of(event)),
            match (*old(state), event) {
                (ChainState::Searching(i), ChainEvent::Searched(Ok(sub))) => *final(state)
                    == ChainState::Downloading(i) && r == (ChainAction::Download {
                    provider: i,
                    subtitle: sub,
                }),
                (ChainState::Searching(i), ChainEvent::Searched(Err(_))) => moves_to(
                    self.providers@.len(),
                    i + 1,
                    *final(state),
                    r,
                ),
                (ChainState::Downloading(i), ChainEvent::Downloaded(Ok(text))) => if i
                    < self.providers@.len() {
                    let media = self.providers@[i as int].media();
                    &&& *final(state) == ChainState::Persisting(i)
                    &&& r matches ChainAction::Persist { provider, path, contents }
                    &&& provider == i
                    &&& contents == text
                    &&& path@ == subtitle_path(media.filepath@, media.lang.code@)
                } else {
                    *final(state) == *old(state) && r == ChainAction::Refused
                },
                (ChainState::Downloading(i), ChainEvent::Downloaded(Err(_))) => moves_to(
                    self.providers@.len(),
                    i + 1,
                    *final(state),
                    r,
                ),
                (ChainState::Persisting(i), ChainEvent::Persisted(Ok(_))) => *final(state)
                    == ChainState::Succeeded(i) && r == ChainAction::Finished(Ok(i)),
                (ChainState::Persisting(i), ChainEvent::Persisted(Err(_))) => moves_to(
                    self.providers@.len(),
                    i + 1,
                    *final(state),
                    r,
                ),
                _ => *final(state) == *old(state) && r == ChainAction::Refused,
            },
    {
        match (*state, event) {
            (ChainState::Searching(i), ChainEvent::Searched(Ok(subtitle))) => {
                *state = ChainState::Downloading(i);
                ChainAction::Download { provider: i, subtitle }
            },
            (ChainState::Downloading(i), ChainEvent::Downloaded(Ok(contents))) => {
                if i < self.providers.len() {
                    *state = ChainState::Persisting(i);
                    let path = self.providers[i].file().get_subtitle_filename();
                    ChainAction::Persist { provider: i, path, contents }
                } else {
                    ChainAction::Refused
                }
            },
            (ChainState::Persisting(i), ChainEvent::Persisted(Ok(()))) => {
                *state = ChainState::Succeeded(i);
                ChainAction::Finished(Ok(i))
            },
            (ChainState::Searching(i), ChainEvent::Searched(Err(_))) => {
                let (next, action) = self.move_past(i);
                *state = next;
                action
            },
            (ChainState::Downloading(i), ChainEvent::Downloaded(Err(_))) => {
                let (next, action) = self.move_past(i);
                *state = next;
                action
            },
            (ChainState::Persisting(i), ChainEvent::Persisted(Err(_))) => {
                let (next, action) = self.move_past(i);
                *state = next;
                action
            },
            _ => ChainAction::Refused,
        }
    }
}

} // verus!
