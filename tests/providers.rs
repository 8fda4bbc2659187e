use jimaku::file::{File, Lang, Mode};
use jimaku::fingerprint::{Fingerprint, FingerprintError};
use jimaku::http::{Method, ProviderError};
use jimaku::providers::betaseries::BetaSeriesProvider;
use jimaku::providers::opensubtitles::{select_record, OpenSubtitleProvider, SubtitleRecord};
use jimaku::providers::{
    ChainAction, ChainError, ChainEvent, ChainState, HttpProvider, Provider, Providers,
};
use jimaku::subtitle::Subtitle;

fn lang(code: &str) -> Lang {
    Lang { code: code.to_owned() }
}

fn media(mode: Mode) -> File {
    File::new(
        String::from("/videos/show.S01E02.mkv"),
        lang("fr"),
        mode,
        Ok(Fingerprint { file_size: 734003200, checksum: 0x00ab12cd34ef5678 }),
    )
}

fn episodes() -> BetaSeriesProvider {
    BetaSeriesProvider::new(media(Mode::TvShow), Some(String::from("bs-key"))).unwrap()
}

fn hashes() -> OpenSubtitleProvider {
    OpenSubtitleProvider::new(media(Mode::TvShow), Some(String::from("os-key"))).unwrap()
}

fn subtitle(id: i32, language: &str) -> Subtitle {
    Subtitle {
        id,
        language: String::from(language),
        source: String::from("addic7ed"),
        quality: 3,
        file: format!("{}.srt", id),
        url: format!("https://example.org/{}", id),
        date: String::from("2020-01-01"),
    }
}

fn record(count: i32, hashed: bool, file_id: i32) -> SubtitleRecord {
    SubtitleRecord {
        data_type: String::from("subtitle"),
        download_count: count,
        moviehash_match: hashed,
        file_ids: vec![file_id],
        upload_date: format!("2021-02-{:02}", file_id % 28 + 1),
    }
}

#[test]
fn missing_credentials_are_refused() {
    assert!(matches!(
        BetaSeriesProvider::new(media(Mode::TvShow), None),
        Err(ProviderError::CredentialMissing)
    ));
    assert!(matches!(
        OpenSubtitleProvider::new(media(Mode::Movie), None),
        Err(ProviderError::CredentialMissing)
    ));
}

#[test]
fn episode_service_language_tokens() {
    let p = episodes();
    assert_eq!(p.get_lang(&lang("en")), Ok(String::from("VO")));
    assert_eq!(p.get_lang(&lang("fr")), Ok(String::from("VF")));
    assert_eq!(p.get_lang(&lang("de")), Err(ProviderError::UnsupportedLanguage));
    assert_eq!(p.name(), "BetaSeries");
}

#[test]
fn hash_service_passes_language_through() {
    let p = hashes();
    assert_eq!(p.get_lang(&lang("de")), Ok(String::from("de")));
    assert_eq!(p.get_lang(&lang("en")), Ok(String::from("en")));
    assert_eq!(p.name(), "OpenSubtitles");
}

#[test]
fn queries_of_each_service() {
    assert_eq!(episodes().get_query(), Ok(String::from("show.S01E02.mkv")));
    assert_eq!(hashes().get_query(), Ok(String::from("00ab12cd34ef5678")));
    let p = OpenSubtitleProvider::new(
        File::new(String::from("a.mkv"), lang("en"), Mode::Movie, Err(FingerprintError::FileTooSmall)),
        Some(String::from("k")),
    )
    .unwrap();
    assert_eq!(p.get_query(), Err(ProviderError::Fingerprint(FingerprintError::FileTooSmall)));
}

#[test]
fn episode_search_request() {
    let req = episodes().search_request(&lang("fr")).unwrap();
    assert_eq!(req.method, Method::Get);
    assert_eq!(req.url, "https://api.betaseries.com/episodes/scraper?file=show.S01E02.mkv&");
    assert_eq!(req.header_name, "X-BetaSeries-Key");
    assert_eq!(req.header_value, "bs-key");
    assert!(req.body.is_none());
}

#[test]
fn episode_search_with_unsupported_language_sends_nothing() {
    assert!(matches!(
        episodes().search_request(&lang("es")),
        Err(ProviderError::UnsupportedLanguage)
    ));
}

#[test]
fn episode_selection_takes_first_in_language() {
    let subs = vec![subtitle(1, "VO"), subtitle(2, "VF"), subtitle(3, "VF")];
    let chosen = episodes().select_subtitle(&lang("fr"), subs).unwrap();
    assert_eq!(chosen.id, 2);
    assert_eq!(chosen.url, "https://example.org/2");
    let subs = vec![subtitle(1, "VO"), subtitle(2, "VF")];
    assert_eq!(episodes().select_subtitle(&lang("en"), subs).unwrap().id, 1);
}

#[test]
fn episode_selection_without_match() {
    let subs = vec![subtitle(1, "VO"), subtitle(2, "VOVF")];
    assert!(matches!(
        episodes().select_subtitle(&lang("fr"), subs),
        Err(ProviderError::NoMatch)
    ));
    assert!(matches!(episodes().select_subtitle(&lang("fr"), vec![]), Err(ProviderError::NoMatch)));
    assert!(matches!(
        episodes().select_subtitle(&lang("it"), vec![subtitle(1, "VF")]),
        Err(ProviderError::UnsupportedLanguage)
    ));
}

#[test]
fn episode_download_request() {
    let req = episodes().download_request(&subtitle(9, "VF"));
    assert_eq!(req.method, Method::Get);
    assert_eq!(req.url, "https://example.org/9");
    assert_eq!(req.header_value, "bs-key");
}

#[test]
fn hash_search_request() {
    let req = hashes().search_request(&lang("fr")).unwrap();
    assert_eq!(req.method, Method::Get);
    assert_eq!(
        req.url,
        "https://api.opensubtitles.com/api/v1/subtitles?query=show.S01E02.mkv&languages=fr&moviehash=00ab12cd34ef5678&"
    );
    assert_eq!(req.header_name, "Api-Key");
    assert_eq!(req.header_value, "os-key");
}

#[test]
fn hash_search_without_fingerprint_sends_nothing() {
    let p = OpenSubtitleProvider::new(
        File::new(String::from("a.mkv"), lang("en"), Mode::Movie, Err(FingerprintError::Io)),
        Some(String::from("k")),
    )
    .unwrap();
    assert!(matches!(
        p.search_request(&lang("en")),
        Err(ProviderError::Fingerprint(FingerprintError::Io))
    ));
}

#[test]
fn hash_match_outranks_download_count() {
    let records = vec![record(900, false, 1), record(10, true, 2)];
    assert_eq!(select_record(&records), Some(1));
    let chosen = hashes().search_result(&lang("fr"), records).unwrap();
    assert_eq!(chosen.id, 2);
    assert_eq!(chosen.language, "fr");
}

#[test]
fn without_hash_match_most_downloaded_wins() {
    let records = vec![record(5, false, 1), record(50, false, 2)];
    assert_eq!(select_record(&records), Some(1));
    let chosen = hashes().search_result(&lang("en"), records).unwrap();
    assert_eq!(chosen.id, 2);
    assert_eq!(chosen.date, "2021-02-03");
}

#[test]
fn most_downloaded_hash_match_wins() {
    let records = vec![record(3, true, 1), record(1000, false, 2), record(7, true, 3)];
    assert_eq!(select_record(&records), Some(2));
}

#[test]
fn ties_go_to_the_earlier_record() {
    let records = vec![record(5, false, 1), record(8, true, 2), record(8, true, 3)];
    assert_eq!(select_record(&records), Some(1));
}

#[test]
fn non_subtitle_records_are_skipped() {
    let mut other = record(10000, true, 1);
    other.data_type = String::from("feature");
    let records = vec![other, record(1, false, 2)];
    assert_eq!(select_record(&records), Some(1));
}

#[test]
fn no_records_is_no_match() {
    assert_eq!(select_record(&vec![]), None);
    assert!(matches!(hashes().search_result(&lang("en"), vec![]), Err(ProviderError::NoMatch)));
}

#[test]
fn chosen_record_without_file_is_a_decode_error() {
    let mut empty = record(10, true, 1);
    empty.file_ids = vec![];
    let records = vec![empty, record(99, false, 2)];
    assert!(matches!(hashes().search_result(&lang("en"), records), Err(ProviderError::Decode)));
}

#[test]
fn hash_download_request_posts_file_id() {
    let p = hashes();
    let req = p.download_request(&subtitle(1234, "fr"));
    assert_eq!(req.method, Method::Post);
    assert_eq!(req.url, "https://api.opensubtitles.com/api/v1/download");
    assert_eq!(req.body, Some(String::from("{\"file_id\":1234}")));
    assert_eq!(req.header_name, "Api-Key");
    let req = p.link_request(String::from("https://dl.example.org/x.srt"));
    assert_eq!(req.method, Method::Get);
    assert_eq!(req.url, "https://dl.example.org/x.srt");
}

fn chain() -> Providers {
    let mut providers = Providers::new();
    providers.push(Provider::BetaSeries(episodes()));
    providers.push(Provider::OpenSubtitles(hashes()));
    providers
}

fn is_search(action: &ChainAction, at: usize) -> bool {
    matches!(action, ChainAction::Search { provider } if *provider == at)
}

#[test]
fn second_provider_succeeds_after_first_finds_nothing() {
    let providers = chain();
    let mut actions = Vec::new();
    let (mut state, action) = providers.start();
    assert!(is_search(&action, 0));
    actions.push(action);
    let action = providers.run(&mut state, ChainEvent::Searched(Err(ProviderError::NoMatch)));
    assert!(is_search(&action, 1));
    actions.push(action);
    let action = providers.run(&mut state, ChainEvent::Searched(Ok(subtitle(5, "fr"))));
    assert!(matches!(&action, ChainAction::Download { provider: 1, subtitle } if subtitle.id == 5));
    actions.push(action);
    let action = providers.run(&mut state, ChainEvent::Downloaded(Ok(String::from("1\nhello"))));
    match &action {
        ChainAction::Persist { provider, path, contents } => {
            assert_eq!(*provider, 1);
            assert_eq!(path, "/videos/show.S01E02.fr.srt");
            assert_eq!(contents, "1\nhello");
        }
        _ => panic!("expected a write"),
    }
    actions.push(action);
    let action = providers.run(&mut state, ChainEvent::Persisted(Ok(())));
    assert!(matches!(action, ChainAction::Finished(Ok(1))));
    assert_eq!(state, ChainState::Succeeded(1));
    for a in &actions {
        assert!(!matches!(a, ChainAction::Download { provider: 0, .. }));
        assert!(!matches!(a, ChainAction::Persist { provider: 0, .. }));
    }
}

#[test]
fn every_search_failing_fails_the_run() {
    let providers = chain();
    let (mut state, action) = providers.start();
    assert!(is_search(&action, 0));
    let action = providers.run(&mut state, ChainEvent::Searched(Err(ProviderError::Transport)));
    assert!(is_search(&action, 1));
    let action = providers.run(&mut state, ChainEvent::Searched(Err(ProviderError::NoMatch)));
    assert!(matches!(action, ChainAction::Finished(Err(ChainError::AllProvidersFailed))));
    assert_eq!(state, ChainState::Exhausted);
}

#[test]
fn failed_write_moves_to_next_provider() {
    let providers = chain();
    let (mut state, _) = providers.start();
    let action = providers.run(&mut state, ChainEvent::Searched(Ok(subtitle(1, "VF"))));
    assert!(matches!(action, ChainAction::Download { provider: 0, .. }));
    let action = providers.run(&mut state, ChainEvent::Downloaded(Ok(String::from("text"))));
    assert!(matches!(action, ChainAction::Persist { provider: 0, .. }));
    let action = providers.run(&mut state, ChainEvent::Persisted(Err(ProviderError::Io)));
    assert!(is_search(&action, 1));
    assert_eq!(state, ChainState::Searching(1));
}

#[test]
fn failed_download_moves_to_next_provider() {
    let providers = chain();
    let (mut state, _) = providers.start();
    providers.run(&mut state, ChainEvent::Searched(Ok(subtitle(1, "VF"))));
    let action = providers.run(&mut state, ChainEvent::Downloaded(Err(ProviderError::Transport)));
    assert!(is_search(&action, 1));
}

#[test]
fn empty_chain_fails_at_once() {
    let providers = Providers::new();
    let (state, action) = providers.start();
    assert_eq!(state, ChainState::Exhausted);
    assert!(matches!(action, ChainAction::Finished(Err(ChainError::AllProvidersFailed))));
}

#[test]
fn out_of_turn_event_is_refused() {
    let providers = chain();
    let (mut state, _) = providers.start();
    let action = providers.run(&mut state, ChainEvent::Persisted(Ok(())));
    assert!(matches!(action, ChainAction::Refused));
    assert_eq!(state, ChainState::Searching(0));
    let mut done = ChainState::Exhausted;
    let action = providers.run(&mut done, ChainEvent::Searched(Ok(subtitle(1, "VF"))));
    assert!(matches!(action, ChainAction::Refused));
    assert_eq!(done, ChainState::Exhausted);
}

#[test]
fn tv_show_registers_episode_service_first() {
    let file = media(Mode::TvShow);
    let providers =
        Providers::register(&file, Some(String::from("a")), Some(String::from("b"))).unwrap();
    assert_eq!(providers.providers.len(), 2);
    assert_eq!(providers.providers[0].name(), "BetaSeries");
    assert_eq!(providers.providers[1].name(), "OpenSubtitles");
}

#[test]
fn movie_registers_only_hash_service() {
    let file = media(Mode::Movie);
    let providers =
        Providers::register(&file, Some(String::from("a")), Some(String::from("b"))).unwrap();
    assert_eq!(providers.providers.len(), 1);
    assert_eq!(providers.providers[0].name(), "OpenSubtitles");
}

#[test]
fn missing_credential_leaves_the_other_provider() {
    let file = media(Mode::TvShow);
    let providers = Providers::register(&file, Some(String::from("a")), None).unwrap();
    assert_eq!(providers.providers.len(), 1);
    assert_eq!(providers.providers[0].name(), "BetaSeries");
}

#[test]
fn no_credential_means_no_provider() {
    let file = media(Mode::TvShow);
    assert!(matches!(Providers::register(&file, None, None), Err(ChainError::NoProvider)));
    let movie = media(Mode::Movie);
    assert!(matches!(
        Providers::register(&movie, Some(String::from("a")), None),
        Err(ChainError::NoProvider)
    ));
}

#[test]
fn run_ends_at_first_provider_that_fully_succeeds() {
    let mut providers = chain();
    providers.push(Provider::OpenSubtitles(hashes()));
    providers.push(Provider::BetaSeries(episodes()));
    let (mut state, action) = providers.start();
    assert!(is_search(&action, 0));
    // The first provider's download fails.
    providers.run(&mut state, ChainEvent::Searched(Ok(subtitle(1, "VF"))));
    let action = providers.run(&mut state, ChainEvent::Downloaded(Err(ProviderError::Decode)));
    assert!(is_search(&action, 1));
    // The second provider's write fails.
    providers.run(&mut state, ChainEvent::Searched(Ok(subtitle(2, "fr"))));
    providers.run(&mut state, ChainEvent::Downloaded(Ok(String::from("a"))));
    let action = providers.run(&mut state, ChainEvent::Persisted(Err(ProviderError::Io)));
    assert!(is_search(&action, 2));
    // The third provider succeeds; the fourth is never asked.
    providers.run(&mut state, ChainEvent::Searched(Ok(subtitle(3, "fr"))));
    providers.run(&mut state, ChainEvent::Downloaded(Ok(String::from("b"))));
    let action = providers.run(&mut state, ChainEvent::Persisted(Ok(())));
    assert!(matches!(action, ChainAction::Finished(Ok(2))));
    assert_eq!(state, ChainState::Succeeded(2));
    let action = providers.run(&mut state, ChainEvent::Searched(Err(ProviderError::NoMatch)));
    assert!(matches!(action, ChainAction::Refused));
    assert_eq!(state, ChainState::Succeeded(2));
}
