//! A service searched by file name, for TV episodes.

use crate::file::{file_name, File, Lang};
use crate::http::{pair_views, query_text, stringify, HttpRequest, Method, ProviderError};
use crate::providers::{is_request, HttpProvider};
use crate::subtitle::Subtitle;
use vstd::prelude::*;

verus! {

/// The service's token for a language tag: "VO" for English, "VF" for
/// French, none for any other.
pub open spec fn version_token(code: Seq<char>) -> Option<Seq<char>> {
    if code == "en"@ {
        Some("VO"@)
    } else if code == "fr"@ {
        Some("VF"@)
    } else {
        None
    }
}

/// `s[i]` is the first subtitle in `s` whose language is `token`.
pub open spec fn is_first_in_language(s: Seq<Subtitle>, token: Seq<char>, i: int) -> bool {
    &&& 0 <= i < s.len()
    &&& s[i].language@ == token
    &&& forall|j: int| 0 <= j < i ==> s[j].language@ != token
}

pub struct BetaSeriesProvider {
    pub file: File,
    pub api_url: String,
    pub api_key: String,
}

impl BetaSeriesProvider {
    /// A provider for `file`; fails without a credential.
    pub fn new(file: File, api_key: Option<String>) -> (r: Result<Self, ProviderError>)
        ensures
            match api_key {
                Some(k) => r matches Ok(p) && p.file == file && p.api_key == k && p.api_url@
                    == "https://api.betaseries.com/"@,
                None => r is Err && r->Err_0 == ProviderError::CredentialMissing,
            },
    {
        match api_key {
            Some(api_key) => Ok(
                BetaSeriesProvider {
                    file,
                    api_url: String::from_str("https://api.betaseries.com/"),
                    api_key,
                },
            ),
            None => Err(ProviderError::CredentialMissing),
        }
    }

    /// A GET request to `url` carrying the credential.
    pub fn get(&self, url: String) -> (r: HttpRequest)
        ensures
            is_request(r, Method::Get, url@, "X-BetaSeries-Key"@, self.api_key@, None),
    {
        HttpRequest {
            method: Method::Get,
            url,
            header_name: String::from_str("X-BetaSeries-Key"),
            header_value: self.api_key.clone(),
            body: None,
        }
    }

    /// The search for the episode, by file name; the language is mapped
    /// first, so an unsupported one sends nothing.
    pub fn search_request(&self, lang: &Lang) -> (r: Result<HttpRequest, ProviderError>)
        ensures
            match version_token(lang.code@) {
                None => r == Err::<HttpRequest, ProviderError>(ProviderError::UnsupportedLanguage),
                Some(_) => r matches Ok(req) && is_request(
                    req,
                    Method::Get,
                    self.api_url@ + "episodes/scraper?"@ + query_text(
                        seq![("file"@, file_name(self.file.filepath@))],
                    ),
                    "X-BetaSeries-Key"@,
                    self.api_key@,
                    None,
                ),
            },
    {
        let _language = self.get_lang(lang)?;
        let query = self.file.get_filename();
        let mut pairs: Vec<(String, String)> = Vec::new();
        pairs.push((String::from_str("file"), query));
        let qs = stringify(&pairs);
        assert(pair_views(pairs@) =~= seq![("file"@, file_name(self.file.filepath@))]);
        let mut url = self.api_url.clone();
        url.append("episodes/scraper?");
        url.append(qs.as_str());
        Ok(self.get(url))
    }

    /// The first subtitle, in the order given, in the requested language.
    pub fn select_subtitle(&self, lang: &Lang, subtitles: Vec<Subtitle>) -> (r: Result<
        Subtitle,
        ProviderError,
    >)
        ensures
            match version_token(lang.code@) {
                None => r == Err::<Subtitle, ProviderError>(ProviderError::UnsupportedLanguage),
                Some(t) => match r {
                    Ok(sub) => exists|i: int|
                        is_first_in_language(subtitles@, t, i) && sub == subtitles@[i],
                    Err(e) => e == ProviderError::NoMatch && forall|j: int|
                        0 <= j < subtitles@.len() ==> subtitles@[j].language@ != t,
                },
            },
    {
        let language = self.get_lang(lang)?;
        let mut i: usize = 0;
        while i < subtitles.len()
            invariant
                i <= subtitles@.len(),
                version_token(lang.code@) == Some(language@),
                forall|j: int| 0 <= j < i ==> subtitles@[j].language@ != language@,
            decreases subtitles@.len() - i,
        {
            if subtitles[i].language == language {
                let mut subtitles = subtitles;
                let ghost before = subtitles@;
                let sub = subtitles.remove(i);
                assert(is_first_in_language(before, language@, i as int));
                return Ok(sub);
            }
            i = i + 1;
        }
        Err(ProviderError::NoMatch)
    }

    /// The request that fetches a subtitle's text.
    pub fn download_request(&self, subtitle: &Subtitle) -> (r: HttpRequest)
        ensures
            is_request(r, Method::Get, subtitle.url@, "X-BetaSeries-Key"@, self.api_key@, None),
    {
        self.get(subtitle.url.clone())
    }
}

impl HttpProvider for BetaSeriesProvider {
    open spec fn language_token(&self, code: Seq<char>) -> Option<Seq<char>> {
        version_token(code)
    }

    open spec fn query(&self) -> Result<Seq<char>, ProviderError> {
        Ok(file_name(self.file.filepath@))
    }

    open spec fn label(&self) -> Seq<char> {
        "BetaSeries"@
    }

    fn name(&self) -> (r: &'static str) {
        "BetaSeries"
    }

    fn get_lang(&self, lang: &Lang) -> (r: Result<String, ProviderError>) {
        proof {
            reveal_strlit("en");
            reveal_strlit("fr");
        }
        if lang.code == String::from_str("en") {
            Ok(String::from_str("VO"))
        } else if lang.code == String::from_str("fr") {
            Ok(String::from_str("VF"))
        } else {
            Err(ProviderError::UnsupportedLanguage)
        }
    }

    fn get_query(&self) -> (r: Result<String, ProviderError>) {
        Ok(self.file.get_filename())
    }
}

} // verus!
