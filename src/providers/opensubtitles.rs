//! A service searched by fingerprint, for movies and episodes alike.

use crate::file::{file_name, File, Lang};
use crate::fingerprint::hex16;
use crate::http::{
    decimal, decimal_text, pair_views, query_text, stringify, HttpRequest, Method, ProviderError,
};
use crate::providers::{is_request, HttpProvider};
use crate::subtitle::Subtitle;
use vstd::prelude::*;

verus! {

/// One entry of a search response.
pub struct SubtitleRecord {
    pub data_type: String,
    pub download_count: i32,
    /// The service matched the entry by the file's fingerprint.
    pub moviehash_match: bool,
    pub file_ids: Vec<i32>,
    pub upload_date: String,
}

/// The record is a subtitle, and fingerprint-matched if `hashed_only`.
pub open spec fn eligible(r: SubtitleRecord, hashed_only: bool) -> bool {
    &&& r.data_type@ == "subtitle"@
    &&& hashed_only ==> r.moviehash_match
}

/// Some record of `s` is eligible.
pub open spec fn has_eligible(s: Seq<SubtitleRecord>, hashed_only: bool) -> bool {
    exists|i: int| 0 <= i < s.len() && eligible(s[i], hashed_only)
}

/// `s[i]` has the highest download count among the eligible records, and
/// is the first in order among those that share it.
pub open spec fn is_best(s: Seq<SubtitleRecord>, hashed_only: bool, i: int) -> bool {
    &&& 0 <= i < s.len()
    &&& eligible(s[i], hashed_only)
    &&& forall|j: int|
        0 <= j < s.len() && eligible(s[j], hashed_only) ==> s[j].download_count
            <= s[i].download_count
    &&& forall|j: int|
        0 <= j < i && eligible(s[j], hashed_only) ==> s[j].download_count < s[i].download_count
}

/// `s[i]` is the record chosen: the best fingerprint-matched one if there is
/// one, else the best of all.
pub open spec fn is_chosen(s: Seq<SubtitleRecord>, i: int) -> bool {
    if has_eligible(s, true) {
        is_best(s, true, i)
    } else {
        is_best(s, false, i)
    }
}

/// The query parameters of a search.
pub open spec fn search_pairs(name: Seq<char>, language: Seq<char>, hash: Seq<char>) -> Seq<
    (Seq<char>, Seq<char>),
> {
    seq![("query"@, name), ("languages"@, language), ("moviehash"@, hash)]
}

/// The JSON body that asks for a download link.
pub open spec fn download_body(file_id: i32) -> Seq<char> {
    "{\"file_id\":"@ + decimal(file_id as int) + "}"@
}

/// Index of the best eligible record, if any.
fn best_index(records: &Vec<SubtitleRecord>, hashed_only: bool) -> (r: Option<usize>)
    ensures
        match r {
            Some(i) => is_best(records@, hashed_only, i as int),
            None => !has_eligible(records@, hashed_only),
        },
{
    let kind = String::from_str("subtitle");
    let mut best: Option<usize> = None;
    let mut k: usize = 0;
    while k < records.len()
        invariant
            k <= records@.len(),
            kind@ == "subtitle"@,
            match best {
                Some(b) => b < k && eligible(records@[b as int], hashed_only) && (forall|j: int|
                    0 <= j < k && eligible(records@[j], hashed_only)
                        ==> records@[j].download_count <= records@[b as int].download_count)
                    && (forall|j: int|
                    0 <= j < b && eligible(records@[j], hashed_only)
                        ==> records@[j].download_count < records@[b as int].download_count),
                None => forall|j: int| 0 <= j < k ==> !eligible(records@[j], hashed_only),
            },
        decreases records@.len() - k,
    {
        let r = &records[k];
        if r.data_type == kind && (!hashed_only || r.moviehash_match) {
            match best {
                Some(b) => {
                    if records[b].download_count < r.download_count {
                        best = Some(k);
                    }
                },
                None => {
                    best = Some(k);
                },
            }
        }
        k = k + 1;
    }
    best
}

/// Index of the record to download: the most downloaded fingerprint-matched
/// subtitle, else the most downloaded subtitle; ties go to the earlier one.
pub fn select_record(records: &Vec<SubtitleRecord>) -> (r: Option<usize>)
    ensures
        match r {
            Some(i) => is_chosen(records@, i as int),
            None => !has_eligible(records@, false),
        },
{
    match best_index(records, true) {
        Some(i) => Some(i),
        None => {
            let r = best_index(records, false);
            proof {
                if r is None && has_eligible(records@, true) {
                    let i = choose|i: int| 0 <= i < records@.len() && eligible(records@[i], true);
                    assert(eligible(records@[i], false));
                }
            }
            r
        },
    }
}

pub struct OpenSubtitleProvider {
    pub file: File,
    pub api_url: String,
    pub api_key: String,
}

impl OpenSubtitleProvider {
    /// A provider for `file`; fails without a credential.
    pub fn new(file: File, api_key: Option<String>) -> (r: Result<Self, ProviderError>)
        ensures
            match api_key {
                Some(k) => r matches Ok(p) && p.file == file && p.api_key == k && p.api_url@
                    == "https://api.opensubtitles.com/api/v1/"@,
                None => r is Err && r->Err_0 == ProviderError::CredentialMissing,
            },
    {
        match api_key {
            Some(api_key) => Ok(
                OpenSubtitleProvider {
                    file,
                    api_url: String::from_str("https://api.opensubtitles.com/api/v1/"),
                    api_key,
                },
            ),
            None => Err(ProviderError::CredentialMissing),
        }
    }

    /// A GET request to `url` carrying the credential.
    pub fn get(&self, url: String) -> (r: HttpRequest)
        ensures
            is_request(r, Method::Get, url@, "Api-Key"@, self.api_key@, None),
    {
        HttpRequest {
            method: Method::Get,
            url,
            header_name: String::from_str("Api-Key"),
            header_value: self.api_key.clone(),
            body: None,
        }
    }

    /// A POST request to `url` carrying the credential and a JSON `body`.
    pub fn post(&self, url: String, body: String) -> (r: HttpRequest)
        ensures
            is_request(r, Method::Post, url@, "Api-Key"@, self.api_key@, Some(body@)),
    {
        HttpRequest {
            method: Method::Post,
            url,
            header_name: String::from_str("Api-Key"),
            header_value: self.api_key.clone(),
            body: Some(body),
        }
    }

    /// The search by file name, language and fingerprint; fails, sending
    /// nothing, when the file has no fingerprint.
    pub fn search_request(&self, lang: &Lang) -> (r: Result<HttpRequest, ProviderError>)
        ensures
            match self.file.fingerprint {
                Err(e) => r == Err::<HttpRequest, ProviderError>(ProviderError::Fingerprint(e)),
                Ok(f) => r matches Ok(req) && is_request(
                    req,
                    Method::Get,
                    self.api_url@ + "subtitles?"@ + query_text(
                        search_pairs(
                            file_name(self.file.filepath@),
                            lang.code@,
                            hex16(f.checksum),
                        ),
                    ),
                    "Api-Key"@,
                    self.api_key@,
                    None,
                ),
            },
    {
        let language = self.get_lang(lang)?;
        let filename = self.file.get_filename();
        let query = self.get_query()?;
        let mut pairs: Vec<(String, String)> = Vec::new();
        pairs.push((String::from_str("query"), filename));
        pairs.push((String::from_str("languages"), language));
        pairs.push((String::from_str("moviehash"), query));
        let qs = stringify(&pairs);
        assert(pair_views(pairs@) =~= search_pairs(
            file_name(self.file.filepath@),
            lang.code@,
            hex16(self.file.fingerprint->Ok_0.checksum),
        ));
        let mut url = self.api_url.clone();
        url.append("subtitles?");
        url.append(qs.as_str());
        Ok(self.get(url))
    }

    /// The candidate to download, from the records of a search response.
    pub fn search_result(&self, lang: &Lang, records: Vec<SubtitleRecord>) -> (r: Result<
        Subtitle,
        ProviderError,
    >)
        ensures
            !has_eligible(records@, false) ==> r == Err::<Subtitle, ProviderError>(
                ProviderError::NoMatch,
            ),
            forall|i: int|
                is_chosen(records@, i) ==> if records@[i].file_ids@.len() == 0 {
                    r == Err::<Subtitle, ProviderError>(ProviderError::Decode)
                } else {
                    r matches Ok(sub) && sub.id == records@[i].file_ids@[0] && sub.language@
                        == lang.code@ && sub.date@ == records@[i].upload_date@ && sub.url@
                        == Seq::<char>::empty() && sub.source@ == Seq::<char>::empty()
                        && sub.file@ == Seq::<char>::empty() && sub.quality == 0
                },
    {
        proof {
            lemma_chosen_unique(records@);
        }
        match select_record(&records) {
            None => Err(ProviderError::NoMatch),
            Some(i) => {
                let record = &records[i];
                if record.file_ids.len() == 0 {
                    Err(ProviderError::Decode)
                } else {
                    Ok(
                        Subtitle {
                            id: record.file_ids[0],
                            language: lang.code.clone(),
                            source: String::new(),
                            quality: 0,
                            file: String::new(),
                            url: String::new(),
                            date: record.upload_date.clone(),
                        },
                    )
                }
            },
        }
    }

    /// The request for a temporary download link to a subtitle.
    pub fn download_request(&self, subtitle: &Subtitle) -> (r: HttpRequest)
        ensures
            is_request(
                r,
                Method::Post,
                self.api_url@ + "download"@,
                "Api-Key"@,
                self.api_key@,
                Some(download_body(subtitle.id)),
            ),
    {
        let mut url = self.api_url.clone();
        url.append("download");
        let mut body = String::from_str("{\"file_id\":");
        body.append(decimal_text(subtitle.id).as_str());
        body.append("}");
        self.post(url, body)
    }

    /// The request that fetches the text behind a download link.
    pub fn link_request(&self, link: String) -> (r: HttpRequest)
        ensures
            is_request(r, Method::Get, link@, "Api-Key"@, self.api_key@, None),
    {
        self.get(link)
    }
}

/// At most one record is chosen.
pub proof fn lemma_chosen_unique(s: Seq<SubtitleRecord>)
    ensures
        forall|i: int, j: int| is_chosen(s, i) && is_chosen(s, j) ==> i == j,
{
    assert forall|i: int, j: int| is_chosen(s, i) && is_chosen(s, j) implies i == j by {
        if i < j {
            assert(s[i].download_count < s[j].download_count);
        } else if j < i {
            assert(s[j].download_count < s[i].download_count);
        }
    }
}

impl HttpProvider for OpenSubtitleProvider {
    open spec fn language_token(&self, code: Seq<char>) -> Option<Seq<char>> {
        Some(code)
    }

    open spec fn query(&self) -> Result<Seq<char>, ProviderError> {
        match self.file.fingerprint {
            Ok(f) => Ok(hex16(f.checksum)),
            Err(e) => Err(ProviderError::Fingerprint(e)),
        }
    }

    open spec fn label(&self) -> Seq<char> {
        "OpenSubtitles"@
    }

    fn name(&self) -> (r: &'static str) {
        "OpenSubtitles"
    }

    fn get_lang(&self, lang: &Lang) -> (r: Result<String, ProviderError>) {
        Ok(lang.code.clone())
    }

    fn get_query(&self) -> (r: Result<String, ProviderError>) {
        match self.file.get_hash() {
            Ok((hash, _size)) => Ok(hash),
            Err(e) => Err(ProviderError::Fingerprint(e)),
        }
    }
}

} // verus!
