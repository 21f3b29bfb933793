//! URL handling shared by the exchange adapters: building request URLs and
//! redacting credentials from URLs before they are logged.

use vstd::prelude::*;
use vstd::string::StringExecFns;
use crate::text::{
    join, chars_eq, lemma_find, lemma_find_first, lemma_match_char, lemma_split_join,
    lemma_split_on_nonempty, lemma_split_on_pieces, match_at, chars_to_string, concat_chars, find, find_chars, slice_chars, split_chars, split_on,
    str_chars, views,
};

verus! {

/// `{base}{endpoint}`, then `?{params}` when there are parameters.
pub open spec fn url_text(base: Seq<char>, endpoint: Seq<char>, params: Seq<char>) -> Seq<char> {
    if params.len() == 0 {
        base + endpoint
    } else {
        base + endpoint + "?"@ + params
    }
}

/// The URL of a request to `endpoint` with query `params`.
pub fn url_with_query(base: &str, endpoint: &str, params: &str) -> (r: String)
    ensures
        r@ == url_text(base@, endpoint@, params@),
{
    if params.is_empty() {
        String::from_str(base).concat(endpoint)
    } else {
        String::from_str(base).concat(endpoint).concat("?").concat(params)
    }
}

/// The query parameter names whose values never reach a log.
pub open spec fn default_sensitive_params() -> Seq<Seq<char>> {
    seq!["apiKey"@, "api_key"@, "signature"@, "timestamp"@]
}

/// One query parameter as logged: `key=***` when its key (the text before the
/// first `=`) is sensitive, else unchanged.
pub open spec fn redact_param(sensitive: Seq<Seq<char>>, param: Seq<char>) -> Seq<char> {
    match find(param, seq!['=']) {
        Some(i) => if sensitive.contains(param.take(i)) {
            param.take(i) + "=***"@
        } else {
            param
        },
        None => param,
    }
}

/// A URL as logged: when it has a query (the text after the first `?`), each
/// `&`-separated parameter of it redacted.
pub open spec fn redacted_url(sensitive: Seq<Seq<char>>, url: Seq<char>) -> Seq<char> {
    match find(url, seq!['?']) {
        Some(i) => url.take(i) + seq!['?'] + join(
            split_on(url.skip(i + 1), '&').map_values(|p: Seq<char>| redact_param(sensitive, p)),
            seq!['&'],
        ),
        None => url,
    }
}

/// A logged parameter is final: redacting it again changes nothing, so a
/// sensitive key in it is already followed by `=***`.
proof fn lemma_redact_fixed(sensitive: Seq<Seq<char>>, p: Seq<char>)
    ensures
        redact_param(sensitive, redact_param(sensitive, p)) == redact_param(sensitive, p),
        !p.contains('&') ==> !redact_param(sensitive, p).contains('&'),
{
    reveal_strlit("=***");
    let eq = seq!['='];
    lemma_find(p, eq);
    match find(p, eq) {
        Some(i) => {
            let key = p.take(i);
            if sensitive.contains(key) {
                let q = key + "=***"@;
                assert("=***"@ =~= seq!['=', '*', '*', '*']);
                lemma_match_char(q, '=', i);
                assert forall|j: int| 0 <= j < i implies !match_at(q, eq, j) by {
                    lemma_match_char(p, '=', j);
                    lemma_match_char(q, '=', j);
                    assert(q[j] == p[j]);
                }
                lemma_find_first(q, eq, i);
                assert(q.take(i) =~= key);
                if !p.contains('&') {
                    assert forall|j: int| 0 <= j < q.len() implies q[j] != '&' by {
                        if j < i {
                            assert(q[j] == p[j]);
                        }
                    }
                }
            }
        },
        None => {},
    }
}

/// What is logged of a URL keeps everything up to its query, and every
/// parameter of the logged query whose key is sensitive reads `key=***`: no
/// value of a sensitive parameter reaches a log. A URL without a query is
/// logged as it is.
pub proof fn law_sensitive_values_masked(sensitive: Seq<Seq<char>>, url: Seq<char>)
    ensures
        find(url, seq!['?']) is None ==> redacted_url(sensitive, url) == url,
        find(url, seq!['?']) matches Some(i) ==> ({
            let logged = redacted_url(sensitive, url);
            let pieces = split_on(logged.skip(i + 1), '&');
            &&& logged.take(i + 1) == url.take(i + 1)
            &&& forall|k: int|
                0 <= k < pieces.len() ==> (#[trigger] redact_param(sensitive, pieces[k])) == pieces[k]
        }),
{
    lemma_find(url, seq!['?']);
    match find(url, seq!['?']) {
        Some(i) => {
            let raw = split_on(url.skip(i + 1), '&');
            let red = raw.map_values(|p: Seq<char>| redact_param(sensitive, p));
            let body = join(red, seq!['&']);
            let logged = url.take(i) + seq!['?'] + body;
            lemma_match_char(url, '?', i);
            assert(logged.take(i + 1) =~= url.take(i + 1));
            assert(logged.skip(i + 1) =~= body);
            lemma_split_on_nonempty(url.skip(i + 1), '&');
            lemma_split_on_pieces(url.skip(i + 1), '&');
            assert forall|k: int| 0 <= k < red.len() implies !(#[trigger] red[k]).contains('&') by {
                assert(!raw[k].contains('&'));
                lemma_redact_fixed(sensitive, raw[k]);
            }
            lemma_split_join(red, '&');
            assert forall|k: int| 0 <= k < red.len() implies (#[trigger] redact_param(
                sensitive,
                red[k],
            )) == red[k] by {
                lemma_redact_fixed(sensitive, raw[k]);
            }
        },
        None => {},
    }
}

/// Shared HTTP conventions for exchange adapters: the base URL and the query
/// parameters that are redacted from logged URLs.
pub struct ExchangeHttpClient {
    base_url: String,
    sensitive_params: Vec<String>,
}

impl ExchangeHttpClient {
    /// The names of the sensitive query parameters.
    pub closed spec fn sensitive(&self) -> Seq<Seq<char>> {
        self.sensitive_params@.map_values(|s: String| s@)
    }

    /// The base URL.
    pub closed spec fn base(&self) -> Seq<char> {
        self.base_url@
    }

    /// A client for `base_url` that redacts `apiKey`, `api_key`, `signature`
    /// and `timestamp`.
    pub fn new(base_url: String) -> (r: Self)
        ensures
            r.base() == base_url@,
            r.sensitive() == default_sensitive_params(),
    {
        let mut sensitive_params: Vec<String> = Vec::new();
        sensitive_params.push(String::from_str("apiKey"));
        sensitive_params.push(String::from_str("api_key"));
        sensitive_params.push(String::from_str("signature"));
        sensitive_params.push(String::from_str("timestamp"));
        let r = ExchangeHttpClient { base_url, sensitive_params };
        assert(r.sensitive() =~= default_sensitive_params());
        r
    }

    /// The base URL.
    pub fn base_url(&self) -> (r: &str)
        ensures
            r@ == self.base(),
    {
        self.base_url.as_str()
    }

    /// The full URL of `endpoint` with query `params`.
    pub fn build_url(&self, endpoint: &str, params: &str) -> (r: String)
        ensures
            r@ == url_text(self.base(), endpoint@, params@),
    {
        url_with_query(self.base_url.as_str(), endpoint, params)
    }

    fn is_sensitive(&self, key: &Vec<char>) -> (r: bool)
        ensures
            r == self.sensitive().contains(key@),
    {
        let mut i: usize = 0;
        while i < self.sensitive_params.len()
            invariant
                i <= self.sensitive_params@.len(),
                forall|k: int| 0 <= k < i ==> self.sensitive()[k] != key@,
            decreases self.sensitive_params.len() - i,
        {
            let name = str_chars(self.sensitive_params[i].as_str());
            if chars_eq(&name, key) {
                assert(self.sensitive()[i as int] == key@);
                return true;
            }
            i = i + 1;
        }
        false
    }

    fn redact(&self, param: &Vec<char>) -> (r: Vec<char>)
        ensures
            r@ == redact_param(self.sensitive(), param@),
    {
        let mut eq: Vec<char> = Vec::new();
        eq.push('=');
        assert(eq@ =~= seq!['=']);
        match find_chars(param, &eq) {
            Some(i) => {
                let key = slice_chars(param, 0, i);
                assert(key@ =~= param@.take(i as int));
                if self.is_sensitive(&key) {
                    concat_chars(&key, &str_chars("=***"))
                } else {
                    param.clone()
                }
            },
            None => param.clone(),
        }
    }

    /// The URL with the values of sensitive query parameters replaced by
    /// `***`, safe to log.
    pub fn sanitize_url(&self, url: &str) -> (r: String)
        ensures
            r@ == redacted_url(self.sensitive(), url@),
    {
        let u = str_chars(url);
        let mut q: Vec<char> = Vec::new();
        q.push('?');
        assert(q@ =~= seq!['?']);
        match find_chars(&u, &q) {
            Some(i) => {
                assert(i + 1 <= u.len());
                let head = slice_chars(&u, 0, i + 1);
                let query = slice_chars(&u, i + 1, u.len());
                let params = split_chars(&query, '&');
                let ghost redacted = views(params@).map_values(
                    |p: Seq<char>| redact_param(self.sensitive(), p),
                );
                let mut out = head;
                let mut k: usize = 0;
                proof {
                    crate::text::lemma_split_on_nonempty(query@, '&');
                }
                while k < params.len()
                    invariant
                        k <= params@.len(),
                        params@.len() >= 1,
                        redacted == views(params@).map_values(
                            |p: Seq<char>| redact_param(self.sensitive(), p),
                        ),
                        out@ == u@.take(i as int) + seq!['?'] + join(
                            redacted.take(k as int),
                            seq!['&'],
                        ),
                    decreases params.len() - k,
                {
                    let piece = self.redact(&params[k]);
                    proof {
                        assert(views(params@)[k as int] == params@[k as int]@);
                        assert(redacted.take(k + 1).drop_last() =~= redacted.take(k as int));
                    }
                    if k > 0 {
                        out.push('&');
                    }
                    out = concat_chars(&out, &piece);
                    proof {
                        let pre = u@.take(i as int) + seq!['?'];
                        if k == 0 {
                            assert(redacted.take(1) =~= seq![redacted[0]]);
                            assert(out@ =~= pre + join(redacted.take(1), seq!['&']));
                        } else {
                            assert(out@ =~= pre + join(redacted.take(k + 1), seq!['&']));
                        }
                    }
                    k = k + 1;
                }
                proof {
                    assert(redacted.take(params@.len() as int) =~= redacted);
                    assert(head@ =~= u@.take(i as int) + seq!['?']);
                    assert(query@ =~= u@.skip(i + 1));
                }
                chars_to_string(&out)
            },
            None => String::from_str(url),
        }
    }
}

/// The parameters whose values never reach a log are exactly `apiKey`,
/// `api_key`, `signature` and `timestamp`.
pub proof fn law_default_sensitive_params(name: Seq<char>)
    ensures
        default_sensitive_params().contains(name) <==> (name == "apiKey"@ || name == "api_key"@
            || name == "signature"@ || name == "timestamp"@),
{
    let s = default_sensitive_params();
    if s.contains(name) {
        let i = choose|i: int| 0 <= i < s.len() && s[i] == name;
        assert(s[i] == name);
    }
    assert(s.contains(s[0]));
    assert(s.contains(s[1]));
    assert(s.contains(s[2]));
    assert(s.contains(s[3]));
}

} // verus!
