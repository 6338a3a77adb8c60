use vstd::prelude::*;

use crate::config::Config;

verus! {

/// One saved bookmark entry as the remote service represents it.
#[derive(Clone, Debug)]
pub struct LinkItemResponse {
    pub item_id: String,
    pub resolved_id: String,
    pub given_url: String,
    pub given_title: String,
    pub favorite: String,
    pub status: String,
    pub time_added: String,
    pub time_updated: String,
    pub time_read: String,
    pub time_favorited: String,
    pub sort_id: u16,
    pub resolved_title: Option<String>,
    pub resolved_url: Option<String>,
    pub excerpt: Option<String>,
    pub is_article: Option<String>,
    pub is_index: Option<String>,
    pub has_video: Option<String>,
    pub has_image: Option<String>,
    pub word_count: Option<String>,
    pub lang: Option<String>,
    pub listen_duration_estimate: u16,
}

/// The decoded body of the link-listing endpoint: a status and the saved
/// links, already flattened out of their remote keying by item identifier.
#[derive(Debug)]
pub struct LinkListResponse {
    pub status: u8,
    pub list: Vec<LinkItemResponse>,
}

/// The hexadecimal digit for one value below sixteen.
pub open spec fn hex_digit(v: u32) -> char {
    if v == 0 {
        '0'
    } else if v == 1 {
        '1'
    } else if v == 2 {
        '2'
    } else if v == 3 {
        '3'
    } else if v == 4 {
        '4'
    } else if v == 5 {
        '5'
    } else if v == 6 {
        '6'
    } else if v == 7 {
        '7'
    } else if v == 8 {
        '8'
    } else if v == 9 {
        '9'
    } else if v == 10 {
        'a'
    } else if v == 11 {
        'b'
    } else if v == 12 {
        'c'
    } else if v == 13 {
        'd'
    } else if v == 14 {
        'e'
    } else {
        'f'
    }
}

/// How one character is written inside a JSON string literal: quotes and
/// backslashes are escaped, control characters take the \u00XX form, and
/// every other character stands as itself.
pub open spec fn json_escape_char(c: char) -> Seq<char> {
    if c == '"' {
        seq!['\\', '"']
    } else if c == '\\' {
        seq!['\\', '\\']
    } else if (c as u32) < 0x20 {
        seq!['\\', 'u', '0', '0', hex_digit((c as u32) / 16), hex_digit((c as u32) % 16)]
    } else {
        seq![c]
    }
}

/// A character sequence written as the body of a JSON string literal.
pub open spec fn json_escaped(s: Seq<char>) -> Seq<char>
    decreases s.len(),
{
    if s.len() == 0 {
        Seq::empty()
    } else {
        json_escape_char(s[0]) + json_escaped(s.drop_first())
    }
}

pub proof fn lemma_json_escaped_concat(a: Seq<char>, b: Seq<char>)
    ensures
        json_escaped(a + b) == json_escaped(a) + json_escaped(b),
    decreases a.len(),
{
    if a.len() == 0 {
        assert(a + b =~= b);
        assert(json_escaped(a) + json_escaped(b) =~= json_escaped(b));
    } else {
        assert((a + b).len() > 0);
        assert((a + b)[0] == a[0]);
        assert((a + b).drop_first() =~= a.drop_first() + b);
        lemma_json_escaped_concat(a.drop_first(), b);
        assert(json_escaped(a + b) =~= json_escaped(a) + json_escaped(b));
    }
}

/// Relies on String::push: appends the one character to the end of the string.
#[verifier::external_body]
pub(crate) fn push_char(s: &mut String, c: char)
    ensures
        final(s)@ == old(s)@.push(c),
{
    s.push(c);
}

/// The character for one hexadecimal digit value.
fn hex_char(v: u32) -> (h: char)
    requires
        v < 16,
    ensures
        h == hex_digit(v),
{
    if v == 0 {
        '0'
    } else if v == 1 {
        '1'
    } else if v == 2 {
        '2'
    } else if v == 3 {
        '3'
    } else if v == 4 {
        '4'
    } else if v == 5 {
        '5'
    } else if v == 6 {
        '6'
    } else if v == 7 {
        '7'
    } else if v == 8 {
        '8'
    } else if v == 9 {
        '9'
    } else if v == 10 {
        'a'
    } else if v == 11 {
        'b'
    } else if v == 12 {
        'c'
    } else if v == 13 {
        'd'
    } else if v == 14 {
        'e'
    } else {
        'f'
    }
}

/// Escapes a string for use as the body of a JSON string literal.
pub fn json_escape(s: &str) -> (r: String)
    ensures
        r@ == json_escaped(s@),
{
    let n = s.unicode_len();
    let mut r = String::new();
    let mut i: usize = 0;
    while i < n
        invariant
            n == s@.len(),
            i <= n,
            r@ == json_escaped(s@.take(i as int)),
        decreases n - i,
    {
        let c = s.get_char(i);
        proof {
            assert(s@.take(i + 1) =~= s@.take(i as int) + seq![s@[i as int]]);
            lemma_json_escaped_concat(s@.take(i as int), seq![s@[i as int]]);
            assert(seq![s@[i as int]].drop_first() =~= Seq::<char>::empty());
            assert(json_escaped(Seq::<char>::empty()) =~= Seq::<char>::empty());
            assert(seq![s@[i as int]][0] == s@[i as int]);
            assert(json_escaped(seq![s@[i as int]]) == json_escape_char(s@[i as int])
                + json_escaped(seq![s@[i as int]].drop_first()));
            assert(json_escaped(seq![s@[i as int]]) =~= json_escape_char(s@[i as int]));
        }
        if c == '"' {
            r.append("\\\"");
            proof {
                reveal_strlit("\\\"");
                assert("\\\""@ =~= seq!['\\', '"']);
                assert(r@ =~= json_escaped(s@.take(i + 1)));
            }
        } else if c == '\\' {
            r.append("\\\\");
            proof {
                reveal_strlit("\\\\");
                assert("\\\\"@ =~= seq!['\\', '\\']);
                assert(r@ =~= json_escaped(s@.take(i + 1)));
            }
        } else if (c as u32) < 0x20 {
            r.append("\\u00");
            let hi = hex_char((c as u32) / 16);
            let lo = hex_char((c as u32) % 16);
            push_char(&mut r, hi);
            push_char(&mut r, lo);
            proof {
                reveal_strlit("\\u00");
                assert("\\u00"@ =~= seq!['\\', 'u', '0', '0']);
                assert(r@ =~= json_escaped(s@.take(i + 1)));
            }
        } else {
            push_char(&mut r, c);
            proof {
                assert(r@ =~= json_escaped(s@.take(i + 1)));
            }
        }
        i = i + 1;
    }
    proof {
        assert(s@.take(n as int) =~= s@);
    }
    r
}

/// A JSON string literal holding the given characters.
pub open spec fn json_string(s: Seq<char>) -> Seq<char> {
    seq!['"'] + json_escaped(s) + seq!['"']
}

/// The body sent to the code-issuance endpoint.
pub open spec fn request_code_payload(consumer_key: Seq<char>, redirect_url: Seq<char>) -> Seq<
    char,
> {
    "{\"consumer_key\":"@ + json_string(consumer_key) + ",\"redirect_uri\":"@ + json_string(
        redirect_url,
    ) + "}"@
}

/// The body sent to the token-exchange endpoint.
pub open spec fn request_token_payload(consumer_key: Seq<char>, code: Seq<char>) -> Seq<char> {
    "{\"consumer_key\":"@ + json_string(consumer_key) + ",\"code\":"@ + json_string(code) + "}"@
}

/// The body sent to the link-listing endpoint.
pub open spec fn link_list_payload(consumer_key: Seq<char>, token: Seq<char>) -> Seq<char> {
    "{\"consumer_key\":"@ + json_string(consumer_key) + ",\"access_token\":"@ + json_string(token)
        + "}"@
}

/// Appends a JSON string literal holding `data` to `out`.
pub(crate) fn append_json_string(out: &mut String, data: &str)
    ensures
        final(out)@ == old(out)@ + json_string(data@),
{
    out.append("\"");
    let escaped = json_escape(data);
    out.append(escaped.as_str());
    out.append("\"");
    proof {
        reveal_strlit("\"");
        assert("\""@ =~= seq!['"']);
        assert(final(out)@ =~= old(out)@ + json_string(data@));
    }
}

/// The network target and body of the code-issuance request.
pub fn request_code_request(config: &Config) -> (r: (String, String))
    ensures
        r.0@ == config@.api_endpoint + "/oauth/request"@,
        r.1@ == request_code_payload(config@.consumer_key, config@.redirect_url),
{
    let mut url = String::new();
    url.append(config.api_endpoint.as_str());
    url.append("/oauth/request");
    let mut payload = String::new();
    payload.append("{\"consumer_key\":");
    append_json_string(&mut payload, config.consumer_key.as_str());
    payload.append(",\"redirect_uri\":");
    append_json_string(&mut payload, config.redirect_url.as_str());
    payload.append("}");
    proof {
        assert(payload@ =~= request_code_payload(config@.consumer_key, config@.redirect_url));
    }
    (url, payload)
}

/// The network target and body of the token-exchange request.
pub fn request_token_request(config: &Config) -> (r: (String, String))
    requires
        config.code is Some,
    ensures
        r.0@ == config@.api_endpoint + "/oauth/authorize"@,
        r.1@ == request_token_payload(config@.consumer_key, config@.code->0),
{
    let mut url = String::new();
    url.append(config.api_endpoint.as_str());
    url.append("/oauth/authorize");
    let mut payload = String::new();
    payload.append("{\"consumer_key\":");
    append_json_string(&mut payload, config.consumer_key.as_str());
    payload.append(",\"code\":");
    match &config.code {
        Option::Some(code) => append_json_string(&mut payload, code.as_str()),
        Option::None => {},
    }
    payload.append("}");
    proof {
        assert(payload@ =~= request_token_payload(config@.consumer_key, config@.code->0));
    }
    (url, payload)
}

/// The network target and body of the link-listing request.
pub fn link_list_request(config: &Config) -> (r: (String, String))
    requires
        config.token is Some,
    ensures
        r.0@ == config@.api_endpoint + "/get"@,
        r.1@ == link_list_payload(config@.consumer_key, config@.token->0),
{
    let mut url = String::new();
    url.append(config.api_endpoint.as_str());
    url.append("/get");
    let mut payload = String::new();
    payload.append("{\"consumer_key\":");
    append_json_string(&mut payload, config.consumer_key.as_str());
    payload.append(",\"access_token\":");
    match &config.token {
        Option::Some(token) => append_json_string(&mut payload, token.as_str()),
        Option::None => {},
    }
    payload.append("}");
    proof {
        assert(payload@ =~= link_list_payload(config@.consumer_key, config@.token->0));
    }
    (url, payload)
}

} // verus!
