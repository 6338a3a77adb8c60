use vstd::prelude::*;

use crate::api::{json_escape_char, json_escaped, json_string};
use crate::config::{auth_url_spec, Config, ConfigModel};

verus! {

/// The value of one of the low hexadecimal digit characters the escaper
/// writes, and a negative number for every other character.
pub open spec fn lo_hex_val(c: char) -> int {
    if c == '0' {
        0
    } else if c == '1' {
        1
    } else if c == '2' {
        2
    } else if c == '3' {
        3
    } else if c == '4' {
        4
    } else if c == '5' {
        5
    } else if c == '6' {
        6
    } else if c == '7' {
        7
    } else if c == '8' {
        8
    } else if c == '9' {
        9
    } else if c == 'a' {
        10
    } else if c == 'b' {
        11
    } else if c == 'c' {
        12
    } else if c == 'd' {
        13
    } else if c == 'e' {
        14
    } else if c == 'f' {
        15
    } else {
        -1
    }
}

/// Parses the body of a JSON string literal up to and past its closing
/// quote, undoing the escapes this library writes: the parsed text and what
/// follows the closing quote. Control characters must stand in the \u00XX
/// form with two low hexadecimal digits.
pub open spec fn parse_body_spec(s: Seq<char>) -> Option<(Seq<char>, Seq<char>)>
    decreases s.len(),
{
    if s.len() == 0 {
        Option::None
    } else if s[0] == '"' {
        Option::Some((Seq::empty(), s.drop_first()))
    } else if s[0] == '\\' {
        if s.len() < 2 {
            Option::None
        } else if s[1] == '"' || s[1] == '\\' {
            match parse_body_spec(s.skip(2)) {
                Option::Some(p) => Option::Some((seq![s[1]] + p.0, p.1)),
                Option::None => Option::None,
            }
        } else if s[1] == 'u' {
            if s.len() >= 6 && s[2] == '0' && s[3] == '0' && (s[4] == '0' || s[4] == '1')
                && lo_hex_val(s[5]) >= 0 {
                match parse_body_spec(s.skip(6)) {
                    Option::Some(p) => Option::Some(
                        (seq![((16 * lo_hex_val(s[4]) + lo_hex_val(s[5])) as char)] + p.0, p.1),
                    ),
                    Option::None => Option::None,
                }
            } else {
                Option::None
            }
        } else {
            Option::None
        }
    } else {
        match parse_body_spec(s.drop_first()) {
            Option::Some(p) => Option::Some((seq![s[0]] + p.0, p.1)),
            Option::None => Option::None,
        }
    }
}

/// Parses a whole JSON string literal: the opening quote, the body, the
/// closing quote.
pub open spec fn parse_string_spec(s: Seq<char>) -> Option<(Seq<char>, Seq<char>)> {
    if s.len() > 0 && s[0] == '"' {
        parse_body_spec(s.drop_first())
    } else {
        Option::None
    }
}

/// A control character's code point, cast back to a character, is that
/// character again.
proof fn lemma_control_char_round_trip(c: char)
    requires
        (c as u32) < 0x20,
    ensures
        (((c as u32) as int) as char) == c,
{
}

/// Parsing undoes escaping: the body parser, run on an escaped text followed
/// by the closing quote, yields exactly that text and what follows the quote.
pub proof fn lemma_parse_body_escaped(t: Seq<char>, rest: Seq<char>)
    ensures
        parse_body_spec(json_escaped(t) + seq!['"'] + rest) == Option::Some((t, rest)),
    decreases t.len(),
{
    let s = json_escaped(t) + seq!['"'] + rest;
    if t.len() == 0 {
        assert(json_escaped(t) =~= Seq::<char>::empty());
        assert(s =~= seq!['"'] + rest);
        assert(s[0] == '"');
        assert(s.drop_first() =~= rest);
    } else {
        let t0 = t[0];
        let e0 = json_escape_char(t0);
        let tail = t.drop_first();
        lemma_parse_body_escaped(tail, rest);
        assert(json_escaped(t) == e0 + json_escaped(tail));
        let s_tail = json_escaped(tail) + seq!['"'] + rest;
        if t0 == '"' {
            assert(e0 =~= seq!['\\', '"']);
            assert(s[0] == '\\' && s[1] == '"');
            assert(s.skip(2) =~= s_tail);
            assert(seq![s[1]] + tail =~= t);
        } else if t0 == '\\' {
            assert(e0 =~= seq!['\\', '\\']);
            assert(s[0] == '\\' && s[1] == '\\');
            assert(s.skip(2) =~= s_tail);
            assert(seq![s[1]] + tail =~= t);
        } else if (t0 as u32) < 0x20 {
            let v = t0 as u32;
            assert(e0 == seq!['\\', 'u', '0', '0', crate::api::hex_digit(v / 16), crate::api::hex_digit(
                v % 16,
            )]);
            assert(s[0] == '\\' && s[1] == 'u' && s[2] == '0' && s[3] == '0');
            assert(s[4] == crate::api::hex_digit(v / 16));
            assert(s[5] == crate::api::hex_digit(v % 16));
            assert(v / 16 == 0 || v / 16 == 1);
            assert(s[4] == '0' || s[4] == '1');
            assert(lo_hex_val(s[4]) == v / 16);
            assert(lo_hex_val(s[5]) == v % 16);
            assert(16 * lo_hex_val(s[4]) + lo_hex_val(s[5]) == v);
            assert(s.skip(6) =~= s_tail);
            lemma_control_char_round_trip(t0);
            assert((16 * lo_hex_val(s[4]) + lo_hex_val(s[5])) as char == t0);
            assert(seq![(16 * lo_hex_val(s[4]) + lo_hex_val(s[5])) as char] + tail =~= t);
        } else {
            assert(e0 =~= seq![t0]);
            assert(s[0] == t0);
            assert(s[0] != '"' && s[0] != '\\');
            assert(s.drop_first() =~= s_tail);
            assert(seq![s[0]] + tail =~= t);
        }
    }
}

/// Parsing undoes writing: the string parser, run on a written JSON string
/// literal and what follows it, yields exactly the literal's text and the
/// following characters.
pub proof fn lemma_parse_string(t: Seq<char>, rest: Seq<char>)
    ensures
        parse_string_spec(json_string(t) + rest) == Option::Some((t, rest)),
{
    let s = json_string(t) + rest;
    assert(s[0] == '"');
    assert(s.drop_first() =~= json_escaped(t) + seq!['"'] + rest);
    lemma_parse_body_escaped(t, rest);
}

/// An optional text as it is written: a JSON string literal, or null.
pub open spec fn opt_json_string(o: Option<Seq<char>>) -> Seq<char> {
    match o {
        Option::Some(t) => json_string(t),
        Option::None => "null"@,
    }
}

/// An optional boolean as it is written: true, false, or null.
pub open spec fn opt_json_bool(o: Option<bool>) -> Seq<char> {
    match o {
        Option::Some(true) => "true"@,
        Option::Some(false) => "false"@,
        Option::None => "null"@,
    }
}

/// The credential document as the config store writes it: one flat JSON
/// object holding every field under its name, in a fixed order.
pub open spec fn encode_config_spec(m: ConfigModel) -> Seq<char> {
    "{\"consumer_key\":"@ + (json_string(m.consumer_key) + (",\"redirect_url\":"@ + (json_string(
        m.redirect_url,
    ) + (",\"api_endpoint\":"@ + (json_string(m.api_endpoint) + (",\"code\":"@ + (opt_json_string(
        m.code,
    ) + (",\"token\":"@ + (opt_json_string(m.token) + (",\"auth_url\":"@ + (opt_json_string(
        m.auth_url,
    ) + (",\"code_valid\":"@ + (opt_json_bool(m.code_valid) + "}"@)))))))))))))
}

/// Consumes an expected literal from the front, or nothing if it is not
/// there.
pub open spec fn expect_spec(s: Seq<char>, lit: Seq<char>) -> Option<Seq<char>> {
    if s.len() >= lit.len() && s.take(lit.len() as int) == lit {
        Option::Some(s.skip(lit.len() as int))
    } else {
        Option::None
    }
}

/// Parses an optional text: null, or a JSON string literal.
pub open spec fn parse_opt_string_spec(s: Seq<char>) -> Option<(Option<Seq<char>>, Seq<char>)> {
    match expect_spec(s, "null"@) {
        Option::Some(rest) => Option::Some((Option::None, rest)),
        Option::None => match parse_string_spec(s) {
            Option::Some(p) => Option::Some((Option::Some(p.0), p.1)),
            Option::None => Option::None,
        },
    }
}

/// Parses an optional boolean: null, true or false.
pub open spec fn parse_opt_bool_spec(s: Seq<char>) -> Option<(Option<bool>, Seq<char>)> {
    match expect_spec(s, "null"@) {
        Option::Some(rest) => Option::Some((Option::None, rest)),
        Option::None => match expect_spec(s, "true"@) {
            Option::Some(rest) => Option::Some((Option::Some(true), rest)),
            Option::None => match expect_spec(s, "false"@) {
                Option::Some(rest) => Option::Some((Option::Some(false), rest)),
                Option::None => Option::None,
            },
        },
    }
}

/// The front of a written credential document: the three required text
/// fields, each behind its name, and what follows them.
pub open spec fn decode_head_spec(s: Seq<char>) -> Option<(Seq<char>, Seq<char>, Seq<char>, Seq<char>)> {
    match expect_spec(s, "{\"consumer_key\":"@) {
        Option::None => Option::None,
        Option::Some(s1) => match parse_string_spec(s1) {
            Option::None => Option::None,
            Option::Some((consumer_key, s2)) => match expect_spec(s2, ",\"redirect_url\":"@) {
                Option::None => Option::None,
                Option::Some(s3) => match parse_string_spec(s3) {
                    Option::None => Option::None,
                    Option::Some((redirect_url, s4)) => match expect_spec(s4, ",\"api_endpoint\":"@) {
                        Option::None => Option::None,
                        Option::Some(s5) => match parse_string_spec(s5) {
                            Option::None => Option::None,
                            Option::Some((api_endpoint, s6)) => Option::Some(
                                (consumer_key, redirect_url, api_endpoint, s6),
                            ),
                        },
                    },
                },
            },
        },
    }
}

/// The back of a written credential document: the three optional text fields
/// and the optional validity flag, each behind its name, up to the closing
/// brace and the end of the text.
pub open spec fn decode_tail_spec(s: Seq<char>) -> Option<(Option<Seq<char>>, Option<Seq<char>>, Option<Seq<char>>, Option<bool>)> {
    match expect_spec(s, ",\"code\":"@) {
        Option::None => Option::None,
        Option::Some(s7) => match parse_opt_string_spec(s7) {
            Option::None => Option::None,
            Option::Some((code, s8)) => match expect_spec(s8, ",\"token\":"@) {
                Option::None => Option::None,
                Option::Some(s9) => match parse_opt_string_spec(s9) {
                    Option::None => Option::None,
                    Option::Some((token, s10)) => match expect_spec(s10, ",\"auth_url\":"@) {
                        Option::None => Option::None,
                        Option::Some(s11) => match parse_opt_string_spec(s11) {
                            Option::None => Option::None,
                            Option::Some((auth_url, s12)) => match expect_spec(s12, ",\"code_valid\":"@) {
                                Option::None => Option::None,
                                Option::Some(s13) => match parse_opt_bool_spec(s13) {
                                    Option::None => Option::None,
                                    Option::Some((code_valid, s14)) => match expect_spec(s14, "}"@) {
                                        Option::None => Option::None,
                                        Option::Some(s15) => if s15.len() == 0 {
                                            Option::Some((code, token, auth_url, code_valid))
                                        } else {
                                            Option::None
                                        },
                                    },
                                },
                            },
                        },
                    },
                },
            },
        },
    }
}

/// What loading a written credential document yields: the document must have
/// exactly the written shape; a stored authorization URL that does not match
/// the stored request code is dropped, since the URL is derivable and must
/// always match the code.
pub open spec fn decode_config_spec(s: Seq<char>) -> Option<ConfigModel> {
    match decode_head_spec(s) {
        Option::None => Option::None,
        Option::Some((consumer_key, redirect_url, api_endpoint, rest)) => match decode_tail_spec(
            rest,
        ) {
            Option::None => Option::None,
            Option::Some((code, token, auth_url, code_valid)) => Option::Some(
                normalize_config(
                    ConfigModel {
                        consumer_key,
                        redirect_url,
                        api_endpoint,
                        code,
                        token,
                        auth_url,
                        code_valid,
                    },
                ),
            ),
        },
    }
}

/// Drops a stored authorization URL that does not match the stored request
/// code: the URL is derivable and must always match the code.
pub open spec fn normalize_config(m: ConfigModel) -> ConfigModel {
    if m.code is Some && m.auth_url is Some && m.auth_url->0 != auth_url_spec(
        m.code->0,
        m.redirect_url,
    ) {
        ConfigModel { auth_url: Option::None, ..m }
    } else {
        m
    }
}

/// Consuming a literal that is there yields what follows it.
proof fn lemma_expect(lit: Seq<char>, rest: Seq<char>)
    ensures
        expect_spec(lit + rest, lit) == Option::Some(rest),
{
    assert((lit + rest).take(lit.len() as int) =~= lit);
    assert((lit + rest).skip(lit.len() as int) =~= rest);
}

/// Parsing an optional text undoes writing it.
proof fn lemma_parse_opt_string(o: Option<Seq<char>>, rest: Seq<char>)
    ensures
        parse_opt_string_spec(opt_json_string(o) + rest) == Option::Some((o, rest)),
{
    reveal_strlit("null");
    match o {
        Option::None => {
            lemma_expect("null"@, rest);
        },
        Option::Some(t) => {
            let s = json_string(t) + rest;
            assert(s[0] == '"');
            assert("null"@[0] == 'n');
            assert(expect_spec(s, "null"@) is None) by {
                if s.len() >= 4 && s.take(4) == "null"@ {
                    assert(s.take(4)[0] == 'n');
                    assert(s[0] == 'n');
                }
            }
            lemma_parse_string(t, rest);
        },
    }
}

/// Parsing an optional boolean undoes writing it.
proof fn lemma_parse_opt_bool(o: Option<bool>, rest: Seq<char>)
    ensures
        parse_opt_bool_spec(opt_json_bool(o) + rest) == Option::Some((o, rest)),
{
    reveal_strlit("null");
    reveal_strlit("true");
    reveal_strlit("false");
    match o {
        Option::None => {
            lemma_expect("null"@, rest);
        },
        Option::Some(b) => {
            let s = opt_json_bool(o) + rest;
            if b {
                assert(s[0] == "true"@[0]);
                assert(expect_spec(s, "null"@) is None) by {
                    if s.len() >= "null"@.len() && s.take("null"@.len() as int) == "null"@ {
                        assert(s.take("null"@.len() as int)[0] == s[0]);
                    }
                }
                lemma_expect("true"@, rest);
            } else {
                assert(s[0] == "false"@[0]);
                assert(expect_spec(s, "null"@) is None) by {
                    if s.len() >= "null"@.len() && s.take("null"@.len() as int) == "null"@ {
                        assert(s.take("null"@.len() as int)[0] == s[0]);
                    }
                }
                assert(expect_spec(s, "true"@) is None) by {
                    if s.len() >= "true"@.len() && s.take("true"@.len() as int) == "true"@ {
                        assert(s.take("true"@.len() as int)[0] == s[0]);
                    }
                }
                lemma_expect("false"@, rest);
            }
        },
    }
}

/// The written front of a document parses back to its three text fields.
proof fn lemma_decode_head(ck: Seq<char>, ru: Seq<char>, ae: Seq<char>, rest: Seq<char>)
    ensures
        decode_head_spec(
            "{\"consumer_key\":"@ + (json_string(ck) + (",\"redirect_url\":"@ + (json_string(ru)
                + (",\"api_endpoint\":"@ + (json_string(ae) + rest))))),
        ) == Option::Some((ck, ru, ae, rest)),
{
    let s = "{\"consumer_key\":"@ + (json_string(ck) + (",\"redirect_url\":"@ + (json_string(ru)
        + (",\"api_endpoint\":"@ + (json_string(ae) + rest)))));
    let r1 = json_string(ck) + (",\"redirect_url\":"@ + (json_string(ru) + (",\"api_endpoint\":"@
        + (json_string(ae) + rest))));
    lemma_expect("{\"consumer_key\":"@, r1);
    let r2 = ",\"redirect_url\":"@ + (json_string(ru) + (",\"api_endpoint\":"@ + (json_string(ae)
        + rest)));
    lemma_parse_string(ck, r2);
    assert(r1 =~= json_string(ck) + r2);
    let r3 = json_string(ru) + (",\"api_endpoint\":"@ + (json_string(ae) + rest));
    lemma_expect(",\"redirect_url\":"@, r3);
    let r4 = ",\"api_endpoint\":"@ + (json_string(ae) + rest);
    lemma_parse_string(ru, r4);
    assert(r3 =~= json_string(ru) + r4);
    let r5 = json_string(ae) + rest;
    lemma_expect(",\"api_endpoint\":"@, r5);
    lemma_parse_string(ae, rest);
}

/// The written back of a document parses back to its four optional fields.
proof fn lemma_decode_tail(
    code: Option<Seq<char>>,
    token: Option<Seq<char>>,
    auth_url: Option<Seq<char>>,
    code_valid: Option<bool>,
)
    ensures
        decode_tail_spec(
            ",\"code\":"@ + (opt_json_string(code) + (",\"token\":"@ + (opt_json_string(token)
                + (",\"auth_url\":"@ + (opt_json_string(auth_url) + (",\"code_valid\":"@
                + (opt_json_bool(code_valid) + "}"@))))))),
        ) == Option::Some((code, token, auth_url, code_valid)),
{
    let r7 = opt_json_string(code) + (",\"token\":"@ + (opt_json_string(token) + (",\"auth_url\":"@
        + (opt_json_string(auth_url) + (",\"code_valid\":"@ + (opt_json_bool(code_valid)
        + "}"@))))));
    lemma_expect(",\"code\":"@, r7);
    let r8 = ",\"token\":"@ + (opt_json_string(token) + (",\"auth_url\":"@ + (opt_json_string(
        auth_url,
    ) + (",\"code_valid\":"@ + (opt_json_bool(code_valid) + "}"@)))));
    lemma_parse_opt_string(code, r8);
    assert(r7 =~= opt_json_string(code) + r8);
    let r9 = opt_json_string(token) + (",\"auth_url\":"@ + (opt_json_string(auth_url)
        + (",\"code_valid\":"@ + (opt_json_bool(code_valid) + "}"@))));
    lemma_expect(",\"token\":"@, r9);
    let r10 = ",\"auth_url\":"@ + (opt_json_string(auth_url) + (",\"code_valid\":"@
        + (opt_json_bool(code_valid) + "}"@)));
    lemma_parse_opt_string(token, r10);
    assert(r9 =~= opt_json_string(token) + r10);
    let r11 = opt_json_string(auth_url) + (",\"code_valid\":"@ + (opt_json_bool(code_valid)
        + "}"@));
    lemma_expect(",\"auth_url\":"@, r11);
    let r12 = ",\"code_valid\":"@ + (opt_json_bool(code_valid) + "}"@);
    lemma_parse_opt_string(auth_url, r12);
    assert(r11 =~= opt_json_string(auth_url) + r12);
    let r13 = opt_json_bool(code_valid) + "}"@;
    lemma_expect(",\"code_valid\":"@, r13);
    lemma_parse_opt_bool(code_valid, "}"@);
    lemma_expect("}"@, Seq::<char>::empty());
    assert("}"@ =~= "}"@ + Seq::<char>::empty());
}

/// An optional text as it is written: a JSON string literal, or null.
fn opt_json_string_of(o: &Option<String>) -> (r: String)
    ensures
        r@ == opt_json_string(o.deep_view()),
{
    let mut r = String::new();
    match o {
        Option::Some(t) => crate::api::append_json_string(&mut r, t.as_str()),
        Option::None => r.append("null"),
    }
    r
}

/// An optional boolean as it is written: true, false, or null.
fn opt_json_bool_of(o: &Option<bool>) -> (r: String)
    ensures
        r@ == opt_json_bool(*o),
{
    let mut r = String::new();
    match o {
        Option::Some(true) => r.append("true"),
        Option::Some(false) => r.append("false"),
        Option::None => r.append("null"),
    }
    r
}

/// A JSON string literal holding the given text.
fn json_string_of(data: &str) -> (r: String)
    ensures
        r@ == crate::api::json_string(data@),
{
    let mut r = String::new();
    crate::api::append_json_string(&mut r, data);
    r
}

/// Writes a credential document as the one flat JSON object the config store
/// persists. The text is assembled back to front, one field at a time.
pub fn encode_config(config: &Config) -> (r: String)
    ensures
        r@ == encode_config_spec(config@),
{
    let mut acc = String::new();
    acc.append("}");
    acc = opt_json_bool_of(&config.code_valid).concat(acc.as_str());
    let mut lit = String::new();
    lit.append(",\"code_valid\":");
    acc = lit.concat(acc.as_str());
    acc = opt_json_string_of(&config.auth_url).concat(acc.as_str());
    let mut lit = String::new();
    lit.append(",\"auth_url\":");
    acc = lit.concat(acc.as_str());
    acc = opt_json_string_of(&config.token).concat(acc.as_str());
    let mut lit = String::new();
    lit.append(",\"token\":");
    acc = lit.concat(acc.as_str());
    acc = opt_json_string_of(&config.code).concat(acc.as_str());
    let mut lit = String::new();
    lit.append(",\"code\":");
    acc = lit.concat(acc.as_str());
    acc = json_string_of(config.api_endpoint.as_str()).concat(acc.as_str());
    let mut lit = String::new();
    lit.append(",\"api_endpoint\":");
    acc = lit.concat(acc.as_str());
    acc = json_string_of(config.redirect_url.as_str()).concat(acc.as_str());
    let mut lit = String::new();
    lit.append(",\"redirect_url\":");
    acc = lit.concat(acc.as_str());
    acc = json_string_of(config.consumer_key.as_str()).concat(acc.as_str());
    let mut lit = String::new();
    lit.append("{\"consumer_key\":");
    acc = lit.concat(acc.as_str());
    proof {
        assert(acc@ =~= encode_config_spec(config@));
    }
    acc
}

/// The value of a low hexadecimal digit character, if it is one.
fn hex_val(c: char) -> (r: Option<u8>)
    ensures
        r matches Some(v) ==> v == lo_hex_val(c) && v < 16,
        r is None ==> lo_hex_val(c) < 0,
{
    if c == '0' {
        Option::Some(0)
    } else if c == '1' {
        Option::Some(1)
    } else if c == '2' {
        Option::Some(2)
    } else if c == '3' {
        Option::Some(3)
    } else if c == '4' {
        Option::Some(4)
    } else if c == '5' {
        Option::Some(5)
    } else if c == '6' {
        Option::Some(6)
    } else if c == '7' {
        Option::Some(7)
    } else if c == '8' {
        Option::Some(8)
    } else if c == '9' {
        Option::Some(9)
    } else if c == 'a' {
        Option::Some(10)
    } else if c == 'b' {
        Option::Some(11)
    } else if c == 'c' {
        Option::Some(12)
    } else if c == 'd' {
        Option::Some(13)
    } else if c == 'e' {
        Option::Some(14)
    } else if c == 'f' {
        Option::Some(15)
    } else {
        Option::None
    }
}

/// The control character with the given code point.
fn control_char(v: u8) -> (c: char)
    requires
        v < 32,
    ensures
        c == ((v as int) as char),
{
    if v == 0 {
        '\u{00}'
    } else if v == 1 {
        '\u{01}'
    } else if v == 2 {
        '\u{02}'
    } else if v == 3 {
        '\u{03}'
    } else if v == 4 {
        '\u{04}'
    } else if v == 5 {
        '\u{05}'
    } else if v == 6 {
        '\u{06}'
    } else if v == 7 {
        '\u{07}'
    } else if v == 8 {
        '\u{08}'
    } else if v == 9 {
        '\u{09}'
    } else if v == 10 {
        '\u{0a}'
    } else if v == 11 {
        '\u{0b}'
    } else if v == 12 {
        '\u{0c}'
    } else if v == 13 {
        '\u{0d}'
    } else if v == 14 {
        '\u{0e}'
    } else if v == 15 {
        '\u{0f}'
    } else if v == 16 {
        '\u{10}'
    } else if v == 17 {
        '\u{11}'
    } else if v == 18 {
        '\u{12}'
    } else if v == 19 {
        '\u{13}'
    } else if v == 20 {
        '\u{14}'
    } else if v == 21 {
        '\u{15}'
    } else if v == 22 {
        '\u{16}'
    } else if v == 23 {
        '\u{17}'
    } else if v == 24 {
        '\u{18}'
    } else if v == 25 {
        '\u{19}'
    } else if v == 26 {
        '\u{1a}'
    } else if v == 27 {
        '\u{1b}'
    } else if v == 28 {
        '\u{1c}'
    } else if v == 29 {
        '\u{1d}'
    } else if v == 30 {
        '\u{1e}'
    } else {
        '\u{1f}'
    }
}

/// Consumes the expected literal at position `i`, yielding the position past
/// it.
fn expect_lit(s: &str, i: usize, lit: &str) -> (r: Option<usize>)
    requires
        i <= s@.len(),
    ensures
        r matches Some(j) ==> i <= j <= s@.len() && expect_spec(s@.skip(i as int), lit@)
            == Option::Some(s@.skip(j as int)),
        r is None ==> expect_spec(s@.skip(i as int), lit@) is None,
{
    let n = s.unicode_len();
    let m = lit.unicode_len();
    if m > n - i {
        return Option::None;
    }
    let mut k: usize = 0;
    while k < m
        invariant
            i + m <= n,
            n == s@.len(),
            m == lit@.len(),
            k <= m,
            forall|q: int| 0 <= q < k ==> s@[i + q] == lit@[q],
        decreases m - k,
    {
        let a = s.get_char(i + k);
        let b = lit.get_char(k);
        if a != b {
            proof {
                assert(s@.skip(i as int).take(m as int)[k as int] == s@[i + k]);
            }
            return Option::None;
        }
        k = k + 1;
    }
    proof {
        assert(s@.skip(i as int).take(m as int) =~= lit@);
        assert(s@.skip(i as int).skip(m as int) =~= s@.skip(i + m));
    }
    Option::Some(i + m)
}

/// Parses the body of a JSON string literal from position `i` up to and past
/// its closing quote.
fn parse_body(s: &str, i: usize) -> (r: Option<(String, usize)>)
    requires
        i <= s@.len(),
    ensures
        r matches Some(p) ==> i < p.1 <= s@.len() && parse_body_spec(s@.skip(i as int))
            == Option::Some((p.0@, s@.skip(p.1 as int))),
        r is None ==> parse_body_spec(s@.skip(i as int)) is None,
    decreases s@.len() - i,
{
    let n = s.unicode_len();
    if i >= n {
        return Option::None;
    }
    let ghost su = s@.skip(i as int);
    proof {
        assert(su[0] == s@[i as int]);
    }
    let c = s.get_char(i);
    if c == '"' {
        proof {
            assert(su.drop_first() =~= s@.skip(i + 1));
        }
        return Option::Some((String::new(), i + 1));
    }
    if c == '\\' {
        if i + 1 >= n {
            return Option::None;
        }
        proof {
            assert(su[1] == s@[i + 1]);
        }
        let c2 = s.get_char(i + 1);
        if c2 == '"' || c2 == '\\' {
            proof {
                assert(su.skip(2) =~= s@.skip(i + 2));
            }
            match parse_body(s, i + 2) {
                Option::Some((t, j)) => {
                    let mut out = String::new();
                    crate::api::push_char(&mut out, c2);
                    out.append(t.as_str());
                    proof {
                        assert(out@ =~= seq![su[1]] + t@);
                    }
                    Option::Some((out, j))
                },
                Option::None => Option::None,
            }
        } else if c2 == 'u' {
            if n - i < 6 {
                return Option::None;
            }
            proof {
                assert(su[2] == s@[i + 2]);
                assert(su[3] == s@[i + 3]);
                assert(su[4] == s@[i + 4]);
                assert(su[5] == s@[i + 5]);
            }
            let c3 = s.get_char(i + 2);
            let c4 = s.get_char(i + 3);
            let h1 = s.get_char(i + 4);
            let h2 = s.get_char(i + 5);
            if c3 == '0' && c4 == '0' && (h1 == '0' || h1 == '1') {
                match hex_val(h2) {
                    Option::Some(lo) => {
                        let hi: u8 = if h1 == '1' {
                            1
                        } else {
                            0
                        };
                        let v: u8 = 16 * hi + lo;
                        let ch = control_char(v);
                        proof {
                            assert(lo_hex_val(su[4]) == hi as int);
                            assert(v as int == 16 * lo_hex_val(su[4]) + lo_hex_val(su[5]));
                            assert(su.skip(6) =~= s@.skip(i + 6));
                        }
                        match parse_body(s, i + 6) {
                            Option::Some((t, j)) => {
                                let mut out = String::new();
                                crate::api::push_char(&mut out, ch);
                                out.append(t.as_str());
                                proof {
                                    assert(out@ =~= seq![
                                        ((16 * lo_hex_val(su[4]) + lo_hex_val(su[5])) as char),
                                    ] + t@);
                                }
                                Option::Some((out, j))
                            },
                            Option::None => Option::None,
                        }
                    },
                    Option::None => Option::None,
                }
            } else {
                Option::None
            }
        } else {
            Option::None
        }
    } else {
        proof {
            assert(su.drop_first() =~= s@.skip(i + 1));
        }
        match parse_body(s, i + 1) {
            Option::Some((t, j)) => {
                let mut out = String::new();
                crate::api::push_char(&mut out, c);
                out.append(t.as_str());
                proof {
                    assert(out@ =~= seq![su[0]] + t@);
                }
                Option::Some((out, j))
            },
            Option::None => Option::None,
        }
    }
}

/// Parses a whole JSON string literal at position `i`.
fn parse_string(s: &str, i: usize) -> (r: Option<(String, usize)>)
    requires
        i <= s@.len(),
    ensures
        r matches Some(p) ==> i < p.1 <= s@.len() && parse_string_spec(s@.skip(i as int))
            == Option::Some((p.0@, s@.skip(p.1 as int))),
        r is None ==> parse_string_spec(s@.skip(i as int)) is None,
{
    let n = s.unicode_len();
    if i >= n {
        return Option::None;
    }
    proof {
        assert(s@.skip(i as int)[0] == s@[i as int]);
    }
    let c = s.get_char(i);
    if c != '"' {
        return Option::None;
    }
    proof {
        assert(s@.skip(i as int).drop_first() =~= s@.skip(i + 1));
    }
    parse_body(s, i + 1)
}

/// Parses an optional text at position `i`: null, or a JSON string literal.
fn parse_opt_string(s: &str, i: usize) -> (r: Option<(Option<String>, usize)>)
    requires
        i <= s@.len(),
    ensures
        r matches Some(p) ==> i <= p.1 <= s@.len() && parse_opt_string_spec(s@.skip(i as int))
            == Option::Some((p.0.deep_view(), s@.skip(p.1 as int))),
        r is None ==> parse_opt_string_spec(s@.skip(i as int)) is None,
{
    match expect_lit(s, i, "null") {
        Option::Some(j) => Option::Some((Option::None, j)),
        Option::None => match parse_string(s, i) {
            Option::Some((t, j)) => Option::Some((Option::Some(t), j)),
            Option::None => Option::None,
        },
    }
}

/// Parses an optional boolean at position `i`: null, true or false.
fn parse_opt_bool(s: &str, i: usize) -> (r: Option<(Option<bool>, usize)>)
    requires
        i <= s@.len(),
    ensures
        r matches Some(p) ==> i <= p.1 <= s@.len() && parse_opt_bool_spec(s@.skip(i as int))
            == Option::Some((p.0, s@.skip(p.1 as int))),
        r is None ==> parse_opt_bool_spec(s@.skip(i as int)) is None,
{
    match expect_lit(s, i, "null") {
        Option::Some(j) => Option::Some((Option::None, j)),
        Option::None => match expect_lit(s, i, "true") {
            Option::Some(j) => Option::Some((Option::Some(true), j)),
            Option::None => match expect_lit(s, i, "false") {
                Option::Some(j) => Option::Some((Option::Some(false), j)),
                Option::None => Option::None,
            },
        },
    }
}

/// Loads a credential document from the flat JSON object the config store
/// persists, checking the exact written shape; a stored authorization URL
/// that does not match the stored request code is dropped as stale.
pub fn decode_config(s: &str) -> (r: Option<Config>)
    ensures
        r matches Some(c) ==> decode_config_spec(s@) == Option::Some(c@),
        r is None ==> decode_config_spec(s@) is None,
{
    proof {
        assert(s@.skip(0) =~= s@);
    }
    let n = s.unicode_len();
    let j = match expect_lit(s, 0, "{\"consumer_key\":") {
        Option::Some(j) => j,
        Option::None => {
            return Option::None;
        },
    };
    let (consumer_key, j) = match parse_string(s, j) {
        Option::Some(p) => p,
        Option::None => {
            return Option::None;
        },
    };
    let j = match expect_lit(s, j, ",\"redirect_url\":") {
        Option::Some(j) => j,
        Option::None => {
            return Option::None;
        },
    };
    let (redirect_url, j) = match parse_string(s, j) {
        Option::Some(p) => p,
        Option::None => {
            return Option::None;
        },
    };
    let j = match expect_lit(s, j, ",\"api_endpoint\":") {
        Option::Some(j) => j,
        Option::None => {
            return Option::None;
        },
    };
    let (api_endpoint, j) = match parse_string(s, j) {
        Option::Some(p) => p,
        Option::None => {
            return Option::None;
        },
    };
    let j = match expect_lit(s, j, ",\"code\":") {
        Option::Some(j) => j,
        Option::None => {
            return Option::None;
        },
    };
    let (code, j) = match parse_opt_string(s, j) {
        Option::Some(p) => p,
        Option::None => {
            return Option::None;
        },
    };
    let j = match expect_lit(s, j, ",\"token\":") {
        Option::Some(j) => j,
        Option::None => {
            return Option::None;
        },
    };
    let (token, j) = match parse_opt_string(s, j) {
        Option::Some(p) => p,
        Option::None => {
            return Option::None;
        },
    };
    let j = match expect_lit(s, j, ",\"auth_url\":") {
        Option::Some(j) => j,
        Option::None => {
            return Option::None;
        },
    };
    let (auth_url, j) = match parse_opt_string(s, j) {
        Option::Some(p) => p,
        Option::None => {
            return Option::None;
        },
    };
    let j = match expect_lit(s, j, ",\"code_valid\":") {
        Option::Some(j) => j,
        Option::None => {
            return Option::None;
        },
    };
    let (code_valid, j) = match parse_opt_bool(s, j) {
        Option::Some(p) => p,
        Option::None => {
            return Option::None;
        },
    };
    let j = match expect_lit(s, j, "}") {
        Option::Some(j) => j,
        Option::None => {
            return Option::None;
        },
    };
    if j != n {
        return Option::None;
    }
    let mut auth_url = auth_url;
    if let (Option::Some(c), Option::Some(u)) = (&code, &auth_url) {
        let derived = crate::config::build_auth_url(c, &redirect_url);
        if !(*u == derived) {
            auth_url = Option::None;
        }
    }
    let config = Config {
        consumer_key,
        redirect_url,
        api_endpoint,
        code,
        token,
        auth_url,
        code_valid,
    };
    proof {
        assert(decode_config_spec(s@) matches Some(m) && m == config@);
    }
    Option::Some(config)
}

/// Loading the text a credential document was written as yields that
/// document again, bit for bit: the same consumer key, redirect URL, API
/// endpoint, code, token, authorization URL and validity flag.
pub proof fn lemma_config_text_round_trip(m: ConfigModel)
    requires
        m.wf(),
    ensures
        decode_config_spec(encode_config_spec(m)) == Option::Some(m),
{
    let tail = ",\"code\":"@ + (opt_json_string(m.code) + (",\"token\":"@ + (opt_json_string(
        m.token,
    ) + (",\"auth_url\":"@ + (opt_json_string(m.auth_url) + (",\"code_valid\":"@ + (opt_json_bool(
        m.code_valid,
    ) + "}"@)))))));
    lemma_decode_head(m.consumer_key, m.redirect_url, m.api_endpoint, tail);
    lemma_decode_tail(m.code, m.token, m.auth_url, m.code_valid);
    assert(normalize_config(m) == m);
}

} // verus!
