use vstd::prelude::*;
use crate::locale::Language;
use crate::params::LogoutParams;
use crate::text::{concat2, same_text};

verus! {

/// The address for a language chosen by the `Accept-Language` header:
/// `de_target` for German, `en_target` for English, `fallback` without one.
pub open spec fn by_header(lang: Option<Language>, de_target: Seq<char>, en_target: Seq<char>, fallback: Seq<char>) -> Seq<char> {
    match lang {
        Some(Language::German) => de_target,
        Some(Language::English) => en_target,
        None => fallback,
    }
}

/// The address for a language code in the path: `de_target` for `de`,
/// `en_target` for `en` and for any other code.
pub open spec fn by_code(lang: Seq<char>, de_target: Seq<char>, en_target: Seq<char>) -> Seq<char> {
    if lang == "de"@ {
        de_target
    } else {
        en_target
    }
}

/// `/` without a language: the start page of the header's language
/// (English by default).
pub fn root_no_lang(lang: Option<Language>) -> (res: &'static str)
    ensures
        res@ == by_header(lang, "/v2/de"@, "/v2/en"@, "/v2/en"@),
{
    match lang {
        Some(Language::German) => "/v2/de",
        Some(Language::English) => "/v2/en",
        None => "/v2/en",
    }
}

/// `/<lang>`: the start page of that language (English for unknown codes).
pub fn root(lang: &str) -> (res: &'static str)
    ensures
        res@ == by_code(lang@, "/v2/de"@, "/v2/en"@),
{
    if same_text(lang, "de") {
        "/v2/de"
    } else {
        "/v2/en"
    }
}

/// `/v1` without a language: the login page of the header's language, or
/// the English start page without one.
pub fn v1_index_no_lang(lang: Option<Language>) -> (res: &'static str)
    ensures
        res@ == by_header(lang, "/v2/de/login"@, "/v2/en/login"@, "/v2/en"@),
{
    match lang {
        Some(Language::German) => "/v2/de/login",
        Some(Language::English) => "/v2/en/login",
        None => "/v2/en",
    }
}

/// `/v1/<lang>`: the login page of that language (English for unknown codes).
pub fn v1_index(lang: &str) -> (res: &'static str)
    ensures
        res@ == by_code(lang@, "/v2/de/login"@, "/v2/en/login"@),
{
    if same_text(lang, "de") {
        "/v2/de/login"
    } else {
        "/v2/en/login"
    }
}

/// `/v2` without a language: the start page of the header's language
/// (English by default).
pub fn index_no_lang(lang: Option<Language>) -> (res: &'static str)
    ensures
        res@ == by_header(lang, "/v2/de"@, "/v2/en"@, "/v2/en"@),
{
    match lang {
        Some(Language::German) => "/v2/de",
        Some(Language::English) => "/v2/en",
        None => "/v2/en",
    }
}

/// `/v2/login` without a language: the login page of the header's language
/// (English by default).
pub fn login_no_lang(lang: Option<Language>) -> (res: &'static str)
    ensures
        res@ == by_header(lang, "/v2/de/login"@, "/v2/en/login"@, "/v2/en/login"@),
{
    match lang {
        Some(Language::German) => "/v2/de/login",
        Some(Language::English) => "/v2/en/login",
        None => "/v2/en/login",
    }
}

/// `/v2/login/oauth` without a language: the login page of the header's
/// language (English by default).
pub fn login_oauth_no_lang(lang: Option<Language>) -> (res: &'static str)
    ensures
        res@ == by_header(lang, "/v2/de/login"@, "/v2/en/login"@, "/v2/en/login"@),
{
    match lang {
        Some(Language::German) => "/v2/de/login",
        Some(Language::English) => "/v2/en/login",
        None => "/v2/en/login",
    }
}

/// `/v2/<lang>/login/oauth` without a service: the login page of that
/// language (English for unknown codes).
pub fn login_oauth_lang_redir(lang: &str) -> (res: &'static str)
    ensures
        res@ == by_code(lang@, "/v2/de/login"@, "/v2/en/login"@),
{
    if same_text(lang, "de") {
        "/v2/de/login"
    } else {
        "/v2/en/login"
    }
}

/// `/v2/register` without a language: the registration page of the
/// header's language (English by default).
pub fn register_no_lang(lang: Option<Language>) -> (res: &'static str)
    ensures
        res@ == by_header(lang, "/v2/de/register"@, "/v2/en/register"@, "/v2/en/register"@),
{
    match lang {
        Some(Language::German) => "/v2/de/register",
        Some(Language::English) => "/v2/en/register",
        None => "/v2/en/register",
    }
}

/// `/v2/account` without a language: the account page of the header's
/// language (English by default).
pub fn account_no_lang(lang: Option<Language>) -> (res: &'static str)
    ensures
        res@ == by_header(lang, "/v2/de/account"@, "/v2/en/account"@, "/v2/en/account"@),
{
    match lang {
        Some(Language::German) => "/v2/de/account",
        Some(Language::English) => "/v2/en/account",
        None => "/v2/en/account",
    }
}

/// The text of the registration page, which is not offered yet:
/// `[<lang>] Currently not supported`.
pub fn register(lang: &str) -> (res: String)
    ensures
        res@ == "["@ + lang@ + "] Currently not supported"@,
{
    let mut res = concat2("[", lang);
    res.append("] Currently not supported");
    res
}

/// Where a logout leads: the start page of the language in the query.
pub fn logout(params: &LogoutParams) -> (res: String)
    ensures
        res@ == "/v2/"@ + params.hl@,
{
    concat2("/v2/", params.hl.as_str())
}

/// The address `/v2/<lang><suffix>`, which a page for an unknown language
/// reports as not found.
pub fn lang_path(lang: &str, suffix: &str) -> (res: String)
    ensures
        res@ == "/v2/"@ + lang@ + suffix@,
{
    let mut res = concat2("/v2/", lang);
    res.append(suffix);
    res
}

} // verus!
