use vstd::prelude::*;
use vstd::hash_map::StringHashMap;
use crate::locale::Messages;
use crate::primitives::{json_string_entries, parse_json_string_entries};
use crate::text::concat2;

verus! {

/// The localized messages by language code, and the display names of the
/// services by service id.
pub struct AppState {
    pub messages: StringHashMap<Messages>,
    pub services: StringHashMap<String>,
}

/// The map that inserting `pairs` in order into an empty map gives: a later
/// pair with the same key wins.
pub open spec fn map_of_pairs<V>(pairs: Seq<(String, V)>) -> Map<Seq<char>, V>
    decreases pairs.len(),
{
    if pairs.len() == 0 {
        Map::empty()
    } else {
        map_of_pairs(pairs.drop_last()).insert(pairs.last().0@, pairs.last().1)
    }
}

/// The file-name stem of a language's message file.
pub open spec fn locale_stem(lang: Seq<char>) -> Seq<char> {
    if lang == seq!['d', 'e'] {
        seq!['d', 'e', '_', 'D', 'E']
    } else if lang == seq!['e', 'n'] {
        seq!['e', 'n', '_', 'U', 'S']
    } else {
        seq![]
    }
}

/// Builds a map from key-value pairs, inserted in order.
fn map_from_pairs<V>(pairs: Vec<(String, V)>) -> (m: StringHashMap<V>)
    ensures
        m@ == map_of_pairs(pairs@),
{
    let mut m: StringHashMap<V> = StringHashMap::new();
    let mut rest = pairs;
    let ghost mut done: Seq<(String, V)> = Seq::empty();
    let ghost all = rest@;
    // Pairs are taken from the back, so insert them into a reversed list first.
    let mut reversed: Vec<(String, V)> = Vec::new();
    while rest.len() > 0
        invariant
            all == rest@ + reversed@.reverse(),
        decreases rest.len(),
    {
        let p = rest.pop().unwrap();
        proof {
            assert(reversed@.push(p).reverse() =~= seq![p] + reversed@.reverse());
        }
        reversed.push(p);
    }
    assert(rest@ =~= Seq::<(String, V)>::empty());
    assert(all =~= reversed@.reverse());
    while reversed.len() > 0
        invariant
            all == done + reversed@.reverse(),
            m@ == map_of_pairs(done),
        decreases reversed.len(),
    {
        let ghost before = reversed@;
        let p = reversed.pop().unwrap();
        proof {
            assert(before =~= reversed@.push(p));
            assert(before.reverse() =~= seq![p] + reversed@.reverse());
            assert(done.push(p).drop_last() =~= done);
            done = done.push(p);
        }
        m.insert(p.0, p.1);
    }
    assert(done =~= all);
    m
}

/// Why the services table could not be read.
#[derive(Debug, Clone, Copy, PartialEq, Eq, Structural)]
pub enum ServicesError {
    /// There is no services file.
    Missing,
    /// The text is not JSON.
    NotJson,
    /// The JSON is not an object whose values are all strings.
    NotAStringObject,
}

/// The services table read from `data/services.json` when the file's text is
/// at hand, for any text: where the text is JSON but not an object whose
/// values are all strings, the table is refused with `NotAStringObject` and
/// `AppState::get_services` is not called.
pub fn services_from_json(text: &str) -> (res: Result<Vec<(String, String)>, ServicesError>)
    ensures
        match json_string_entries(text@) {
            None => res == Err::<Vec<(String, String)>, ServicesError>(ServicesError::NotJson),
            Some(None) => res == Err::<Vec<(String, String)>, ServicesError>(ServicesError::NotAStringObject),
            Some(Some(e)) => res matches Ok(v) && v@.map_values(|p: (String, String)| (p.0@, p.1@)) == e,
        },
{
    match parse_json_string_entries(text) {
        Some(None) => Err(ServicesError::NotAStringObject),
        _ => AppState::get_services(Some(text)),
    }
}

impl AppState {
    /// The services table: the id and display name of each service, in the
    /// order the JSON object yields them, read from the text of
    /// `data/services.json` (`None` where there is no such file). A text that
    /// is JSON but not an object of strings is left out.
    pub fn get_services(text: Option<&str>) -> (res: Result<Vec<(String, String)>, ServicesError>)
        requires
            text matches Some(t) ==> json_string_entries(t@) != Some(
                None::<Seq<(Seq<char>, Seq<char>)>>,
            ),
        ensures
            match text {
                None => res == Err::<Vec<(String, String)>, ServicesError>(ServicesError::Missing),
                Some(t) => match json_string_entries(t@) {
                    None => res == Err::<Vec<(String, String)>, ServicesError>(ServicesError::NotJson),
                    Some(None) => res == Err::<Vec<(String, String)>, ServicesError>(
                        ServicesError::NotAStringObject,
                    ),
                    Some(Some(e)) => res matches Ok(v) && v@.map_values(
                        |p: (String, String)| (p.0@, p.1@),
                    ) == e,
                },
            },
    {
        match text {
            None => Err(ServicesError::Missing),
            Some(t) => match parse_json_string_entries(t) {
                None => Err(ServicesError::NotJson),
                Some(None) => Err(ServicesError::NotAStringObject),
                Some(Some(entries)) => Ok(entries),
            },
        }
    }

    /// The state built from the messages of each language and the display
    /// name of each service (a later entry for the same key wins).
    pub fn new(messages: Vec<(String, Messages)>, services: Vec<(String, String)>) -> (res: AppState)
        ensures
            res.messages@ == map_of_pairs(messages@),
            res.services@ == map_of_pairs(services@),
    {
        AppState { messages: map_from_pairs(messages), services: map_from_pairs(services) }
    }

    /// The path of the message file of `lang`:
    /// `src/locales/de_DE.yml`, `src/locales/en_US.yml`, or
    /// `src/locales/.yml` for any other code.
    pub fn locale_path(lang: &str) -> (res: String)
        ensures
            res@ == "src/locales/"@ + locale_stem(lang@) + ".yml"@,
    {
        let stem: &str = if crate::text::same_text(lang, "de") {
            "de_DE"
        } else if crate::text::same_text(lang, "en") {
            "en_US"
        } else {
            ""
        };
        proof {
            reveal_strlit("de");
            reveal_strlit("en");
            reveal_strlit("de_DE");
            reveal_strlit("en_US");
            reveal_strlit("");
            assert("de"@ =~= seq!['d', 'e']);
            assert("en"@ =~= seq!['e', 'n']);
            assert("de_DE"@ =~= seq!['d', 'e', '_', 'D', 'E']);
            assert("en_US"@ =~= seq!['e', 'n', '_', 'U', 'S']);
            assert(""@ =~= Seq::<char>::empty());
            assert(stem@ == locale_stem(lang@));
        }
        let mut path = concat2("src/locales/", stem);
        path.append(".yml");
        path
    }
}

} // verus!
