//! The texts of the game in one language, by key.

use vstd::prelude::*;
use vstd::hash_map::StringHashMap;
use vstd::string::StringExecFns;
use std::collections::BTreeMap;

verus! {

/// The members of a JSON document that is a single object whose values are all
/// strings, each as its key and its value; `None` for any other text.
pub uninterp spec fn json_string_members(document: Seq<char>) -> Option<Seq<(Seq<char>, Seq<char>)>>;

/// Keys and values as plain text.
pub open spec fn members_text(members: Seq<(String, String)>) -> Seq<(Seq<char>, Seq<char>)> {
    Seq::new(members.len(), |i: int| (members[i].0@, members[i].1@))
}

/// Parses `document` with `serde_json::from_str` as a map from strings to strings, and
/// hands out the map's entries. The contract claims only that the outcome is the one
/// that `json_string_members` names for this text: `None` stands for a text that
/// `serde_json` rejects.
#[verifier::external_body]
fn parse_string_members(document: &str) -> (members: Option<Vec<(String, String)>>)
    ensures
        match members {
            Some(found) => json_string_members(document@) == Some(members_text(found@)),
            None => json_string_members(document@) is None,
        },
{
    match serde_json::from_str::<BTreeMap<String, String>>(document) {
        Ok(parsed) => Some(parsed.into_iter().collect()),
        Err(_) => None,
    }
}

/// The table that holds each of `members`, a later one in place of an earlier one
/// with the same key.
pub open spec fn table_of(members: Seq<(Seq<char>, Seq<char>)>) -> Map<Seq<char>, Seq<char>>
    decreases members.len(),
{
    if members.len() == 0 {
        Map::empty()
    } else {
        table_of(members.drop_last()).insert(members.last().0, members.last().1)
    }
}

/// The translations that `document` holds: those of its members, and none where it
/// is not an object of strings.
pub open spec fn translations_in(document: Seq<char>) -> Map<Seq<char>, Seq<char>> {
    match json_string_members(document) {
        Some(members) => table_of(members),
        None => Map::empty(),
    }
}

/// The translations held in `map`, as plain text.
pub open spec fn text_table(map: Map<Seq<char>, String>) -> Map<Seq<char>, Seq<char>> {
    Map::new(|key: Seq<char>| map.contains_key(key), |key: Seq<char>| map[key]@)
}

/// Where the document of `language` is kept.
pub open spec fn locale_path_text(language: Seq<char>) -> Seq<char> {
    "assets/locales/"@ + language + ".json"@
}

/// Where the document of `language` is kept: `assets/locales/`, the language, `.json`.
pub fn locale_path(language: &str) -> (path: String)
    ensures
        path@ == locale_path_text(language@),
{
    let mut path = "assets/locales/".to_owned();
    path.append(language);
    path.append(".json");
    path
}

/// The texts of one language.
pub struct Localizer {
    pub translations: StringHashMap<String>,
}

impl Localizer {
    /// The translations, as plain text.
    pub open spec fn table(&self) -> Map<Seq<char>, Seq<char>> {
        text_table(self.translations@)
    }

    /// The text for `key`: its translation, or the key itself where it has none.
    pub open spec fn lookup(&self, key: Seq<char>) -> Seq<char> {
        if self.table().contains_key(key) {
            self.table()[key]
        } else {
            key
        }
    }

    /// A localizer with the translations that `document` holds. A document that is
    /// not a JSON object of strings holds none.
    pub fn new(document: &str) -> (localizer: Self)
        ensures
            localizer.table() == translations_in(document@),
    {
        let mut localizer = Localizer { translations: StringHashMap::new() };
        localizer.load(document);
        localizer
    }

    /// Replaces the translations by those that `document` holds. A document that is
    /// not a JSON object of strings holds none.
    pub fn load(&mut self, document: &str)
        ensures
            final(self).table() == translations_in(document@),
    {
        let mut translations: StringHashMap<String> = StringHashMap::new();
        assert(text_table(translations@) =~= Map::<Seq<char>, Seq<char>>::empty());
        if let Some(members) = parse_string_members(document) {
            let mut k: usize = 0;
            while k < members.len()
                invariant
                    k <= members@.len(),
                    text_table(translations@) == table_of(members_text(members@).take(k as int)),
                decreases members@.len() - k,
            {
                let key = members[k].0.clone();
                let value = members[k].1.clone();
                proof {
                    let longer = members_text(members@).take(k + 1);
                    assert(longer.drop_last() =~= members_text(members@).take(k as int));
                    assert(longer.last() == (key@, value@));
                    assert(text_table(translations@.insert(key@, value)) =~= text_table(
                        translations@,
                    ).insert(key@, value@));
                }
                translations.insert(key, value);
                k += 1;
            }
            assert(members_text(members@).take(members@.len() as int) =~= members_text(members@));
        }
        self.translations = translations;
    }

    /// The text for `key`: its translation, or the key itself where it has none.
    pub fn get(&self, key: &str) -> (text: String)
        ensures
            text@ == self.lookup(key@),
    {
        match self.translations.get(key) {
            Some(translation) => translation.clone(),
            None => key.to_owned(),
        }
    }
}

} // verus!
