//! Translation lookup: language tables of key/text pairs, with fallback to
//! English and finally to the key itself.
//!
//! The caller loads the tables (from its locale files) and hands them over
//! as plain pairs; lookup takes the first matching entry, so tables with
//! unique keys behave exactly like maps.

use vstd::prelude::*;

verus! {

/// The translation tables: one `(language, rows)` pair per locale, each row
/// a `(key, text)` pair.
pub struct Translations {
    pub data: Vec<(String, Vec<(String, String)>)>,
}

/// The text of `key` in a table, by first match.
pub open spec fn spec_row_lookup(rows: Seq<(String, String)>, key: Seq<char>) -> Option<Seq<char>>
    decreases rows.len(),
{
    if rows.len() == 0 {
        None
    } else if rows[0].0@ == key {
        Some(rows[0].1@)
    } else {
        spec_row_lookup(rows.drop_first(), key)
    }
}

/// The rows of `lang`, by first match.
pub open spec fn spec_lang_lookup(
    data: Seq<(String, Vec<(String, String)>)>,
    lang: Seq<char>,
) -> Option<Seq<(String, String)>>
    decreases data.len(),
{
    if data.len() == 0 {
        None
    } else if data[0].0@ == lang {
        Some(data[0].1@)
    } else {
        spec_lang_lookup(data.drop_first(), lang)
    }
}

/// The text of `key` in `lang`'s table, if both exist.
pub open spec fn spec_lookup(
    data: Seq<(String, Vec<(String, String)>)>,
    lang: Seq<char>,
    key: Seq<char>,
) -> Option<Seq<char>> {
    match spec_lang_lookup(data, lang) {
        Some(rows) => spec_row_lookup(rows, key),
        None => None,
    }
}

/// What `get` returns: the text in the requested language, else the English
/// text, else the key itself.
pub open spec fn spec_get(
    data: Seq<(String, Vec<(String, String)>)>,
    lang: Seq<char>,
    key: Seq<char>,
) -> Seq<char> {
    match spec_lookup(data, lang, key) {
        Some(text) => text,
        None => match spec_lookup(data, "en"@, key) {
            Some(text) => text,
            None => key,
        },
    }
}

impl Translations {
    /// Wraps loaded translation tables.
    pub fn new(data: Vec<(String, Vec<(String, String)>)>) -> (t: Translations)
        ensures
            t.data == data,
    {
        Translations { data }
    }

    /// Looks `key` up in `lang`'s table, falling back to English and then
    /// to the key itself.
    pub fn get(&self, lang: &str, key: &str) -> (r: String)
        ensures
            r@ == spec_get(self.data@, lang@, key@),
    {
        match self.lookup(lang, key) {
            Some(text) => text,
            None => match self.lookup("en", key) {
                Some(text) => text,
                None => key.to_owned(),
            },
        }
    }

    /// The text of `key` in `lang`'s table, if both exist.
    fn lookup(&self, lang: &str, key: &str) -> (r: Option<String>)
        ensures
            match (r, spec_lookup(self.data@, lang@, key@)) {
                (Some(a), Some(b)) => a@ == b,
                (None, None) => true,
                _ => false,
            },
    {
        let lang_owned: String = lang.to_owned();
        let key_owned: String = key.to_owned();
        let n = self.data.len();
        let mut i: usize = 0;
        proof {
            assert(self.data@.skip(0) =~= self.data@);
        }
        while i < n
            invariant
                n == self.data@.len(),
                i <= n,
                spec_lang_lookup(self.data@, lang@) == spec_lang_lookup(
                    self.data@.skip(i as int),
                    lang@,
                ),
                lang_owned@ == lang@,
                key_owned@ == key@,
            decreases n - i,
        {
            proof {
                assert(self.data@.skip(i as int)[0] == self.data@[i as int]);
                assert(self.data@.skip(i as int).drop_first() =~= self.data@.skip(i + 1));
            }
            if self.data[i].0 == lang_owned {
                let rows = &self.data[i].1;
                proof {
                    assert(spec_lang_lookup(self.data@, lang@) == Some(self.data@[i as int].1@));
                    assert(rows@.skip(0) =~= rows@);
                }
                let m = rows.len();
                let mut j: usize = 0;
                while j < m
                    invariant
                        i < n == self.data@.len(),
                        m == rows@.len(),
                        j <= m,
                        rows == &self.data[i as int].1,
                        spec_lookup(self.data@, lang@, key@) == spec_row_lookup(
                            rows@.skip(j as int),
                            key@,
                        ),
                        key_owned@ == key@,
                    decreases m - j,
                {
                    proof {
                        assert(rows@.skip(j as int)[0] == rows@[j as int]);
                        assert(rows@.skip(j as int).drop_first() =~= rows@.skip(j + 1));
                    }
                    if rows[j].0 == key_owned {
                        return Some(rows[j].1.clone());
                    }
                    j += 1;
                }
                proof {
                    assert(rows@.skip(m as int) =~= Seq::<(String, String)>::empty());
                }
                return None;
            }
            i += 1;
        }
        proof {
            assert(self.data@.skip(n as int) =~= Seq::<(String, Vec<(String, String)>)>::empty());
        }
        None
    }
}

} // verus!
