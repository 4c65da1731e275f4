//! A plain model of a parsed YAML document, as far as the configuration
//! schema reads it: null, booleans, machine integers, strings, and mappings
//! with string keys. Anything else a document may contain (sequences,
//! floating-point numbers, tags, mappings with non-string keys) is carried
//! as `Other`: the schema treats such a value as ill-typed wherever it
//! appears, and never looks inside it.

use vstd::prelude::*;

verus! {

/// Mathematical value of a [`YamlValue`].
pub enum YamlV {
    Null,
    Bool(bool),
    Int(int),
    Str(Seq<char>),
    Mapping(Seq<(Seq<char>, YamlV)>),
    Other,
}

/// A parsed YAML value, reduced to what the configuration schema can read.
pub enum YamlValue {
    Null,
    Bool(bool),
    Int(i64),
    Str(String),
    Mapping(Vec<(String, YamlValue)>),
    Other,
}

/// Mathematical value of a sequence of mapping entries, key views paired
/// with value views, in document order.
pub open spec fn entries_view(s: Seq<(String, YamlValue)>) -> Seq<(Seq<char>, YamlV)>
    decreases s,
{
    if s.len() == 0 {
        Seq::empty()
    } else {
        seq![(s[0].0@, s[0].1@)] + entries_view(s.drop_first())
    }
}

impl View for YamlValue {
    type V = YamlV;

    open spec fn view(&self) -> YamlV
        decreases self,
    {
        match self {
            YamlValue::Null => YamlV::Null,
            YamlValue::Bool(b) => YamlV::Bool(*b),
            YamlValue::Int(i) => YamlV::Int(*i as int),
            YamlValue::Str(s) => YamlV::Str(s@),
            YamlValue::Mapping(entries) => YamlV::Mapping(entries_view(entries@)),
            YamlValue::Other => YamlV::Other,
        }
    }
}

/// Each entry of `entries_view` is the view of the matching entry of `s`.
pub proof fn lemma_entries_view(s: Seq<(String, YamlValue)>)
    ensures
        entries_view(s).len() == s.len(),
        forall|i: int| 0 <= i < s.len() ==> entries_view(s)[i] == (s[i].0@, s[i].1@),
    decreases s.len(),
{
    if s.len() > 0 {
        lemma_entries_view(s.drop_first());
        assert(entries_view(s) == seq![(s[0].0@, s[0].1@)] + entries_view(s.drop_first()));
        assert forall|i: int| 0 <= i < s.len() implies entries_view(s)[i] == (
            s[i].0@,
            s[i].1@,
        ) by {
            if i > 0 {
                assert(s.drop_first()[i - 1] == s[i]);
            }
        }
    }
}

/// Value bound to the first entry of `m` whose key is `k`, if any.
pub open spec fn lookup(m: Seq<(Seq<char>, YamlV)>, k: Seq<char>) -> Option<YamlV>
    decreases m,
{
    if m.len() == 0 {
        None
    } else if m[0].0 == k {
        Some(m[0].1)
    } else {
        lookup(m.drop_first(), k)
    }
}

/// `lookup` finds nothing exactly when no entry carries the key.
pub proof fn lemma_lookup_none(m: Seq<(Seq<char>, YamlV)>, k: Seq<char>)
    ensures
        lookup(m, k) is None <==> (forall|i: int| 0 <= i < m.len() ==> m[i].0 != k),
    decreases m.len(),
{
    if m.len() > 0 {
        lemma_lookup_none(m.drop_first(), k);
        assert(forall|i: int| 1 <= i < m.len() ==> m.drop_first()[i - 1] == m[i]);
    }
}

/// `lookup` returns the value of the first entry carrying the key.
pub proof fn lemma_lookup_at(m: Seq<(Seq<char>, YamlV)>, k: Seq<char>, i: int)
    requires
        0 <= i < m.len(),
        m[i].0 == k,
        forall|j: int| 0 <= j < i ==> m[j].0 != k,
    ensures
        lookup(m, k) == Some(m[i].1),
    decreases i,
{
    if i > 0 {
        assert(forall|j: int| 0 <= j < i - 1 ==> m.drop_first()[j] == m[j + 1]);
        lemma_lookup_at(m.drop_first(), k, i - 1);
    }
}

/// Compares a document string with an expected key, character for character.
pub fn string_is(s: &String, t: &str) -> (r: bool)
    ensures
        r == (s@ == t@),
{
    let owned: String = t.to_owned();
    *s == owned
}

impl YamlValue {
    /// Reference to the value bound to the first entry of `entries` whose
    /// key is `key`, if any.
    pub fn find<'a>(entries: &'a Vec<(String, YamlValue)>, key: &str) -> (r: Option<
        &'a YamlValue,
    >)
        ensures
            match r {
                Some(v) => lookup(entries_view(entries@), key@) == Some(v@),
                None => lookup(entries_view(entries@), key@) is None,
            },
    {
        proof {
            lemma_entries_view(entries@);
        }
        let ghost m = entries_view(entries@);
        let mut i: usize = 0;
        while i < entries.len()
            invariant
                0 <= i <= entries.len(),
                m == entries_view(entries@),
                m.len() == entries@.len(),
                forall|j: int| 0 <= j < m.len() ==> m[j] == (entries@[j].0@, entries@[j].1@),
                forall|j: int| 0 <= j < i ==> m[j].0 != key@,
            decreases entries.len() - i,
        {
            let e = &entries[i];
            if string_is(&e.0, key) {
                proof {
                    lemma_lookup_at(m, key@, i as int);
                }
                return Some(&e.1);
            }
            i += 1;
        }
        proof {
            lemma_lookup_none(m, key@);
        }
        None
    }
}

} // verus!
