//! The metadata document attached to an engine-side point, as the adapter
//! reads and writes it.
//!
//! The engine stores semi-structured key/value metadata on each point.  The
//! adapter recognizes exactly two keys: `private` (a boolean) and `authors`
//! (a list of opaque string identifiers).  It never reads or writes any
//! other entry, so a [`Metadata`] value holds just those two entries; an
//! absent field stands for an absent key.  Values of other kinds are kept
//! only as far as the adapter distinguishes them.

use vstd::prelude::*;

verus! {

/// One metadata value, as far as the adapter distinguishes value kinds:
/// a boolean, a string, a list of values, or anything else.
#[derive(Debug, PartialEq, Eq)]
pub enum MetaValue {
    Bool(bool),
    Text(String),
    List(Vec<MetaValue>),
    Other,
}

/// A point's metadata document, restricted to the two recognized keys.
/// `None` means the key is absent.  The empty document has both absent.
#[derive(Debug, PartialEq, Eq)]
pub struct Metadata {
    /// The value stored under the `private` key, if any.
    pub private_entry: Option<MetaValue>,
    /// The value stored under the `authors` key, if any.
    pub authors_entry: Option<MetaValue>,
}

/// The document with no entries at all.
pub open spec fn is_empty_metadata(m: Metadata) -> bool {
    m.private_entry is None && m.authors_entry is None
}

/// The effective visibility flag of a document: the boolean stored under
/// `private`, with any missing or non-boolean value defensively read as
/// `false` (public) rather than rejected.
pub open spec fn private_flag(m: Metadata) -> bool {
    match m.private_entry {
        Some(MetaValue::Bool(b)) => b,
        _ => false,
    }
}

/// The author identifiers a list of metadata values yields when read: its
/// non-empty string items, in order.  Items of any other kind, and empty
/// strings, are dropped silently, never reported as errors.
pub open spec fn text_items(items: Seq<MetaValue>) -> Seq<Seq<char>>
    decreases items.len(),
{
    if items.len() == 0 {
        Seq::empty()
    } else {
        let rest = text_items(items.drop_last());
        match items.last() {
            MetaValue::Text(s) => if s@.len() > 0 {
                rest.push(s@)
            } else {
                rest
            },
            _ => rest,
        }
    }
}

/// The author identifiers stored in a document: the readable items of the
/// list under `authors`, or nothing when that key is absent or holds a
/// value that is not a list.
pub open spec fn stored_authors(m: Metadata) -> Seq<Seq<char>> {
    match m.authors_entry {
        Some(MetaValue::List(items)) => text_items(items@),
        _ => Seq::empty(),
    }
}

/// Merging one author into a stored author set: already present, the set is
/// unchanged; otherwise the author is appended.
pub open spec fn merged_authors(texts: Seq<Seq<char>>, a: Seq<char>) -> Seq<Seq<char>> {
    if texts.contains(a) {
        texts
    } else {
        texts.push(a)
    }
}

/// The texts of a sequence of strings.
pub open spec fn texts_of(v: Seq<String>) -> Seq<Seq<char>> {
    v.map_values(|s: String| s@)
}

/// The list holds exactly the given texts, one non-empty string item each.
pub open spec fn exact_text_list(items: Seq<MetaValue>, texts: Seq<Seq<char>>) -> bool {
    &&& items.len() == texts.len()
    &&& forall|i: int|
        0 <= i < items.len() ==> ((#[trigger] items[i]) matches MetaValue::Text(s) && s@ == texts[i]
            && texts[i].len() > 0)
}

/// The document of a private point attributed to exactly the given authors:
/// `{private: true, authors: texts}` and nothing else.
pub open spec fn is_private_metadata(m: Metadata, texts: Seq<Seq<char>>) -> bool {
    &&& m.private_entry == Some(MetaValue::Bool(true))
    &&& m.authors_entry matches Some(MetaValue::List(items)) && exact_text_list(items@, texts)
}

/// Reads the effective visibility flag of a document.
pub fn metadata_is_private(m: &Metadata) -> (r: bool)
    ensures
        r == private_flag(*m),
{
    match &m.private_entry {
        Some(MetaValue::Bool(b)) => *b,
        _ => false,
    }
}

/// The document with no entries.
pub fn empty_metadata() -> (m: Metadata)
    ensures
        is_empty_metadata(m),
{
    Metadata { private_entry: None, authors_entry: None }
}

/// Collects the stored author identifiers of a document, dropping non-string
/// items and empty strings exactly as the read rules say.
pub fn collect_author_texts(m: &Metadata) -> (r: Vec<String>)
    ensures
        texts_of(r@) == stored_authors(*m),
        forall|j: int| 0 <= j < r@.len() ==> r@[j]@.len() > 0,
{
    let mut out: Vec<String> = Vec::new();
    match &m.authors_entry {
        Some(MetaValue::List(items)) => {
            let n = items.len();
            for i in 0..n
                invariant
                    n == items@.len(),
                    texts_of(out@) == text_items(items@.take(i as int)),
                    forall|j: int| 0 <= j < out@.len() ==> out@[j]@.len() > 0,
            {
                match &items[i] {
                    MetaValue::Text(s) => {
                        if !s.as_str().is_empty() {
                            out.push(s.clone());
                        }
                    },
                    _ => {},
                }
                proof {
                    assert(items@.take(i as int + 1).drop_last() =~= items@.take(i as int));
                    assert(items@.take(i as int + 1).last() == items@[i as int]);
                    assert(texts_of(out@) =~= text_items(items@.take(i as int + 1)));
                }
            }
            proof {
                assert(items@.take(n as int) =~= items@);
            }
        },
        _ => {
            proof {
                assert(texts_of(out@) =~= Seq::<Seq<char>>::empty());
            }
        },
    }
    out
}

/// Merges one author identifier into the collected author list.
pub fn merge_author(authors: Vec<String>, author_text: String) -> (r: Vec<String>)
    ensures
        texts_of(r@) == merged_authors(texts_of(authors@), author_text@),
{
    let mut merged = authors;
    let present = texts_contain(&merged, &author_text);
    if !present {
        let ghost before = merged@;
        merged.push(author_text);
        proof {
            assert(texts_of(merged@) =~= texts_of(before).push(texts_of(merged@)[before.len() as int]));
        }
    }
    merged
}

/// Whether the list already holds this text.
fn texts_contain(v: &Vec<String>, t: &String) -> (r: bool)
    ensures
        r == texts_of(v@).contains(t@),
{
    let n = v.len();
    for i in 0..n
        invariant
            n == v@.len(),
            forall|j: int| 0 <= j < i ==> v@[j]@ != t@,
    {
        if v[i] == *t {
            proof {
                assert(texts_of(v@)[i as int] == t@);
            }
            return true;
        }
    }
    proof {
        assert(forall|j: int| 0 <= j < texts_of(v@).len() ==> texts_of(v@)[j] != t@);
    }
    false
}

/// Builds the document of a private point attributed to the given authors.
pub fn private_metadata(authors: Vec<String>) -> (m: Metadata)
    requires
        forall|i: int| 0 <= i < authors@.len() ==> authors@[i]@.len() > 0,
    ensures
        is_private_metadata(m, texts_of(authors@)),
{
    let mut items: Vec<MetaValue> = Vec::new();
    let n = authors.len();
    for i in 0..n
        invariant
            n == authors@.len(),
            items@.len() == i,
            forall|i2: int| 0 <= i2 < authors@.len() ==> authors@[i2]@.len() > 0,
            forall|j: int|
                0 <= j < i ==> ((#[trigger] items@[j]) matches MetaValue::Text(s) && s@ == authors@[j]@),
    {
        items.push(MetaValue::Text(authors[i].clone()));
    }
    proof {
        assert(exact_text_list(items@, texts_of(authors@)));
    }
    Metadata {
        private_entry: Some(MetaValue::Bool(true)),
        authors_entry: Some(MetaValue::List(items)),
    }
}

/// Law: a private document built for a given author set reads back as
/// private, and its stored authors are exactly that set.
pub proof fn lemma_private_metadata_read_back(m: Metadata, texts: Seq<Seq<char>>)
    requires
        is_private_metadata(m, texts),
    ensures
        private_flag(m),
        stored_authors(m) == texts,
{
    match m.authors_entry {
        Some(MetaValue::List(items)) => {
            lemma_text_items_exact(items@, texts);
        },
        _ => {},
    }
}

/// Law: merging an author is idempotent — the author set reached by one
/// merge absorbs a second merge of the same author (set semantics).
pub proof fn lemma_merge_author_idempotent(texts: Seq<Seq<char>>, a: Seq<char>)
    ensures
        merged_authors(merged_authors(texts, a), a) == merged_authors(texts, a),
{
    if !texts.contains(a) {
        assert(texts.push(a)[texts.len() as int] == a);
        assert(texts.push(a).contains(a));
    }
}

proof fn lemma_text_items_exact(items: Seq<MetaValue>, texts: Seq<Seq<char>>)
    requires
        exact_text_list(items, texts),
    ensures
        text_items(items) == texts,
    decreases items.len(),
{
    if items.len() == 0 {
        assert(text_items(items) =~= texts);
    } else {
        assert(exact_text_list(items.drop_last(), texts.drop_last()));
        lemma_text_items_exact(items.drop_last(), texts.drop_last());
        assert(items[items.len() - 1] matches MetaValue::Text(s) && s@ == texts[items.len() - 1]);
        assert(text_items(items) =~= texts);
    }
}

} // verus!
