//! The three adapter decisions: validating a visibility request, building
//! insert metadata, and deciding a visibility update from a fetched point.
//!
//! Each engine operation is one outbound call; everything the adapter
//! decides around that call is here, as a total function from plain values
//! to plain values.  The caller performs the call itself and hands the
//! engine's answer back in.

use crate::data::{
    collect_author_texts, empty_metadata, is_empty_metadata, is_private_metadata,
    lemma_merge_author_idempotent, lemma_private_metadata_read_back, merge_author, merged_authors,
    metadata_is_private, private_flag, private_metadata, stored_authors, texts_of, Metadata,
};
use crate::ids::{format_uuid, uuid_text_of};
use crate::{AdapterError, Visibility};
use vstd::prelude::*;

verus! {

/// What a visibility update decides to do once the current point is known.
#[derive(Debug, PartialEq, Eq)]
pub enum VisibilityAction {
    /// Leave the point as it is; no write is issued.
    NoOp,
    /// Replace the point's metadata wholesale with this document.
    WriteMetadata(Metadata),
}

/// The validation run before any engine call: a request for a private point
/// must name an author.
pub fn check_visibility_author(new_visibility: Visibility, author: Option<u128>) -> (r: Result<
    (),
    AdapterError,
>)
    ensures
        new_visibility is Private && author is None ==> r == Err::<(), AdapterError>(
            AdapterError::ValidationError,
        ),
        !(new_visibility is Private && author is None) ==> r == Ok::<(), AdapterError>(()),
{
    match new_visibility {
        Visibility::Private => {
            if author.is_none() {
                Err(AdapterError::ValidationError)
            } else {
                Ok(())
            }
        },
        Visibility::Public => Ok(()),
    }
}

/// Builds the metadata document under which a fresh point is inserted.
///
/// A public point carries no metadata at all.  A private point must name an
/// author — checked here, before any engine call — and carries
/// `{private: true, authors: [author]}`.  The insert itself is an upsert by
/// id on the engine side: re-inserting an id overwrites the stored point,
/// it is not rejected.
pub fn build_insert_metadata(visibility: Visibility, author: Option<u128>) -> (r: Result<
    Metadata,
    AdapterError,
>)
    ensures
        visibility is Public ==> (r matches Ok(m) && is_empty_metadata(m)),
        visibility is Private && author is None ==> r == Err::<Metadata, AdapterError>(
            AdapterError::ValidationError,
        ),
        visibility is Private ==> (author matches Some(a) ==> (r matches Ok(m)
            && is_private_metadata(m, seq![uuid_text_of(a)]))),
{
    match visibility {
        Visibility::Public => Ok(empty_metadata()),
        Visibility::Private => match author {
            None => Err(AdapterError::ValidationError),
            Some(a) => {
                let text = format_uuid(a);
                let mut authors: Vec<String> = Vec::new();
                authors.push(text);
                let ghost texts = texts_of(authors@);
                proof {
                    assert(texts =~= seq![uuid_text_of(a)]);
                }
                Ok(private_metadata(authors))
            },
        },
    }
}

/// Decides a visibility update, given what the index returned for the
/// point's id: `None` when no point came back (a failed read and a missing
/// point are indistinguishable here).  The rules are deliberately
/// asymmetric:
///
/// - nothing fetched: the update fails with `IndexReadError`;
/// - the point is currently public (a missing or non-boolean `private`
///   entry reads as public): the update is a no-op, whatever was requested
///   — a point can become private only at insertion or while still private;
/// - currently private, private requested: the author is merged into the
///   stored author set (an author already present changes nothing) and the
///   merged document is written back;
/// - currently private, public requested: the metadata is cleared to the
///   empty document, irreversibly erasing all author attribution.
///
/// The write-back named by the action replaces the point's metadata
/// wholesale; nothing is written when the decision is a no-op or an error.
pub fn set_visibility_decision(
    fetched: Option<Metadata>,
    new_visibility: Visibility,
    author: Option<u128>,
) -> (r: Result<VisibilityAction, AdapterError>)
    requires
        new_visibility is Private ==> author is Some,
    ensures
        fetched is None ==> r == Err::<VisibilityAction, AdapterError>(
            AdapterError::IndexReadError,
        ),
        fetched matches Some(m) && !private_flag(m) ==> r == Ok::<VisibilityAction, AdapterError>(
            VisibilityAction::NoOp,
        ),
        fetched matches Some(m) && private_flag(m) && new_visibility is Public ==> (r matches Ok(
            VisibilityAction::WriteMetadata(m2),
        ) && is_empty_metadata(m2)),
        fetched matches Some(m) ==> (private_flag(m) && new_visibility is Private ==> (author matches Some(
            a,
        ) ==> (r matches Ok(VisibilityAction::WriteMetadata(m2)) && is_private_metadata(
            m2,
            merged_authors(stored_authors(m), uuid_text_of(a)),
        )))),
{
    match fetched {
        None => Err(AdapterError::IndexReadError),
        Some(m) => {
            if !metadata_is_private(&m) {
                Ok(VisibilityAction::NoOp)
            } else {
                match new_visibility {
                    Visibility::Public => Ok(VisibilityAction::WriteMetadata(empty_metadata())),
                    Visibility::Private => {
                        let a = author.unwrap();
                        let text = format_uuid(a);
                        let current = collect_author_texts(&m);
                        let ghost current_texts = texts_of(current@);
                        let merged = merge_author(current, text);
                        proof {
                            assert(forall|i: int|
                                0 <= i < merged@.len() ==> texts_of(merged@)[i] == #[trigger] merged@[i]@);
                            lemma_merged_nonempty(current_texts, uuid_text_of(a));
                        }
                        Ok(VisibilityAction::WriteMetadata(private_metadata(merged)))
                    },
                }
            }
        },
    }
}

/// Law: a repeated private update with the same author changes nothing.
/// If one update of point `m` wrote back the document `m2`, then a second
/// update of `m2` requesting private with the same author decides to write
/// the very author set `m2` already stores.
pub proof fn lemma_private_update_stable(m: Metadata, m2: Metadata, a: Seq<char>)
    requires
        is_private_metadata(m2, merged_authors(stored_authors(m), a)),
    ensures
        private_flag(m2),
        merged_authors(stored_authors(m2), a) == stored_authors(m2),
{
    lemma_private_metadata_read_back(m2, merged_authors(stored_authors(m), a));
    lemma_merge_author_idempotent(stored_authors(m), a);
}

proof fn lemma_merged_nonempty(texts: Seq<Seq<char>>, a: Seq<char>)
    requires
        a.len() > 0,
        forall|i: int| 0 <= i < texts.len() ==> (#[trigger] texts[i]).len() > 0,
    ensures
        forall|i: int|
            0 <= i < merged_authors(texts, a).len() ==> (#[trigger] merged_authors(texts, a)[i]).len()
                > 0,
{
}

} // verus!
