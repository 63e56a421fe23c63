//! The directory-listing algorithm: one structured child query instead of
//! the provider's slow recursive enumeration.
//!
//! The glue issues the query built from a [`crate::entity::ListRequest`] and
//! hands every result row back as a [`ListRow`]; a null result set is handed
//! back as `None`. Everything after the query is decided and verified here:
//! each row is classified as a directory by comparing its MIME type against
//! the platform's reserved directory MIME constant, rows whose per-child
//! foreign reference came back null are dropped, and the surviving entities
//! are ordered by name so the listing is deterministic although the
//! platform's enumeration order is unspecified.

use vstd::prelude::*;
use vstd::multiset::Multiset;
use crate::entity::DocumentEntity;
use crate::text::lex_le;
use crate::text::lemma_lex_le_antisymmetric;
use crate::text::lemma_lex_le_total;
use crate::text::lemma_lex_le_trans;
use crate::text::str_eq;
use crate::text::str_le;

verus! {

broadcast use vstd::multiset::group_multiset_axioms, vstd::multiset::group_multiset_properties;

/// One row of the child query's result, together with the values the glue
/// derived for that row: the child's locator built from the parent locator
/// and the row's document identifier, the display path read from that
/// locator, and the single-document foreign reference created for the child
/// without a second round trip — `None` when the platform handed back a null
/// reference for it.
#[derive(Debug, Clone)]
pub struct ListRow<H> {
    pub document_id: String,
    pub display_name: String,
    pub byte_size: u64,
    pub mime_type: String,
    pub display_path: String,
    pub locator: String,
    pub foreign_ref: Option<H>,
}

/// The columns of the child query's fixed projection.
#[derive(Debug, Clone, Copy, PartialEq, Eq, Structural)]
pub enum ListColumn {
    DocumentId,
    DisplayName,
    ByteSize,
    MimeType,
}

/// The fixed four-column projection of the child query, in the order the
/// columns are requested — the order [`ListRow`] fields are read back in.
pub fn list_projection() -> (columns: Vec<ListColumn>)
    ensures
        columns@ == seq![
            ListColumn::DocumentId,
            ListColumn::DisplayName,
            ListColumn::ByteSize,
            ListColumn::MimeType,
        ],
{
    let mut columns: Vec<ListColumn> = Vec::new();
    columns.push(ListColumn::DocumentId);
    columns.push(ListColumn::DisplayName);
    columns.push(ListColumn::ByteSize);
    columns.push(ListColumn::MimeType);
    proof {
        assert(columns@ =~= seq![
            ListColumn::DocumentId,
            ListColumn::DisplayName,
            ListColumn::ByteSize,
            ListColumn::MimeType,
        ]);
    }
    columns
}

/// The entity a result row denotes: the row's values, classified as a
/// directory exactly when its MIME type equals the platform's directory
/// constant.
pub open spec fn spec_row_entity<H>(row: ListRow<H>, directory_mime: Seq<char>) -> DocumentEntity<
    H,
>
    recommends
        row.foreign_ref is Some,
{
    DocumentEntity {
        name: row.display_name,
        byte_size: row.byte_size,
        display_path: row.display_path,
        locator: row.locator,
        is_directory: row.mime_type@ == directory_mime,
        foreign_ref: row.foreign_ref->0,
    }
}

/// The entities a row sequence denotes, in row order: one entity per row
/// whose foreign reference is present, rows with a null reference dropped.
pub open spec fn spec_listing<H>(
    rows: Seq<ListRow<H>>,
    directory_mime: Seq<char>,
) -> Seq<DocumentEntity<H>>
    decreases rows.len(),
{
    if rows.len() == 0 {
        Seq::empty()
    } else if rows.first().foreign_ref is Some {
        seq![spec_row_entity(rows.first(), directory_mime)] + spec_listing(
            rows.drop_first(),
            directory_mime,
        )
    } else {
        spec_listing(rows.drop_first(), directory_mime)
    }
}

/// The entities appear in lexicographically non-decreasing name order.
pub open spec fn sorted_by_name<H>(entities: Seq<DocumentEntity<H>>) -> bool {
    forall|i: int, j: int|
        #![trigger entities[i], entities[j]]
        0 <= i < j < entities.len() ==> lex_le(entities[i].name@, entities[j].name@)
}

/// The entities bear pairwise distinct names.
pub open spec fn distinct_names<H>(entities: Seq<DocumentEntity<H>>) -> bool {
    forall|i: int, j: int|
        #![trigger entities[i], entities[j]]
        0 <= i < j < entities.len() ==> entities[i].name@ != entities[j].name@
}

/// Listing is deterministic: when the children bear pairwise distinct
/// names, there is exactly one name-sorted arrangement of them, so the
/// assembled listing is a function of the set of children alone — whatever
/// enumeration order the platform's provider chooses, the same children
/// come out as the same sequence.
pub proof fn lemma_listing_deterministic<H>(
    a: Seq<DocumentEntity<H>>,
    b: Seq<DocumentEntity<H>>,
)
    requires
        sorted_by_name(a),
        sorted_by_name(b),
        distinct_names(a),
        a.to_multiset() == b.to_multiset(),
    ensures
        a == b,
    decreases a.len(),
{
    a.to_multiset_ensures();
    b.to_multiset_ensures();
    if a.len() == 0 {
        assert(b.len() == 0);
        assert(a =~= b);
    } else {
        assert(b.len() == a.len());
        assert(a.contains(a[0]));
        assert(b.to_multiset().count(a[0]) > 0);
        assert(b.contains(a[0]));
        let j = choose|k: int| 0 <= k < b.len() && b[k] == a[0];
        assert(0 <= j < b.len() && b[j] == a[0]);
        assert(b.contains(b[0]));
        assert(a.to_multiset().count(b[0]) > 0);
        assert(a.contains(b[0]));
        let i = choose|k: int| 0 <= k < a.len() && a[k] == b[0];
        assert(0 <= i < a.len() && a[i] == b[0]);
        // The heads agree: each sequence starts with the least name, and
        // with distinct names the least entity is unique.
        if j > 0 {
            assert(lex_le(b[0].name@, a[0].name@));
            if i > 0 {
                assert(lex_le(a[0].name@, b[0].name@));
                lemma_lex_le_antisymmetric(a[0].name@, b[0].name@);
                assert(a[0].name@ == a[i].name@);
                assert(false);
            }
        }
        assert(a[0] == b[0]);
        // The tails are sorted, distinct, and carry the same entities.
        let a1 = a.drop_first();
        let b1 = b.drop_first();
        assert(a.remove(0) =~= a1);
        assert(b.remove(0) =~= b1);
        assert(a1.to_multiset() =~= a.to_multiset().remove(a[0]));
        assert(b1.to_multiset() =~= b.to_multiset().remove(b[0]));
        assert(a1.to_multiset() == b1.to_multiset());
        assert forall|p: int, q: int|
            #![trigger a1[p], a1[q]]
            0 <= p < q < a1.len() implies lex_le(a1[p].name@, a1[q].name@) && a1[p].name@
            != a1[q].name@ by {
            assert(a1[p] == a[p + 1]);
            assert(a1[q] == a[q + 1]);
        };
        assert forall|p: int, q: int|
            #![trigger b1[p], b1[q]]
            0 <= p < q < b1.len() implies lex_le(b1[p].name@, b1[q].name@) by {
            assert(b1[p] == b[p + 1]);
            assert(b1[q] == b[q + 1]);
        };
        lemma_listing_deterministic(a1, b1);
        assert(a1.len() == a.len() - 1);
        assert(b1.len() == b.len() - 1);
        assert forall|m: int| 0 <= m < a.len() implies a[m] == b[m] by {
            if m > 0 {
                assert(a1[m - 1] == a[m]);
                assert(b1[m - 1] == b[m]);
            }
        };
        assert(a =~= b);
    }
}

/// Directory classification of one row: true exactly when the row's MIME
/// type equals the platform's reserved directory MIME constant.
pub fn classify_directory(mime_type: &str, directory_mime: &str) -> (is_directory: bool)
    ensures
        is_directory == (mime_type@ == directory_mime@),
{
    str_eq(mime_type, directory_mime)
}

/// Builds the entity one result row denotes.
pub fn entity_from_row<H>(row: ListRow<H>, directory_mime: &str) -> (entity: DocumentEntity<H>)
    requires
        row.foreign_ref is Some,
    ensures
        entity == spec_row_entity(row, directory_mime@),
{
    let is_directory = classify_directory(row.mime_type.as_str(), directory_mime);
    let ListRow {
        document_id: _,
        display_name,
        byte_size,
        mime_type: _,
        display_path,
        locator,
        foreign_ref,
    } = row;
    match foreign_ref {
        Some(handle) => DocumentEntity {
            name: display_name,
            byte_size,
            display_path,
            locator,
            is_directory,
            foreign_ref: handle,
        },
        None => vstd::pervasive::unreached(),
    }
}

/// Inserting anywhere into a sequence adds exactly that element to its
/// multiset of elements.
proof fn lemma_insert_to_multiset<A>(s: Seq<A>, i: int, a: A)
    requires
        0 <= i <= s.len(),
    ensures
        s.insert(i, a).to_multiset() == s.to_multiset().insert(a),
{
    let t = s.insert(i, a);
    s.insert_ensures(i, a);
    t.to_multiset_ensures();
    assert(t.remove(i) =~= s);
    assert(t[i] == a);
    assert(t.contains(a));
    assert(s.to_multiset() =~= t.to_multiset().remove(a));
    assert forall|x: A|
        t.to_multiset().count(x) == s.to_multiset().insert(a).count(x) by {
        if x == a {
        } else {
        }
    };
    assert(t.to_multiset() =~= s.to_multiset().insert(a));
}

/// Inserts one entity into a name-sorted vector, keeping it sorted.
fn insert_by_name<H>(entities: &mut Vec<DocumentEntity<H>>, entity: DocumentEntity<H>)
    requires
        sorted_by_name(old(entities)@),
    ensures
        sorted_by_name(final(entities)@),
        final(entities)@.to_multiset() == old(entities)@.to_multiset().insert(entity),
        final(entities)@.len() == old(entities)@.len() + 1,
{
    let ghost pre = entities@;
    let mut k: usize = 0;
    while k < entities.len() && str_le(entities[k].name.as_str(), entity.name.as_str())
        invariant
            k <= pre.len(),
            entities@ == pre,
            sorted_by_name(pre),
            forall|j: int| 0 <= j < k ==> lex_le(#[trigger] pre[j].name@, entity.name@),
        decreases pre.len() - k,
    {
        k += 1;
    }
    proof {
        if k < pre.len() {
            lemma_lex_le_total(pre[k as int].name@, entity.name@);
        }
        assert forall|j: int| k <= j < pre.len() implies lex_le(
            entity.name@,
            #[trigger] pre[j].name@,
        ) by {
            if j > k {
                lemma_lex_le_trans(entity.name@, pre[k as int].name@, pre[j].name@);
            }
        };
    }
    entities.insert(k, entity);
    proof {
        pre.insert_ensures(k as int, entity);
        lemma_insert_to_multiset(pre, k as int, entity);
        let t = entities@;
        assert forall|i: int, j: int| 0 <= i < j < t.len() implies lex_le(
            #[trigger] t[i].name@,
            #[trigger] t[j].name@,
        ) by {
            if i < k && j < k {
            } else if i < k && j == k {
            } else if i < k && j > k {
            } else if i == k {
            } else {
            }
        };
    }
}

/// Assembles the final listing from the query's outcome.
///
/// A null result set (`None`) yields the empty listing, not an error. A
/// present result set yields exactly the entities its rows denote — rows
/// whose per-child foreign reference was null are dropped — reordered into
/// lexicographically non-decreasing name order.
pub fn assemble_listing<H>(rows: Option<Vec<ListRow<H>>>, directory_mime: &str) -> (entities: Vec<
    DocumentEntity<H>,
>)
    ensures
        sorted_by_name(entities@),
        rows is None ==> entities@ == Seq::<DocumentEntity<H>>::empty(),
        rows matches Some(given) ==> entities@.to_multiset() == spec_listing(
            given@,
            directory_mime@,
        ).to_multiset(),
{
    let out: Vec<DocumentEntity<H>> = Vec::new();
    let mut remaining = match rows {
        Some(given) => given,
        None => {
            return out;
        },
    };
    let ghost all = remaining@;
    let mut out = out;
    proof {
        out@.to_multiset_ensures();
        assert(out@.to_multiset() =~= Multiset::<DocumentEntity<H>>::empty());
        assert(out@.to_multiset().add(spec_listing(all, directory_mime@).to_multiset())
            =~= spec_listing(all, directory_mime@).to_multiset());
    }
    while remaining.len() > 0
        invariant
            sorted_by_name(out@),
            out@.to_multiset().add(spec_listing(remaining@, directory_mime@).to_multiset())
                == spec_listing(all, directory_mime@).to_multiset(),
        decreases remaining@.len(),
    {
        let ghost before = remaining@;
        let row = remaining.remove(0);
        proof {
            assert(before.remove(0) =~= before.drop_first());
            if row.foreign_ref is Some {
                assert(seq![spec_row_entity(row, directory_mime@)] + spec_listing(
                    before.drop_first(),
                    directory_mime@,
                ) =~= spec_listing(before.drop_first(), directory_mime@).insert(
                    0,
                    spec_row_entity(row, directory_mime@),
                ));
                lemma_insert_to_multiset(
                    spec_listing(before.drop_first(), directory_mime@),
                    0,
                    spec_row_entity(row, directory_mime@),
                );
            }
        }
        if row.foreign_ref.is_some() {
            let entity = entity_from_row(row, directory_mime);
            insert_by_name(&mut out, entity);
            proof {
                assert(out@.to_multiset().add(
                    spec_listing(remaining@, directory_mime@).to_multiset(),
                ) =~= spec_listing(all, directory_mime@).to_multiset());
            }
        }
    }
    proof {
        let empty_listing = spec_listing(remaining@, directory_mime@);
        assert(empty_listing == Seq::<DocumentEntity<H>>::empty());
        empty_listing.to_multiset_ensures();
        assert(empty_listing.to_multiset() =~= Multiset::<DocumentEntity<H>>::empty());
        assert(out@.to_multiset() =~= out@.to_multiset().add(empty_listing.to_multiset()));
    }
    out
}

} // verus!
